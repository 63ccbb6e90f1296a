//! Scanning character sequences: whitespace trimming, phrase boundaries,
//! unsigned number parsing and whitespace-separated words.
use vstd::prelude::*;
use crate::text::{
    has_prefix, has_suffix, is_ws, lead_ws, occurs_at, occurs_at_exec, trail_ws, trim, trim_end,
    trim_start,
};

verus! {

// ---------------------------------------------------------------------------
// Whitespace
// ---------------------------------------------------------------------------

/// `char::is_whitespace`.
pub fn is_ws_char(c: char) -> (r: bool)
    ensures
        r == is_ws(c),
{
    let u = c as u32;
    (0x9 <= u && u <= 0xD) || u == 0x20 || u == 0x85 || u == 0xA0 || u == 0x1680 || (0x2000 <= u
        && u <= 0x200A) || u == 0x2028 || u == 0x2029 || u == 0x202F || u == 0x205F || u == 0x3000
}

/// `lead_ws` counts exactly the whitespace run at the start.
pub proof fn lemma_lead_ws(s: Seq<char>)
    ensures
        lead_ws(s) <= s.len(),
        forall|j: int| 0 <= j < lead_ws(s) ==> is_ws(#[trigger] s[j]),
        lead_ws(s) < s.len() ==> !is_ws(s[lead_ws(s) as int]),
    decreases s.len(),
{
    if s.len() > 0 && is_ws(s[0]) {
        let t = s.drop_first();
        lemma_lead_ws(t);
        assert forall|j: int| 0 <= j < lead_ws(s) implies is_ws(#[trigger] s[j]) by {
            if j > 0 {
                assert(s[j] == t[j - 1]);
            }
        }
        if lead_ws(s) < s.len() {
            assert(s[lead_ws(s) as int] == t[lead_ws(t) as int]);
        }
    }
}

/// `trail_ws` counts exactly the whitespace run at the end.
pub proof fn lemma_trail_ws(s: Seq<char>)
    ensures
        trail_ws(s) <= s.len(),
        forall|j: int| s.len() - trail_ws(s) <= j < s.len() ==> is_ws(#[trigger] s[j]),
        trail_ws(s) < s.len() ==> !is_ws(s[s.len() - trail_ws(s) - 1]),
    decreases s.len(),
{
    if s.len() > 0 && is_ws(s.last()) {
        let t = s.drop_last();
        lemma_trail_ws(t);
        assert forall|j: int| s.len() - trail_ws(s) <= j < s.len() implies is_ws(#[trigger] s[j]) by {
            if j < s.len() - 1 {
                assert(s[j] == t[j]);
            }
        }
        if trail_ws(s) < s.len() {
            assert(s[s.len() - trail_ws(s) - 1] == t[t.len() - trail_ws(t) - 1]);
        }
    }
}

/// The characters `v[a..b]` as a new vector.
pub fn slice_chars(v: &Vec<char>, a: usize, b: usize) -> (r: Vec<char>)
    requires
        a <= b <= v@.len(),
    ensures
        r@ == v@.subrange(a as int, b as int),
{
    let mut out: Vec<char> = Vec::new();
    let mut i = a;
    while i < b
        invariant
            a <= i <= b <= v@.len(),
            out@ == v@.subrange(a as int, i as int),
        decreases b - i,
    {
        out.push(v[i]);
        i = i + 1;
        assert(out@ =~= v@.subrange(a as int, i as int));
    }
    out
}

/// The bounds of `trim(v[a..b])` within `v`.
pub fn trim_bounds(v: &Vec<char>, a: usize, b: usize) -> (r: (usize, usize))
    requires
        a <= b <= v@.len(),
    ensures
        a <= r.0 <= r.1 <= b,
        v@.subrange(r.0 as int, r.1 as int) == trim(v@.subrange(a as int, b as int)),
{
    let ghost s = v@.subrange(a as int, b as int);
    let mut lo = a;
    while lo < b && is_ws_char(v[lo])
        invariant
            a <= lo <= b <= v@.len(),
            forall|j: int| a <= j < lo ==> is_ws(#[trigger] v@[j]),
        decreases b - lo,
    {
        lo = lo + 1;
    }
    proof {
        lemma_lead_ws(s);
        let k = lead_ws(s) as int;
        if k < lo - a {
            assert(is_ws(v@[a + k]));
            assert(s[k] == v@[a + k]);
        } else if k > lo - a {
            assert(s[lo - a] == v@[lo as int]);
        }
        assert(trim_start(s) =~= v@.subrange(lo as int, b as int));
    }
    let mut hi = b;
    while hi > lo && is_ws_char(v[hi - 1])
        invariant
            a <= lo <= hi <= b <= v@.len(),
            forall|j: int| hi <= j < b ==> is_ws(#[trigger] v@[j]),
        decreases hi - lo,
    {
        hi = hi - 1;
    }
    proof {
        let t = v@.subrange(lo as int, b as int);
        lemma_trail_ws(t);
        let k = trail_ws(t) as int;
        if k < b - hi {
            assert(t[t.len() - k - 1] == v@[b - k - 1]);
            assert(is_ws(v@[b - k - 1]));
        } else if k > b - hi {
            assert(t[hi - lo - 1] == v@[hi - 1]);
        }
        assert(trim_end(t) =~= v@.subrange(lo as int, hi as int));
    }
    (lo, hi)
}

/// `trim(v[a..b])` as a new vector.
pub fn trim_chars(v: &Vec<char>, a: usize, b: usize) -> (r: Vec<char>)
    requires
        a <= b <= v@.len(),
    ensures
        r@ == trim(v@.subrange(a as int, b as int)),
{
    let (lo, hi) = trim_bounds(v, a, b);
    slice_chars(v, lo, hi)
}

// ---------------------------------------------------------------------------
// Phrases: text up to the next ',', '.', ';' or newline
// ---------------------------------------------------------------------------

/// A character that ends a phrase.
pub open spec fn is_phrase_end(c: char) -> bool {
    c == ',' || c == '.' || c == ';' || c == '\n'
}

/// Index of the first phrase end at or after `i`, or the length when there is none.
pub open spec fn phrase_end(s: Seq<char>, i: int) -> int
    decreases s.len() - i,
{
    if i < 0 || i >= s.len() {
        s.len() as int
    } else if is_phrase_end(s[i]) {
        i
    } else {
        phrase_end(s, i + 1)
    }
}

/// The phrase starting at `i` (what `split([',', '.', ';', '\n']).next()` gives on
/// the text from `i`), empty when `i` lies past the end.
pub open spec fn phrase_at(s: Seq<char>, i: int) -> Seq<char> {
    if 0 <= i <= s.len() {
        s.subrange(i, phrase_end(s, i))
    } else {
        Seq::empty()
    }
}

/// `phrase_end` lies between `i` and the length.
pub proof fn lemma_phrase_end(s: Seq<char>, i: int)
    requires
        0 <= i <= s.len(),
    ensures
        i <= phrase_end(s, i) <= s.len(),
    decreases s.len() - i,
{
    if i < s.len() && !is_phrase_end(s[i]) {
        lemma_phrase_end(s, i + 1);
    }
}

/// The trimmed phrase of `v` starting at `i`.
pub fn phrase_chars(v: &Vec<char>, i: usize) -> (r: Vec<char>)
    ensures
        r@ == trim(phrase_at(v@, i as int)),
{
    if i > v.len() {
        let r: Vec<char> = Vec::new();
        assert(r@ =~= trim(Seq::<char>::empty()));
        return r;
    }
    let mut j = i;
    while j < v.len() && !(v[j] == ',' || v[j] == '.' || v[j] == ';' || v[j] == '\n')
        invariant
            i <= j <= v@.len(),
            phrase_end(v@, j as int) == phrase_end(v@, i as int),
        decreases v@.len() - j,
    {
        j = j + 1;
    }
    trim_chars(v, i, j)
}

// ---------------------------------------------------------------------------
// Unsigned numbers
// ---------------------------------------------------------------------------

/// An ASCII decimal digit.
pub open spec fn is_digit(c: char) -> bool {
    '0' <= c && c <= '9'
}

/// Value of a string of decimal digits.
pub open spec fn digits_value(s: Seq<char>) -> nat
    decreases s.len(),
{
    if s.len() == 0 {
        0
    } else {
        digits_value(s.drop_last()) * 10 + ((s.last() as u32) - 48) as nat
    }
}

/// The digits after an optional leading '+'.
pub open spec fn unsigned_digits(s: Seq<char>) -> Seq<char> {
    if s.len() > 0 && s[0] == '+' {
        s.drop_first()
    } else {
        s
    }
}

/// What parsing `s` as an unsigned integer of at most `max` gives (`str::parse`):
/// an optional '+', then at least one digit and nothing else, within range.
pub open spec fn parse_unsigned(s: Seq<char>, max: nat) -> Option<nat> {
    let d = unsigned_digits(s);
    if d.len() > 0 && (forall|i: int| 0 <= i < d.len() ==> is_digit(#[trigger] d[i]))
        && digits_value(d) <= max {
        Some(digits_value(d))
    } else {
        None
    }
}

/// `str::parse::<u8>` on a character sequence.
pub open spec fn parse_u8_spec(s: Seq<char>) -> Option<u8> {
    match parse_unsigned(s, 255) {
        Some(n) => Some(n as u8),
        None => None,
    }
}

/// Parse `v[a..b]` as an unsigned integer of at most `max`.
pub fn parse_unsigned_chars(v: &Vec<char>, a: usize, b: usize, max: u64) -> (r: Option<u64>)
    requires
        a <= b <= v@.len(),
    ensures
        match r {
            Some(n) => parse_unsigned(v@.subrange(a as int, b as int), max as nat) == Some(n as nat),
            None => parse_unsigned(v@.subrange(a as int, b as int), max as nat) is None,
        },
{
    let ghost s = v@.subrange(a as int, b as int);
    let mut start = a;
    if a < b && v[a] == '+' {
        start = a + 1;
    }
    let ghost d = unsigned_digits(s);
    assert(d =~= v@.subrange(start as int, b as int));
    if start == b {
        return None;
    }
    let cap: u128 = (max as u128) + 1;
    let mut acc: u128 = 0;
    let mut i = start;
    while i < b
        invariant
            start <= i <= b <= v@.len(),
            d == v@.subrange(start as int, b as int),
            d == unsigned_digits(v@.subrange(a as int, b as int)),
            cap == max + 1,
            forall|j: int| start <= j < i ==> is_digit(#[trigger] v@[j]),
            acc == (if digits_value(v@.subrange(start as int, i as int)) < cap {
                digits_value(v@.subrange(start as int, i as int))
            } else {
                cap as nat
            }),
        decreases b - i,
    {
        let c = v[i];
        if !('0' <= c && c <= '9') {
            assert(!is_digit(d[i - start]));
            return None;
        }
        let dig: u128 = ((c as u32) - 48) as u128;
        let ghost prev = v@.subrange(start as int, i as int);
        let ghost next = v@.subrange(start as int, i + 1);
        assert(next.drop_last() =~= prev);
        assert(digits_value(next) == digits_value(prev) * 10 + dig);
        let step: u128 = acc * 10 + dig;
        acc = if step < cap { step } else { cap };
        i = i + 1;
    }
    assert(v@.subrange(start as int, b as int) =~= d);
    if acc < cap {
        Some(acc as u64)
    } else {
        None
    }
}

/// `str::parse::<u8>`.
pub fn parse_u8(s: &str) -> (r: Option<u8>)
    ensures
        r == parse_u8_spec(s@),
{
    let v = crate::text::chars_of(s);
    assert(v@.subrange(0, v@.len() as int) =~= s@);
    match parse_unsigned_chars(&v, 0, v.len(), 255) {
        Some(n) => Some(n as u8),
        None => None,
    }
}

// ---------------------------------------------------------------------------
// Words (`split_whitespace`)
// ---------------------------------------------------------------------------

/// Index of the first whitespace character at or after `i`, or the length.
pub open spec fn word_end(s: Seq<char>, i: int) -> int
    decreases s.len() - i,
{
    if i < 0 || i >= s.len() {
        s.len() as int
    } else if is_ws(s[i]) {
        i
    } else {
        word_end(s, i + 1)
    }
}

/// A word starting at a non-whitespace character ends after it.
pub proof fn lemma_word_end(s: Seq<char>, i: int)
    requires
        0 <= i <= s.len(),
    ensures
        i <= word_end(s, i) <= s.len(),
        i < s.len() && !is_ws(s[i]) ==> i < word_end(s, i),
        forall|j: int| i <= j < word_end(s, i) ==> !is_ws(#[trigger] s[j]),
        word_end(s, i) < s.len() ==> is_ws(s[word_end(s, i)]),
    decreases s.len() - i,
{
    if i < s.len() && !is_ws(s[i]) {
        lemma_word_end(s, i + 1);
    }
}

/// The words of `s` from index `i` on: maximal runs of non-whitespace characters.
pub open spec fn words_from(s: Seq<char>, i: int) -> Seq<Seq<char>>
    decreases s.len() - i,
{
    if i < 0 || i >= s.len() {
        Seq::empty()
    } else if is_ws(s[i]) {
        words_from(s, i + 1)
    } else {
        proof {
            lemma_word_end(s, i);
        }
        seq![s.subrange(i, word_end(s, i))] + words_from(s, word_end(s, i))
    }
}

/// What `split_whitespace` yields.
pub open spec fn words(s: Seq<char>) -> Seq<Seq<char>> {
    words_from(s, 0)
}

/// Bounds of the next word of `v` at or after `i`, if any.
pub fn next_word(v: &Vec<char>, i: usize) -> (r: Option<(usize, usize)>)
    requires
        i <= v@.len(),
    ensures
        match r {
            Some((a, b)) => i <= a < b <= v@.len() && words_from(v@, i as int) == seq![
                v@.subrange(a as int, b as int),
            ] + words_from(v@, b as int),
            None => words_from(v@, i as int) == Seq::<Seq<char>>::empty(),
        },
{
    let mut a = i;
    while a < v.len() && is_ws_char(v[a])
        invariant
            i <= a <= v@.len(),
            words_from(v@, a as int) == words_from(v@, i as int),
        decreases v@.len() - a,
    {
        a = a + 1;
    }
    if a == v.len() {
        return None;
    }
    let mut b = a;
    while b < v.len() && !is_ws_char(v[b])
        invariant
            a <= b <= v@.len(),
            word_end(v@, b as int) == word_end(v@, a as int),
        decreases v@.len() - b,
    {
        b = b + 1;
    }
    proof {
        lemma_word_end(v@, a as int);
    }
    Some((a, b))
}


// ---------------------------------------------------------------------------
// Pattern search and repeated stripping
// ---------------------------------------------------------------------------

/// Views of a sequence of character vectors.
pub open spec fn char_seqs(v: Seq<Vec<char>>) -> Seq<Seq<char>> {
    v.map_values(|x: Vec<char>| x@)
}

/// Greatest index `j <= i` at which `p` occurs in `s`, if any.
pub open spec fn last_from(s: Seq<char>, p: Seq<char>, i: int) -> Option<int>
    decreases i + 1,
{
    if i < 0 {
        None
    } else if occurs_at(s, p, i) {
        Some(i)
    } else {
        last_from(s, p, i - 1)
    }
}

/// `str::rfind`: the last position at which `p` occurs in `s`.
pub open spec fn last_occurrence(s: Seq<char>, p: Seq<char>) -> Option<int> {
    last_from(s, p, s.len() - p.len())
}

/// `str::rfind` on character vectors.
pub fn rfind_chars(s: &Vec<char>, p: &Vec<char>) -> (r: Option<usize>)
    ensures
        match r {
            Some(i) => last_occurrence(s@, p@) == Some(i as int) && occurs_at(s@, p@, i as int),
            None => last_occurrence(s@, p@) is None,
        },
{
    if p.len() > s.len() {
        return None;
    }
    let mut i = s.len() - p.len();
    loop
        invariant
            i + p@.len() <= s@.len(),
            last_from(s@, p@, i as int) == last_occurrence(s@, p@),
        decreases i,
    {
        if occurs_at_exec(s, p, i) {
            return Some(i);
        }
        if i == 0 {
            assert(last_from(s@, p@, -1) is None);
            return None;
        }
        i = i - 1;
    }
}

/// `str::trim_end_matches` with a string pattern: strip `p` from the end while it is there.
pub open spec fn strip_suffixes(s: Seq<char>, p: Seq<char>) -> Seq<char>
    decreases s.len(),
{
    if p.len() > 0 && has_suffix(s, p) {
        strip_suffixes(s.subrange(0, s.len() - p.len()), p)
    } else {
        s
    }
}

/// `str::trim_start_matches` with a string pattern: strip `p` from the start while it is there.
pub open spec fn strip_prefixes(s: Seq<char>, p: Seq<char>) -> Seq<char>
    decreases s.len(),
{
    if p.len() > 0 && has_prefix(s, p) {
        strip_prefixes(s.subrange(p.len() as int, s.len() as int), p)
    } else {
        s
    }
}

/// `trim_end_matches` on a character vector.
pub fn strip_suffixes_chars(v: &Vec<char>, p: &Vec<char>) -> (r: Vec<char>)
    ensures
        r@ == strip_suffixes(v@, p@),
{
    let mut e = v.len();
    assert(v@.subrange(0, e as int) =~= v@);
    while p.len() > 0 && p.len() <= e && occurs_at_exec(v, p, e - p.len())
        invariant
            e <= v@.len(),
            strip_suffixes(v@.subrange(0, e as int), p@) == strip_suffixes(v@, p@),
        decreases e,
    {
        let ghost cur = v@.subrange(0, e as int);
        assert(cur.subrange(cur.len() - p@.len(), cur.len() as int) =~= v@.subrange(
            e - p@.len(),
            e as int,
        ));
        assert(cur.subrange(0, cur.len() - p@.len()) =~= v@.subrange(0, e - p@.len()));
        e = e - p.len();
    }
    proof {
        let cur = v@.subrange(0, e as int);
        if p@.len() > 0 && has_suffix(cur, p@) {
            assert(cur.subrange(cur.len() - p@.len(), cur.len() as int) =~= v@.subrange(
                e - p@.len(),
                e as int,
            ));
        }
    }
    slice_chars(v, 0, e)
}

/// `trim_start_matches` on a character vector.
pub fn strip_prefixes_chars(v: &Vec<char>, p: &Vec<char>) -> (r: Vec<char>)
    ensures
        r@ == strip_prefixes(v@, p@),
{
    let mut b: usize = 0;
    assert(v@.subrange(0, v@.len() as int) =~= v@);
    while p.len() > 0 && b <= v.len() && p.len() <= v.len() - b && occurs_at_exec(v, p, b)
        invariant
            b <= v@.len(),
            strip_prefixes(v@.subrange(b as int, v@.len() as int), p@) == strip_prefixes(v@, p@),
        decreases v@.len() - b,
    {
        let ghost cur = v@.subrange(b as int, v@.len() as int);
        assert(cur.subrange(0, p@.len() as int) =~= v@.subrange(b as int, b + p@.len()));
        assert(cur.subrange(p@.len() as int, cur.len() as int) =~= v@.subrange(
            b + p@.len(),
            v@.len() as int,
        ));
        b = b + p.len();
    }
    proof {
        let cur = v@.subrange(b as int, v@.len() as int);
        if p@.len() > 0 && has_prefix(cur, p@) {
            assert(cur.subrange(0, p@.len() as int) =~= v@.subrange(b as int, b + p@.len()));
        }
    }
    slice_chars(v, b, v.len())
}

/// A character that ends a clause for `rsplit(['.', ',', ';'])`.
pub open spec fn is_clause_end(c: char) -> bool {
    c == '.' || c == ',' || c == ';'
}

/// Start of the clause that ends at `i`: just after the last clause end before `i`.
pub open spec fn clause_start(s: Seq<char>, i: int) -> int
    decreases i,
{
    if i <= 0 || i > s.len() {
        0
    } else if is_clause_end(s[i - 1]) {
        i
    } else {
        clause_start(s, i - 1)
    }
}

/// The last clause of `s` (`rsplit(['.', ',', ';']).next()`).
pub open spec fn last_clause(s: Seq<char>) -> Seq<char> {
    s.subrange(clause_start(s, s.len() as int), s.len() as int)
}

/// `clause_start` lies within the sequence.
pub proof fn lemma_clause_start(s: Seq<char>, i: int)
    requires
        0 <= i <= s.len(),
    ensures
        0 <= clause_start(s, i) <= i,
    decreases i,
{
    if i > 0 && !is_clause_end(s[i - 1]) {
        lemma_clause_start(s, i - 1);
    }
}

/// The last clause of a character vector.
pub fn last_clause_chars(v: &Vec<char>) -> (r: Vec<char>)
    ensures
        r@ == last_clause(v@),
{
    let mut i = v.len();
    while i > 0 && !(v[i - 1] == '.' || v[i - 1] == ',' || v[i - 1] == ';')
        invariant
            i <= v@.len(),
            clause_start(v@, i as int) == clause_start(v@, v@.len() as int),
        decreases i,
    {
        i = i - 1;
    }
    slice_chars(v, i, v.len())
}

} // verus!
