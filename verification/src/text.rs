//! Character-level text helpers with specifications over `Seq<char>`.
//!
//! Strings are reasoned about through their views (`s@: Seq<char>`).
use vstd::prelude::*;
use vstd::string::StrSliceExecFns;
use vstd::string::StringExecFns;

verus! {

// ---------------------------------------------------------------------------
// Specifications
// ---------------------------------------------------------------------------

/// ASCII lower-casing of one character: 'A'..='Z' map to 'a'..='z'.
pub open spec fn ascii_lower_char(c: char) -> char {
    if 'A' <= c && c <= 'Z' {
        ((c as u32) + 32) as char
    } else {
        c
    }
}

/// ASCII lower-casing of a character sequence.
pub open spec fn ascii_lower(s: Seq<char>) -> Seq<char> {
    Seq::new(s.len(), |i: int| ascii_lower_char(s[i]))
}

/// ASCII upper-casing of one character: 'a'..='z' map to 'A'..='Z'.
pub open spec fn ascii_upper_char(c: char) -> char {
    if 'a' <= c && c <= 'z' {
        ((c as u32) - 32) as char
    } else {
        c
    }
}

/// ASCII upper-casing of a character sequence.
pub open spec fn ascii_upper(s: Seq<char>) -> Seq<char> {
    Seq::new(s.len(), |i: int| ascii_upper_char(s[i]))
}

/// Every character is ASCII.
pub open spec fn all_ascii(s: Seq<char>) -> bool {
    forall|i: int| 0 <= i < s.len() ==> (s[i] as u32) < 128
}

/// ASCII case-insensitive equality.
pub open spec fn eq_ci(a: Seq<char>, b: Seq<char>) -> bool {
    ascii_lower(a) == ascii_lower(b)
}

/// The result of the standard library's Unicode lower-casing of a string.
pub uninterp spec fn lowercase(s: Seq<char>) -> Seq<char>;

/// The result of the standard library's Unicode upper-casing of a string.
pub uninterp spec fn uppercase(s: Seq<char>) -> Seq<char>;

/// The number of bytes of a character in UTF-8.
pub open spec fn utf8_len(c: char) -> int {
    if (c as u32) < 0x80 {
        1
    } else if (c as u32) < 0x800 {
        2
    } else if (c as u32) < 0x10000 {
        3
    } else {
        4
    }
}

/// The characters of `s` whose UTF-8 encoding makes up exactly its first `n` bytes,
/// when byte `n` is a character boundary within `s`.
pub open spec fn byte_prefix(s: Seq<char>, n: int) -> Option<Seq<char>>
    decreases s.len(),
{
    if n == 0 {
        Some(Seq::empty())
    } else if n < 0 || s.len() == 0 || utf8_len(s[0]) > n {
        None
    } else {
        match byte_prefix(s.drop_first(), n - utf8_len(s[0])) {
            Some(p) => Some(seq![s[0]] + p),
            None => None,
        }
    }
}

/// The number of bytes of a character sequence in UTF-8.
pub open spec fn utf8_size(s: Seq<char>) -> int
    decreases s.len(),
{
    if s.len() == 0 {
        0
    } else {
        utf8_size(s.drop_last()) + utf8_len(s.last())
    }
}

/// The number of characters of `s` whose UTF-8 encoding makes up exactly its first
/// `n` bytes, when byte `n` is a character boundary within `s`.
pub open spec fn boundary_index(s: Seq<char>, n: int) -> Option<int>
    decreases s.len(),
{
    if n == 0 {
        Some(0)
    } else if n < 0 || s.len() == 0 || utf8_len(s[0]) > n {
        None
    } else {
        match boundary_index(s.drop_first(), n - utf8_len(s[0])) {
            Some(k) => Some(k + 1),
            None => None,
        }
    }
}

/// The UTF-8 size of a concatenation is the sum of the sizes.
pub proof fn lemma_utf8_size_concat(a: Seq<char>, b: Seq<char>)
    ensures
        utf8_size(a + b) == utf8_size(a) + utf8_size(b),
    decreases b.len(),
{
    if b.len() > 0 {
        assert((a + b).drop_last() =~= a + b.drop_last());
        assert((a + b).last() == b.last());
        lemma_utf8_size_concat(a, b.drop_last());
    } else {
        assert(a + b =~= a);
    }
}

/// A boundary index lies within the sequence, and a later byte has a later (or the
/// same) boundary index.
pub proof fn lemma_boundary_index_mono(s: Seq<char>, n1: int, n2: int)
    requires
        n1 <= n2,
        boundary_index(s, n1) is Some,
        boundary_index(s, n2) is Some,
    ensures
        0 <= boundary_index(s, n1)->0 <= boundary_index(s, n2)->0 <= s.len(),
    decreases s.len(),
{
    if n1 == 0 {
        lemma_boundary_index_bound(s, n2);
    } else {
        lemma_boundary_index_mono(s.drop_first(), n1 - utf8_len(s[0]), n2 - utf8_len(s[0]));
    }
}

/// A boundary index lies within the sequence.
pub proof fn lemma_boundary_index_bound(s: Seq<char>, n: int)
    requires
        boundary_index(s, n) is Some,
    ensures
        0 <= boundary_index(s, n)->0 <= s.len(),
    decreases s.len(),
{
    if n != 0 {
        lemma_boundary_index_bound(s.drop_first(), n - utf8_len(s[0]));
    }
}

/// The UTF-8 size of a character.
pub fn utf8_len_exec(c: char) -> (r: u128)
    ensures
        r == utf8_len(c),
{
    let v: u32 = c as u32;
    if v < 0x80 {
        1
    } else if v < 0x800 {
        2
    } else if v < 0x10000 {
        3
    } else {
        4
    }
}

/// The UTF-8 size of the first `k` characters of `v`.
pub fn prefix_bytes(v: &Vec<char>, k: usize) -> (r: u128)
    requires
        k <= v@.len(),
    ensures
        r == utf8_size(v@.take(k as int)),
        r <= 4 * k,
{
    let mut acc: u128 = 0;
    let mut i: usize = 0;
    while i < k
        invariant
            i <= k <= v@.len(),
            acc == utf8_size(v@.take(i as int)),
            acc <= 4 * i,
        decreases k - i,
    {
        let l = utf8_len_exec(v[i]);
        assert(v@.take(i + 1).drop_last() =~= v@.take(i as int));
        acc = acc + l;
        i = i + 1;
    }
    acc
}

/// The character index at byte `b` of `v`'s UTF-8 encoding, when `b` is a
/// character boundary within it.
pub fn char_index_at_byte(v: &Vec<char>, b: u128) -> (r: Option<usize>)
    ensures
        match r {
            Some(k) => boundary_index(v@, b as int) == Some(k as int),
            None => boundary_index(v@, b as int) is None,
        },
{
    let mut acc: u128 = 0;
    let mut i: usize = 0;
    assert(v@.skip(0) =~= v@);
    while i < v.len() && acc < b
        invariant
            i <= v@.len(),
            acc <= b,
            boundary_index(v@, b as int) == match boundary_index(v@.skip(i as int), b - acc) {
                Some(k) => Some(k + i),
                None => None::<int>,
            },
        decreases v@.len() - i,
    {
        let l = utf8_len_exec(v[i]);
        let ghost t = v@.skip(i as int);
        assert(t[0] == v@[i as int]);
        if l > b - acc {
            return None;
        }
        assert(t.drop_first() =~= v@.skip(i + 1));
        acc = acc + l;
        i = i + 1;
    }
    if acc == b {
        Some(i)
    } else {
        assert(v@.skip(i as int).len() == 0);
        None
    }
}

/// What `str::get(..3)` gives: the text of the first three bytes, when they end on
/// a character boundary.
pub open spec fn first_bytes3(s: Seq<char>) -> Option<Seq<char>> {
    byte_prefix(s, 3)
}

/// For ASCII text the first three bytes are the first three characters, when there
/// are three.
pub proof fn lemma_first_bytes3_ascii(s: Seq<char>)
    requires
        all_ascii(s),
    ensures
        first_bytes3(s) == (if s.len() >= 3 {
            Some(s.take(3))
        } else {
            None::<Seq<char>>
        }),
{
    reveal_with_fuel(byte_prefix, 4);
    if s.len() >= 1 {
        assert(s[0] == s[0] && (s[0] as u32) < 128);
    }
    if s.len() >= 2 {
        assert((s[1] as u32) < 128);
        assert(s.drop_first()[0] == s[1]);
    }
    if s.len() >= 3 {
        assert((s[2] as u32) < 128);
        assert(s.drop_first().drop_first()[0] == s[2]);
        assert(seq![s[0]] + (seq![s[1]] + (seq![s[2]] + Seq::<char>::empty())) =~= s.take(3));
    }
}

/// `p` is a prefix of `s`.
pub open spec fn has_prefix(s: Seq<char>, p: Seq<char>) -> bool {
    p.len() <= s.len() && s.subrange(0, p.len() as int) == p
}

/// `p` is a suffix of `s`.
pub open spec fn has_suffix(s: Seq<char>, p: Seq<char>) -> bool {
    p.len() <= s.len() && s.subrange(s.len() - p.len(), s.len() as int) == p
}

/// `p` occurs in `s` starting at index `i`.
pub open spec fn occurs_at(s: Seq<char>, p: Seq<char>, i: int) -> bool {
    0 <= i && i + p.len() <= s.len() && s.subrange(i, i + p.len()) == p
}

/// `p` occurs somewhere in `s`.
pub open spec fn has_infix(s: Seq<char>, p: Seq<char>) -> bool {
    exists|i: int| occurs_at(s, p, i)
}

/// The Unicode `White_Space` property, as used by `char::is_whitespace`.
pub open spec fn is_ws(c: char) -> bool {
    let u = c as u32;
    (0x9 <= u && u <= 0xD) || u == 0x20 || u == 0x85 || u == 0xA0 || u == 0x1680 || (0x2000 <= u
        && u <= 0x200A) || u == 0x2028 || u == 0x2029 || u == 0x202F || u == 0x205F || u == 0x3000
}

/// Number of leading whitespace characters of `s`.
pub open spec fn lead_ws(s: Seq<char>) -> nat
    decreases s.len(),
{
    if s.len() > 0 && is_ws(s[0]) {
        1 + lead_ws(s.drop_first())
    } else {
        0
    }
}

/// Number of trailing whitespace characters of `s`.
pub open spec fn trail_ws(s: Seq<char>) -> nat
    decreases s.len(),
{
    if s.len() > 0 && is_ws(s.last()) {
        1 + trail_ws(s.drop_last())
    } else {
        0
    }
}

/// `s` with leading whitespace removed.
pub open spec fn trim_start(s: Seq<char>) -> Seq<char> {
    s.subrange(lead_ws(s) as int, s.len() as int)
}

/// `s` with trailing whitespace removed.
pub open spec fn trim_end(s: Seq<char>) -> Seq<char> {
    s.subrange(0, s.len() - trail_ws(s))
}

/// `s` with leading and trailing whitespace removed.
pub open spec fn trim(s: Seq<char>) -> Seq<char> {
    trim_end(trim_start(s))
}

/// Decimal digits of a natural number, most significant first.
pub open spec fn decimal(n: nat) -> Seq<char>
    decreases n,
{
    if n < 10 {
        seq![digit_char(n)]
    } else {
        decimal(n / 10).push(digit_char(n % 10))
    }
}

/// The character of a single decimal digit.
pub open spec fn digit_char(d: nat) -> char {
    (d + 48) as char
}

/// Decimal rendering of a signed integer, with a leading '-' for negatives.
pub open spec fn signed_decimal(n: int) -> Seq<char> {
    if n < 0 {
        seq!['-'] + decimal((-n) as nat)
    } else {
        decimal(n as nat)
    }
}

/// View of an optional string.
pub open spec fn opt_str(o: Option<String>) -> Option<Seq<char>> {
    match o {
        Some(s) => Some(s@),
        None => None,
    }
}

/// Views of a sequence of strings.
pub open spec fn strs(v: Seq<String>) -> Seq<Seq<char>> {
    v.map_values(|s: String| s@)
}

// ---------------------------------------------------------------------------
// Trusted standard-library calls
// ---------------------------------------------------------------------------

/// Calls `str::to_lowercase`. Its Unicode lower-casing is named by `lowercase`;
/// for ASCII input the documented mapping is the ASCII one ('A'..='Z' to
/// 'a'..='z', everything else unchanged). Nothing more is claimed for
/// non-ASCII input.
#[verifier::external_body]
pub(crate) fn to_lowercase(s: &str) -> (r: String)
    ensures
        r@ == lowercase(s@),
        all_ascii(s@) ==> r@ == ascii_lower(s@),
{
    s.to_lowercase()
}

/// Calls `str::to_uppercase`. Its Unicode upper-casing is named by `uppercase`;
/// for ASCII input the documented mapping is the ASCII one ('a'..='z' to
/// 'A'..='Z', everything else unchanged). Nothing more is claimed for
/// non-ASCII input.
#[verifier::external_body]
pub(crate) fn to_uppercase(s: &str) -> (r: String)
    ensures
        r@ == uppercase(s@),
        all_ascii(s@) ==> r@ == ascii_upper(s@),
{
    s.to_uppercase()
}

/// The UTF-8 size of a character is the length of its encoding.
proof fn lemma_encode_scalar_len(c: char)
    ensures
        vstd::utf8::encode_scalar(c as u32).len() == utf8_len(c),
{
    vstd::utf8::char_is_scalar(c);
}

/// The characters that make up the first `n` bytes are there exactly when byte `n`
/// is a character boundary of the encoding, and their encoding is those bytes.
proof fn lemma_byte_prefix_encode(s: Seq<char>, n: int)
    ensures
        (byte_prefix(s, n) is Some) == vstd::utf8::is_char_boundary(vstd::utf8::encode_utf8(s), n),
        byte_prefix(s, n) is Some ==> vstd::utf8::encode_utf8(byte_prefix(s, n)->0)
            == vstd::utf8::encode_utf8(s).subrange(0, n),
    decreases s.len(),
{
    broadcast use vstd::utf8::encode_utf8_valid_utf8;

    let bytes = vstd::utf8::encode_utf8(s);
    if n == 0 {
        assert(bytes.subrange(0, 0) =~= Seq::<u8>::empty());
    } else if s.len() == 0 {
    } else {
        let c = s[0];
        let rest = s.drop_first();
        lemma_encode_scalar_len(c);
        vstd::utf8::encode_utf8_first_scalar(s);
        let l = utf8_len(c);
        assert(vstd::utf8::pop_first_scalar(bytes) =~= vstd::utf8::encode_utf8(rest));
        lemma_byte_prefix_encode(rest, n - l);
        if l <= n && byte_prefix(rest, n - l) is Some {
            let p = byte_prefix(rest, n - l)->0;
            let q = seq![c] + p;
            assert(q[0] == c);
            assert(q.drop_first() =~= p);
            lemma_encode_scalar_len(c);
            let rb = vstd::utf8::encode_utf8(rest);
            assert(rb.subrange(0, n - l).len() == n - l);
            assert(vstd::utf8::encode_utf8(q) =~= bytes.subrange(0, n));
        }
    }
}

/// `str::get(..3)`, computed with the standard library's specified `is_char_boundary`
/// and `split_at`: the text of the first three bytes of the UTF-8 encoding, or nothing
/// when the string is shorter or byte 3 is inside a character.
pub(crate) fn first_three_bytes(s: &str) -> (r: Option<String>)
    ensures
        opt_str(r) == first_bytes3(s@),
{
    proof {
        lemma_byte_prefix_encode(s@, 3);
    }
    if s.is_char_boundary(3) {
        let (a, _rest) = s.split_at(3);
        proof {
            vstd::utf8::encode_utf8_decode_utf8(a@);
            vstd::utf8::encode_utf8_decode_utf8(byte_prefix(s@, 3)->0);
        }
        Some(a.to_owned())
    } else {
        None
    }
}

/// Calls `String::push`, which appends one character.
#[verifier::external_body]
pub(crate) fn push_char(s: &mut String, c: char)
    ensures
        final(s)@ == old(s)@.push(c),
{
    s.push(c)
}

// ---------------------------------------------------------------------------
// Verified helpers
// ---------------------------------------------------------------------------

/// A fresh `String` with the given contents.
pub fn owned(s: &str) -> (r: String)
    ensures
        r@ == s@,
{
    String::from_str(s)
}

/// A copy of an optional string.
pub fn clone_opt(o: &Option<String>) -> (r: Option<String>)
    ensures
        opt_str(r) == opt_str(*o),
{
    match o {
        Some(s) => Some(s.clone()),
        None => None,
    }
}

/// A copy of a list of strings.
pub fn clone_strings(v: &Vec<String>) -> (r: Vec<String>)
    ensures
        strs(r@) == strs(v@),
{
    let mut out: Vec<String> = Vec::new();
    let mut i: usize = 0;
    while i < v.len()
        invariant
            i <= v.len(),
            out@.len() == i,
            forall|j: int| 0 <= j < i ==> (#[trigger] out@[j])@ == v@[j]@,
        decreases v.len() - i,
    {
        let c = v[i].clone();
        out.push(c);
        i = i + 1;
    }
    assert(strs(out@) =~= strs(v@));
    out
}

/// Decimal rendering of an unsigned number.
pub fn decimal_string(n: u64) -> (r: String)
    ensures
        r@ == decimal(n as nat),
    decreases n,
{
    let d: u8 = (n % 10) as u8;
    let c: char = (d + 48) as char;
    if n < 10 {
        let mut s = String::new();
        push_char(&mut s, c);
        assert(s@ =~= seq![c]);
        s
    } else {
        let mut s = decimal_string(n / 10);
        push_char(&mut s, c);
        s
    }
}

/// Decimal rendering of a signed number.
pub fn signed_string(n: i32) -> (r: String)
    ensures
        r@ == signed_decimal(n as int),
{
    if n < 0 {
        let m: i64 = -(n as i64);
        let mut s = String::new();
        push_char(&mut s, '-');
        let d = decimal_string(m as u64);
        s.append(d.as_str());
        assert(s@ =~= seq!['-'] + decimal((-n) as nat));
        s
    } else {
        decimal_string(n as u64)
    }
}

/// The characters of `s` as a vector.
pub fn chars_of(s: &str) -> (r: Vec<char>)
    ensures
        r@ == s@,
{
    let n = s.unicode_len();
    let mut v: Vec<char> = Vec::new();
    let mut i: usize = 0;
    while i < n
        invariant
            n == s@.len(),
            i <= n,
            v@ == s@.subrange(0, i as int),
        decreases n - i,
    {
        let c = s.get_char(i);
        v.push(c);
        i = i + 1;
        assert(v@ =~= s@.subrange(0, i as int));
    }
    assert(v@ =~= s@);
    v
}

/// A `String` holding the characters of `v`.
pub fn string_of(v: &Vec<char>) -> (r: String)
    ensures
        r@ == v@,
{
    let mut s = String::new();
    let mut i: usize = 0;
    while i < v.len()
        invariant
            i <= v.len(),
            s@ == v@.subrange(0, i as int),
        decreases v.len() - i,
    {
        push_char(&mut s, v[i]);
        i = i + 1;
        assert(s@ =~= v@.subrange(0, i as int));
    }
    assert(s@ =~= v@);
    s
}

/// Character sequences compared element by element.
pub fn chars_eq(a: &Vec<char>, b: &Vec<char>) -> (r: bool)
    ensures
        r == (a@ == b@),
{
    if a.len() != b.len() {
        return false;
    }
    let mut i: usize = 0;
    while i < a.len()
        invariant
            a.len() == b.len(),
            i <= a.len(),
            forall|j: int| 0 <= j < i ==> a@[j] == b@[j],
        decreases a.len() - i,
    {
        if a[i] != b[i] {
            return false;
        }
        i = i + 1;
    }
    assert(a@ =~= b@);
    true
}

/// String equality by contents.
pub fn str_eq(a: &str, b: &str) -> (r: bool)
    ensures
        r == (a@ == b@),
{
    let va = chars_of(a);
    let vb = chars_of(b);
    chars_eq(&va, &vb)
}

/// ASCII lower-casing of one character.
pub fn lower_char(c: char) -> (r: char)
    ensures
        r == ascii_lower_char(c),
{
    if 'A' <= c && c <= 'Z' {
        let u: u8 = (c as u8) + 32;
        u as char
    } else {
        c
    }
}

/// `str::eq_ignore_ascii_case`: equality after ASCII lower-casing.
pub fn eq_ignore_ascii_case(a: &str, b: &str) -> (r: bool)
    ensures
        r == eq_ci(a@, b@),
{
    let va = chars_of(a);
    let vb = chars_of(b);
    if va.len() != vb.len() {
        assert(ascii_lower(a@).len() != ascii_lower(b@).len());
        return false;
    }
    let mut i: usize = 0;
    while i < va.len()
        invariant
            va@ == a@,
            vb@ == b@,
            va.len() == vb.len(),
            i <= va.len(),
            forall|j: int| 0 <= j < i ==> ascii_lower_char(a@[j]) == ascii_lower_char(b@[j]),
        decreases va.len() - i,
    {
        if lower_char(va[i]) != lower_char(vb[i]) {
            assert(ascii_lower(a@)[i as int] != ascii_lower(b@)[i as int]);
            return false;
        }
        i = i + 1;
    }
    assert(ascii_lower(a@) =~= ascii_lower(b@));
    true
}

/// Some string of `v` equals `name` up to ASCII case.
pub open spec fn any_eq_ci(v: Seq<Seq<char>>, name: Seq<char>) -> bool {
    exists|j: int| 0 <= j < v.len() && eq_ci(#[trigger] v[j], name)
}

/// Whether some string of `v` equals `name` up to ASCII case.
pub fn contains_ci(v: &Vec<String>, name: &str) -> (r: bool)
    ensures
        r == any_eq_ci(strs(v@), name@),
{
    let ghost sv = strs(v@);
    let mut i: usize = 0;
    while i < v.len()
        invariant
            i <= v.len(),
            sv == strs(v@),
            forall|j: int| 0 <= j < i ==> !eq_ci(#[trigger] sv[j], name@),
        decreases v.len() - i,
    {
        if eq_ignore_ascii_case(v[i].as_str(), name) {
            assert(eq_ci(sv[i as int], name@));
            return true;
        }
        i = i + 1;
    }
    false
}

/// Does `p` occur in `s` at position `i`?
pub fn occurs_at_exec(s: &Vec<char>, p: &Vec<char>, i: usize) -> (r: bool)
    ensures
        r == occurs_at(s@, p@, i as int),
{
    if i > s.len() || p.len() > s.len() - i {
        return false;
    }
    let mut j: usize = 0;
    while j < p.len()
        invariant
            i + p.len() <= s.len(),
            j <= p.len(),
            forall|k: int| 0 <= k < j ==> s@[i + k] == p@[k],
        decreases p.len() - j,
    {
        if s[i + j] != p[j] {
            assert(s@.subrange(i as int, i + p.len())[j as int] != p@[j as int]);
            return false;
        }
        j = j + 1;
    }
    assert(s@.subrange(i as int, i + p.len()) =~= p@);
    true
}

/// `str::starts_with` for a string pattern.
pub fn starts_with(s: &str, p: &str) -> (r: bool)
    ensures
        r == has_prefix(s@, p@),
{
    let vs = chars_of(s);
    let vp = chars_of(p);
    occurs_at_exec(&vs, &vp, 0)
}

/// `str::ends_with` for a string pattern.
pub fn ends_with(s: &str, p: &str) -> (r: bool)
    ensures
        r == has_suffix(s@, p@),
{
    let vs = chars_of(s);
    let vp = chars_of(p);
    if vp.len() > vs.len() {
        return false;
    }
    occurs_at_exec(&vs, &vp, vs.len() - vp.len())
}

/// First position at or after `from` where `p` occurs in `s`.
pub fn find_from(s: &Vec<char>, p: &Vec<char>, from: usize) -> (r: Option<usize>)
    ensures
        match r {
            Some(i) => from <= i && occurs_at(s@, p@, i as int) && forall|k: int|
                from <= k < i ==> !occurs_at(s@, p@, k),
            None => forall|k: int| from <= k ==> !occurs_at(s@, p@, k),
        },
{
    if p.len() > s.len() || from > s.len() - p.len() {
        return None;
    }
    let last = s.len() - p.len();
    let mut i = from;
    loop
        invariant
            from <= i <= last,
            last + p.len() == s.len(),
            forall|k: int| from <= k < i ==> !occurs_at(s@, p@, k),
        decreases last - i,
    {
        if occurs_at_exec(s, p, i) {
            return Some(i);
        }
        if i == last {
            return None;
        }
        i = i + 1;
    }
}

/// `str::contains` for a string pattern.
pub fn contains(s: &str, p: &str) -> (r: bool)
    ensures
        r == has_infix(s@, p@),
{
    let vs = chars_of(s);
    let vp = chars_of(p);
    match find_from(&vs, &vp, 0) {
        Some(_) => true,
        None => false,
    }
}

} // verus!
