//! Proficiency ranks named in text, and proficiency advances by level.
use vstd::prelude::*;
use crate::build::mechanics::{ProficiencyGrant, grants_view};
use crate::document::{Document, field_str};
use crate::model::proficiencies::Rank;
use crate::scan::{
    char_seqs, last_clause, last_clause_chars, last_occurrence, phrase_at, phrase_chars,
    rfind_chars, slice_chars, strip_prefixes, strip_prefixes_chars, strip_suffixes,
    strip_suffixes_chars, trim_chars,
};
use crate::text::{
    all_ascii, ascii_lower, boundary_index, char_index_at_byte, chars_of, lemma_boundary_index_mono,
    lemma_utf8_size_concat, lowercase,
    occurs_at, occurs_at_exec, prefix_bytes, str_eq, string_of, to_lowercase, trim, utf8_len_exec, utf8_size,
};

verus! {

/// A proficiency rank-up at a specific level.
#[derive(Debug, Clone, PartialEq, Eq)]
pub struct ProficiencyAdvance {
    pub level: u8,
    pub target: String,
    pub rank: Rank,
}

impl View for ProficiencyAdvance {
    type V = (u8, Seq<char>, Rank);

    open spec fn view(&self) -> (u8, Seq<char>, Rank) {
        (self.level, self.target@, self.rank)
    }
}

/// Views of a list of advances.
pub open spec fn advances_view(v: Seq<ProficiencyAdvance>) -> Seq<(u8, Seq<char>, Rank)> {
    v.map_values(|a: ProficiencyAdvance| a@)
}

/// The rank named by an already lower-cased word.
pub open spec fn rank_from_lower(l: Seq<char>) -> Option<Rank> {
    if l == "trained"@ {
        Some(Rank::Trained)
    } else if l == "expert"@ {
        Some(Rank::Expert)
    } else if l == "master"@ {
        Some(Rank::Master)
    } else if l == "legendary"@ {
        Some(Rank::Legendary)
    } else {
        None
    }
}

/// Parse an already lower-cased rank word.
pub fn parse_rank_lower(l: &str) -> (r: Option<Rank>)
    ensures
        r == rank_from_lower(l@),
{
    if str_eq(l, "trained") {
        Some(Rank::Trained)
    } else if str_eq(l, "expert") {
        Some(Rank::Expert)
    } else if str_eq(l, "master") {
        Some(Rank::Master)
    } else if str_eq(l, "legendary") {
        Some(Rank::Legendary)
    } else {
        None
    }
}

/// Parse a rank string ("trained", "expert", etc.) into a `Rank`, ignoring case.
pub fn parse_rank(s: &str) -> (r: Option<Rank>)
    ensures
        r == rank_from_lower(lowercase(s@)),
        all_ascii(s@) ==> r == rank_from_lower(ascii_lower(s@)),
{
    let l = to_lowercase(s);
    parse_rank_lower(l.as_str())
}


/// The rank named by a document's string field `key`, ignoring case.
pub open spec fn rank_field(doc: Document, key: Seq<char>) -> Option<Rank> {
    match field_str(doc, key) {
        Some(s) => rank_from_lower(lowercase(s)),
        None => None,
    }
}

/// Extract a proficiency rank from a named extra field on a document.
pub fn extract_rank_field(doc: &Document, field: &str) -> (r: Option<Rank>)
    ensures
        r == rank_field(*doc, field@),
{
    match doc.field(field) {
        Some(v) => match v.as_str() {
            Some(s) => parse_rank(s),
            None => None,
        },
        None => None,
    }
}

// ---------------------------------------------------------------------------
// Proficiency phrases in free text
// ---------------------------------------------------------------------------

/// The rank words in scan order.
pub open spec fn rank_word(k: int) -> Seq<char> {
    if k == 0 {
        "trained"@
    } else if k == 1 {
        "expert"@
    } else if k == 2 {
        "master"@
    } else {
        "legendary"@
    }
}

/// The rank named by `rank_word(k)`.
pub open spec fn word_rank(k: int) -> Rank {
    if k == 0 {
        Rank::Trained
    } else if k == 1 {
        Rank::Expert
    } else if k == 2 {
        Rank::Master
    } else {
        Rank::Legendary
    }
}

fn rank_word_exec(k: usize) -> (r: (&'static str, Rank))
    requires
        k < 4,
    ensures
        r.0@ == rank_word(k as int),
        r.1 == word_rank(k as int),
        r.0@.len() > 0,
{
    if k == 0 {
        proof { reveal_strlit("trained"); }
        ("trained", Rank::Trained)
    } else if k == 1 {
        proof { reveal_strlit("expert"); }
        ("expert", Rank::Expert)
    } else if k == 2 {
        proof { reveal_strlit("master"); }
        ("master", Rank::Master)
    } else {
        proof { reveal_strlit("legendary"); }
        ("legendary", Rank::Legendary)
    }
}

/// The byte offset, in the UTF-8 encoding of `lower`, of the end of a match of `p`
/// at character `i`.
pub open spec fn match_end_byte(lower: Seq<char>, p: Seq<char>, i: int) -> int {
    utf8_size(lower.subrange(0, i)) + utf8_size(p)
}

/// The trimmed, non-empty phrases that follow each match of `p` in `lower`
/// (matches found left to right without overlap, from index `i`). Each phrase is
/// read from `text` at the byte offset where the match ends in `lower`.
pub open spec fn phrases_after(lower: Seq<char>, text: Seq<char>, p: Seq<char>, i: int) -> Seq<
    Seq<char>,
>
    decreases lower.len() - i,
{
    if p.len() == 0 || i < 0 || i + p.len() > lower.len() {
        Seq::empty()
    } else if occurs_at(lower, p, i) {
        let t = match boundary_index(text, match_end_byte(lower, p, i)) {
            Some(j) => trim(phrase_at(text, j)),
            None => Seq::empty(),
        };
        (if t.len() > 0 {
            seq![t]
        } else {
            Seq::empty()
        }) + phrases_after(lower, text, p, i + p.len())
    } else {
        phrases_after(lower, text, p, i + 1)
    }
}

/// Each match of `p` in `lower` from index `i` on ends, in bytes, on a character
/// boundary of `text`, so that the text can be read from there.
pub open spec fn phrases_ok(lower: Seq<char>, text: Seq<char>, p: Seq<char>, i: int) -> bool
    decreases lower.len() - i,
{
    if p.len() == 0 || i < 0 || i + p.len() > lower.len() {
        true
    } else if occurs_at(lower, p, i) {
        boundary_index(text, match_end_byte(lower, p, i)) is Some && phrases_ok(lower, text, p, i + p.len())
    } else {
        phrases_ok(lower, text, p, i + 1)
    }
}

/// The characters of `a` followed by those of `b`.
fn concat3(a: &str, b: &str, c: &str) -> (r: Vec<char>)
    ensures
        r@ == a@ + b@ + c@,
{
    let mut v = chars_of(a);
    let vb = chars_of(b);
    let vc = chars_of(c);
    let mut i: usize = 0;
    while i < vb.len()
        invariant
            i <= vb@.len(),
            v@ == a@ + vb@.subrange(0, i as int),
        decreases vb@.len() - i,
    {
        v.push(vb[i]);
        i = i + 1;
        assert(v@ =~= a@ + vb@.subrange(0, i as int));
    }
    assert(vb@.subrange(0, vb@.len() as int) =~= b@);
    let mut j: usize = 0;
    while j < vc.len()
        invariant
            j <= vc@.len(),
            v@ == a@ + b@ + vc@.subrange(0, j as int),
        decreases vc@.len() - j,
    {
        v.push(vc[j]);
        j = j + 1;
        assert(v@ =~= a@ + b@ + vc@.subrange(0, j as int));
    }
    assert(vc@.subrange(0, vc@.len() as int) =~= c@);
    v
}

fn phrases_after_exec(lower: &Vec<char>, text: &Vec<char>, p: &Vec<char>) -> (r: Option<Vec<Vec<char>>>)
    ensures
        match r {
            Some(v) => phrases_ok(lower@, text@, p@, 0) && char_seqs(v@) == phrases_after(lower@, text@, p@, 0),
            None => !phrases_ok(lower@, text@, p@, 0),
        },
{
    let mut out: Vec<Vec<char>> = Vec::new();
    if p.len() == 0 {
        assert(char_seqs(out@) =~= Seq::<Seq<char>>::empty());
        return Some(out);
    }
    let pb = prefix_bytes(p, p.len());
    assert(p@.take(p@.len() as int) =~= p@);
    let mut i: usize = 0;
    let mut lb: u128 = 0;
    assert(lower@.subrange(0, 0) =~= Seq::<char>::empty());
    assert(char_seqs(out@) + phrases_after(lower@, text@, p@, 0) =~= phrases_after(
        lower@,
        text@,
        p@,
        0,
    ));
    while p.len() <= lower.len() - i
        invariant
            p@.len() > 0,
            i <= lower@.len(),
            pb == utf8_size(p@),
            pb <= 4 * p@.len(),
            lb == utf8_size(lower@.subrange(0, i as int)),
            lb <= 4 * i,
            phrases_ok(lower@, text@, p@, 0) == phrases_ok(lower@, text@, p@, i as int),
            char_seqs(out@) + phrases_after(lower@, text@, p@, i as int) == phrases_after(
                lower@,
                text@,
                p@,
                0,
            ),
        decreases lower@.len() - i,
    {
        let ghost before = char_seqs(out@);
        if occurs_at_exec(lower, p, i) {
            let start = match char_index_at_byte(text, lb + pb) {
                Some(j) => j,
                None => {
                    return None;
                },
            };
            let t = phrase_chars(text, start);
            if t.len() > 0 {
                out.push(t);
                assert(char_seqs(out@) =~= before.push(t@));
                assert(before + phrases_after(lower@, text@, p@, i as int) =~= char_seqs(out@)
                    + phrases_after(lower@, text@, p@, i + p@.len()));
            } else {
                assert(before + phrases_after(lower@, text@, p@, i as int) =~= char_seqs(out@)
                    + phrases_after(lower@, text@, p@, i + p@.len()));
            }
            proof {
                assert(lower@.subrange(0, i + p@.len()) =~= lower@.subrange(0, i as int) + p@);
                lemma_utf8_size_concat(lower@.subrange(0, i as int), p@);
            }
            lb = lb + pb;
            i = i + p.len();
        } else {
            proof {
                assert(lower@.subrange(0, i + 1).drop_last() =~= lower@.subrange(0, i as int));
            }
            lb = lb + utf8_len_exec(lower[i]);
            i = i + 1;
        }
    }
    assert(char_seqs(out@) + Seq::<Seq<char>>::empty() =~= char_seqs(out@));
    Some(out)
}

/// The grants for the `k`-th rank word: each phrase after "<word> in ".
pub open spec fn grants_for(lower: Seq<char>, text: Seq<char>, k: int) -> Seq<(Seq<char>, Rank)> {
    phrases_after(lower, text, rank_word(k) + " in "@, 0).map_values(
        |t: Seq<char>| (t, word_rank(k)),
    )
}

/// The grants for the first `k` rank words, in order.
pub open spec fn grants_upto(lower: Seq<char>, text: Seq<char>, k: int) -> Seq<(Seq<char>, Rank)>
    decreases k,
{
    if k <= 0 {
        Seq::empty()
    } else {
        grants_upto(lower, text, k - 1) + grants_for(lower, text, k - 1)
    }
}

/// Every "trained in X", "expert in X", "master in X" and "legendary in X" in the
/// text, rank word by rank word; X runs to the next ',', '.', ';' or newline and is
/// trimmed, and empty targets are dropped. The words are matched in the Unicode
/// lower-casing of the text, and X is read from the text itself at the byte offset
/// where the match ends in the lower-cased text.
pub open spec fn grants_spec(text: Seq<char>) -> Seq<(Seq<char>, Rank)> {
    grants_upto(lowercase(text), text, 4)
}

/// Every rank-word match up to the `k`-th word can be read back from the text.
pub open spec fn grants_ok_upto(lower: Seq<char>, text: Seq<char>, k: int) -> bool
    decreases k,
{
    if k <= 0 {
        true
    } else {
        grants_ok_upto(lower, text, k - 1) && phrases_ok(lower, text, rank_word(k - 1) + " in "@, 0)
    }
}

/// Reading grants from this text stays on character boundaries: each match in the
/// lower-cased text ends at a byte offset that is a character boundary of the text.
/// This fails only where lower-casing changes the UTF-8 size of what precedes a
/// match; there slicing the text at that offset would panic.
pub open spec fn grants_defined(text: Seq<char>) -> bool {
    grants_ok_upto(lowercase(text), text, 4)
}

fn append_grants(out: &mut Vec<ProficiencyGrant>, ph: &Vec<Vec<char>>, rank: Rank)
    ensures
        grants_view(final(out)@) == grants_view(old(out)@) + char_seqs(ph@).map_values(
            |t: Seq<char>| (t, rank),
        ),
{
    let ghost base = grants_view(out@);
    let n = out.len();
    let mut j: usize = 0;
    while j < ph.len()
        invariant
            j <= ph@.len(),
            n == base.len(),
            out@.len() == n + j,
            forall|m: int| 0 <= m < n ==> #[trigger] grants_view(out@)[m] == base[m],
            forall|m: int| 0 <= m < j ==> #[trigger] grants_view(out@)[n + m] == (ph@[m]@, rank),
        decreases ph@.len() - j,
    {
        let ghost prev = out@;
        out.push(ProficiencyGrant { target: string_of(&ph[j]), rank });
        proof {
            assert forall|m: int| 0 <= m < n implies #[trigger] grants_view(out@)[m] == base[m] by {
                assert(out@[m] == prev[m]);
                assert(grants_view(prev)[m] == base[m]);
            }
            assert forall|m: int| 0 <= m < j + 1 implies #[trigger] grants_view(out@)[n + m] == (
            ph@[m]@, rank) by {
                if m < j {
                    assert(out@[n + m] == prev[n + m]);
                    assert(grants_view(prev)[n + m] == (ph@[m]@, rank));
                }
            }
        }
        j = j + 1;
    }
    let ghost target = base + char_seqs(ph@).map_values(|t: Seq<char>| (t, rank));
    assert forall|m: int| 0 <= m < out@.len() implies #[trigger] grants_view(out@)[m] == target[m] by {
        if m >= n {
            let q = m - n;
            assert(grants_view(out@)[n + q] == (ph@[q]@, rank));
        }
    }
    assert(grants_view(out@) =~= target);
}

/// The grants of `t` given its lower-casing `lower`, when they can be read.
fn grants_core(lower: &Vec<char>, t: &Vec<char>) -> (r: Option<Vec<ProficiencyGrant>>)
    ensures
        match r {
            Some(v) => grants_ok_upto(lower@, t@, 4) && grants_view(v@) == grants_upto(lower@, t@, 4),
            None => !grants_ok_upto(lower@, t@, 4),
        },
{
    let mut grants: Vec<ProficiencyGrant> = Vec::new();
    let mut k: usize = 0;
    assert(grants_view(grants@) =~= grants_upto(lower@, t@, 0));
    while k < 4
        invariant
            k <= 4,
            grants_ok_upto(lower@, t@, k as int),
            grants_view(grants@) == grants_upto(lower@, t@, k as int),
        decreases 4 - k,
    {
        let (word, rank) = rank_word_exec(k);
        let p = concat3(word, " in ", "");
        proof {
            reveal_strlit("");
        }
        assert(p@ =~= rank_word(k as int) + " in "@);
        let ph = match phrases_after_exec(lower, t, &p) {
            Some(ph) => ph,
            None => {
                proof {
                    if grants_ok_upto(lower@, t@, 4) {
                        lemma_grants_ok_prefix(lower@, t@, k as int + 1, 4);
                    }
                }
                return None;
            },
        };
        append_grants(&mut grants, &ph, rank);
        k = k + 1;
    }
    Some(grants)
}

/// Readability of the first `k` words follows from that of the first `m >= k`.
proof fn lemma_grants_ok_prefix(lower: Seq<char>, text: Seq<char>, k: int, m: int)
    requires
        k <= m,
        grants_ok_upto(lower, text, m),
    ensures
        grants_ok_upto(lower, text, k),
    decreases m - k,
{
    if k < m {
        lemma_grants_ok_prefix(lower, text, k, m - 1);
    }
}

/// Extract proficiency grants from text patterns like
/// "trained in Perception", "expert in Fortitude".
pub fn extract_proficiency_grants(text: &str) -> (r: Vec<ProficiencyGrant>)
    requires
        grants_defined(text@),
    ensures
        grants_view(r@) == grants_spec(text@),
{
    let lower_s = to_lowercase(text);
    let lower = chars_of(lower_s.as_str());
    let t = chars_of(text);
    match grants_core(&lower, &t) {
        Some(g) => g,
        None => {
            assert(false);
            Vec::new()
        },
    }
}

/// The grants of a text when they can be read from it (`grants_defined`), and
/// nothing where reading them would slice the text inside a character.
pub fn try_extract_proficiency_grants(text: &str) -> (r: Option<Vec<ProficiencyGrant>>)
    ensures
        match r {
            Some(v) => grants_defined(text@) && grants_view(v@) == grants_spec(text@),
            None => !grants_defined(text@),
        },
{
    let lower_s = to_lowercase(text);
    let lower = chars_of(lower_s.as_str());
    let t = chars_of(text);
    if grants_core(&lower, &t).is_none() {
        return None;
    }
    Some(extract_proficiency_grants(text))
}

// ---------------------------------------------------------------------------
// Proficiency advances in class feature text
// ---------------------------------------------------------------------------

/// The target named just before "increases to": after the last "proficiency rank
/// for " (trimmed, with trailing " proficiency" removed), else the last clause before
/// the last " proficiency" (trimmed, without leading "your "), when non-empty.
pub open spec fn target_before(before: Seq<char>) -> Option<Seq<char>> {
    let rf = "proficiency rank for "@;
    let first: Option<Seq<char>> = match last_occurrence(before, rf) {
        Some(pos) => {
            let x = strip_suffixes(
                trim(before.subrange(pos + rf.len(), before.len() as int)),
                " proficiency"@,
            );
            if x.len() > 0 {
                Some(x)
            } else {
                None
            }
        },
        None => None,
    };
    if first is Some {
        first
    } else {
        match last_occurrence(before, " proficiency"@) {
            Some(pos) => {
                let x = trim(strip_prefixes(trim(last_clause(before.subrange(0, pos))), "your "@));
                if x.len() > 0 {
                    Some(x)
                } else {
                    None
                }
            },
            None => None,
        }
    }
}

fn target_before_exec(before: &Vec<char>) -> (r: Option<Vec<char>>)
    ensures
        match r {
            Some(x) => target_before(before@) == Some(x@),
            None => target_before(before@) is None,
        },
{
    let rf = chars_of("proficiency rank for ");
    let sfx = chars_of(" proficiency");
    let found = rfind_chars(before, &rf);
    if let Some(pos) = found {
        let blen = before.len();
        assert(occurs_at(before@, rf@, pos as int));
        let start: usize = pos + rf.len();
        let after = trim_chars(before, start, blen);
        let x = strip_suffixes_chars(&after, &sfx);
        if x.len() > 0 {
            return Some(x);
        }
    }
    if let Some(pos) = rfind_chars(before, &sfx) {
        proof {
            reveal_strlit(" proficiency");
        }
        let chunk = slice_chars(before, 0, pos);
        let clause = last_clause_chars(&chunk);
        let tc = trim_chars(&clause, 0, clause.len());
        assert(clause@.subrange(0, clause@.len() as int) =~= clause@);
        let your = chars_of("your ");
        let st = strip_prefixes_chars(&tc, &your);
        let x = trim_chars(&st, 0, st.len());
        assert(st@.subrange(0, st@.len() as int) =~= st@);
        if x.len() > 0 {
            return Some(x);
        }
    }
    None
}

/// The byte offset, in the UTF-8 encoding of `lower`, of the last place before
/// character `i` where `x` occurs (0 when it does not).
pub open spec fn increase_start_byte(lower: Seq<char>, i: int, x: Seq<char>) -> int {
    let before = lower.subrange(0, i);
    let s = match last_occurrence(before, x) {
        Some(j) => j,
        None => 0,
    };
    utf8_size(before.take(s))
}

/// The advance target for an "increases to" at index `i` of `lower`: the target `x`
/// found before it, read back from `text` over the bytes where `x` last occurs
/// before `i` in `lower`, trimmed.
pub open spec fn increase_target(lower: Seq<char>, text: Seq<char>, i: int) -> Option<Seq<char>> {
    match target_before(lower.subrange(0, i)) {
        Some(x) => {
            let bs = increase_start_byte(lower, i, x);
            match (boundary_index(text, bs), boundary_index(text, bs + utf8_size(x))) {
                (Some(a), Some(b)) => Some(trim(text.subrange(a, b))),
                _ => Some(Seq::empty()),
            }
        },
        None => None,
    }
}

/// The bytes read back for the target at index `i` start and end on character
/// boundaries of `text`.
pub open spec fn increase_ok_at(lower: Seq<char>, text: Seq<char>, i: int) -> bool {
    match target_before(lower.subrange(0, i)) {
        Some(x) => {
            let bs = increase_start_byte(lower, i, x);
            boundary_index(text, bs) is Some && boundary_index(text, bs + utf8_size(x)) is Some
        },
        None => true,
    }
}

/// The targets for each match of `p` ("increases to <rank>") in `lower`, from `i` on.
pub open spec fn increase_targets(lower: Seq<char>, text: Seq<char>, p: Seq<char>, i: int) -> Seq<
    Seq<char>,
>
    decreases lower.len() - i,
{
    if p.len() == 0 || i < 0 || i + p.len() > lower.len() {
        Seq::empty()
    } else if occurs_at(lower, p, i) {
        (match increase_target(lower, text, i) {
            Some(x) => seq![x],
            None => Seq::empty(),
        }) + increase_targets(lower, text, p, i + p.len())
    } else {
        increase_targets(lower, text, p, i + 1)
    }
}

/// Every match of `p` from `i` on can be read back from `text`.
pub open spec fn increases_ok(lower: Seq<char>, text: Seq<char>, p: Seq<char>, i: int) -> bool
    decreases lower.len() - i,
{
    if p.len() == 0 || i < 0 || i + p.len() > lower.len() {
        true
    } else if occurs_at(lower, p, i) {
        increase_ok_at(lower, text, i) && increases_ok(lower, text, p, i + p.len())
    } else {
        increases_ok(lower, text, p, i + 1)
    }
}

fn increase_targets_exec(lower: &Vec<char>, text: &Vec<char>, p: &Vec<char>) -> (r: Option<Vec<Vec<char>>>)
    ensures
        match r {
            Some(v) => increases_ok(lower@, text@, p@, 0) && char_seqs(v@) == increase_targets(lower@, text@, p@, 0),
            None => !increases_ok(lower@, text@, p@, 0),
        },
{
    let mut out: Vec<Vec<char>> = Vec::new();
    if p.len() == 0 {
        assert(char_seqs(out@) =~= Seq::<Seq<char>>::empty());
        return Some(out);
    }
    let mut i: usize = 0;
    assert(char_seqs(out@) + increase_targets(lower@, text@, p@, 0) =~= increase_targets(
        lower@,
        text@,
        p@,
        0,
    ));
    while p.len() <= lower.len() - i
        invariant
            p@.len() > 0,
            i <= lower@.len(),
            increases_ok(lower@, text@, p@, 0) == increases_ok(lower@, text@, p@, i as int),
            char_seqs(out@) + increase_targets(lower@, text@, p@, i as int) == increase_targets(
                lower@,
                text@,
                p@,
                0,
            ),
        decreases lower@.len() - i,
    {
        let ghost before_out = char_seqs(out@);
        if occurs_at_exec(lower, p, i) {
            let before = slice_chars(lower, 0, i);
            match target_before_exec(&before) {
                Some(x) => {
                    let s = match rfind_chars(&before, &x) {
                        Some(j) => j,
                        None => 0,
                    };
                    let bs = prefix_bytes(&before, s);
                    let xs = prefix_bytes(&x, x.len());
                    assert(x@.take(x@.len() as int) =~= x@);
                    let a = match char_index_at_byte(text, bs) {
                        Some(a) => a,
                        None => {
                            return None;
                        },
                    };
                    let b = match char_index_at_byte(text, bs + xs) {
                        Some(b) => b,
                        None => {
                            return None;
                        },
                    };
                    proof {
                        lemma_boundary_index_mono(text@, bs as int, bs + xs);
                    }
                    let o = slice_chars(text, a, b);
                    let t = trim_chars(&o, 0, o.len());
                    assert(o@.subrange(0, o@.len() as int) =~= o@);
                    out.push(t);
                    assert(char_seqs(out@) =~= before_out.push(t@));
                },
                None => {},
            }
            assert(before_out + increase_targets(lower@, text@, p@, i as int) =~= char_seqs(out@)
                + increase_targets(lower@, text@, p@, i + p@.len()));
            i = i + p.len();
        } else {
            i = i + 1;
        }
    }
    assert(char_seqs(out@) + Seq::<Seq<char>>::empty() =~= char_seqs(out@));
    Some(out)
}

/// The six "become" patterns for a rank word, in scan order.
pub open spec fn become_targets(lower: Seq<char>, text: Seq<char>, w: Seq<char>) -> Seq<Seq<char>> {
    phrases_after(lower, text, "become an "@ + w + " in "@, 0) + phrases_after(
        lower,
        text,
        "become a "@ + w + " in "@,
        0,
    ) + phrases_after(lower, text, "becomes an "@ + w + " in "@, 0) + phrases_after(
        lower,
        text,
        "becomes a "@ + w + " in "@,
        0,
    ) + phrases_after(lower, text, "become "@ + w + " in "@, 0) + phrases_after(
        lower,
        text,
        "becomes "@ + w + " in "@,
        0,
    )
}

/// Advances for the `k`-th rank word: the "become" phrases, then the "increases to" targets.
pub open spec fn advances_for(lower: Seq<char>, text: Seq<char>, k: int, level: u8) -> Seq<
    (u8, Seq<char>, Rank),
> {
    become_targets(lower, text, rank_word(k)).map_values(
        |t: Seq<char>| (level, t, word_rank(k)),
    ) + increase_targets(lower, text, "increases to "@ + rank_word(k), 0).map_values(
        |t: Seq<char>| (level, t, word_rank(k)),
    )
}

/// Advances for the first `k` rank words, in order.
pub open spec fn advances_upto(lower: Seq<char>, text: Seq<char>, k: int, level: u8) -> Seq<
    (u8, Seq<char>, Rank),
>
    decreases k,
{
    if k <= 0 {
        Seq::empty()
    } else {
        advances_upto(lower, text, k - 1, level) + advances_for(lower, text, k - 1, level)
    }
}

/// All advances found in class feature text, rank word by rank word.
pub open spec fn advances_spec(text: Seq<char>, level: u8) -> Seq<(u8, Seq<char>, Rank)> {
    advances_upto(lowercase(text), text, 4, level)
}

/// Every "become" match for rank word `w` can be read back from the text.
pub open spec fn become_ok(lower: Seq<char>, text: Seq<char>, w: Seq<char>) -> bool {
    &&& phrases_ok(lower, text, "become an "@ + w + " in "@, 0)
    &&& phrases_ok(lower, text, "become a "@ + w + " in "@, 0)
    &&& phrases_ok(lower, text, "becomes an "@ + w + " in "@, 0)
    &&& phrases_ok(lower, text, "becomes a "@ + w + " in "@, 0)
    &&& phrases_ok(lower, text, "become "@ + w + " in "@, 0)
    &&& phrases_ok(lower, text, "becomes "@ + w + " in "@, 0)
}

/// Every match for the first `k` rank words can be read back from the text.
pub open spec fn advances_ok_upto(lower: Seq<char>, text: Seq<char>, k: int) -> bool
    decreases k,
{
    if k <= 0 {
        true
    } else {
        &&& advances_ok_upto(lower, text, k - 1)
        &&& become_ok(lower, text, rank_word(k - 1))
        &&& increases_ok(lower, text, "increases to "@ + rank_word(k - 1), 0)
    }
}

/// Reading advances from this text stays on character boundaries: every byte offset
/// taken from the lower-cased text to read the text itself is a character boundary
/// of the text. This fails only where lower-casing changes the UTF-8 size of what
/// precedes a match; there slicing the text would panic.
pub open spec fn advances_defined(text: Seq<char>) -> bool {
    advances_ok_upto(lowercase(text), text, 4)
}

/// Readability of the first `k` words follows from that of the first `m >= k`.
proof fn lemma_advances_ok_prefix(lower: Seq<char>, text: Seq<char>, k: int, m: int)
    requires
        k <= m,
        advances_ok_upto(lower, text, m),
    ensures
        advances_ok_upto(lower, text, k),
    decreases m - k,
{
    if k < m {
        lemma_advances_ok_prefix(lower, text, k, m - 1);
    }
}

fn append_advances(out: &mut Vec<ProficiencyAdvance>, ph: &Vec<Vec<char>>, level: u8, rank: Rank)
    ensures
        advances_view(final(out)@) == advances_view(old(out)@) + char_seqs(ph@).map_values(
            |t: Seq<char>| (level, t, rank),
        ),
{
    let ghost base = advances_view(out@);
    let n = out.len();
    let mut j: usize = 0;
    while j < ph.len()
        invariant
            j <= ph@.len(),
            n == base.len(),
            out@.len() == n + j,
            forall|m: int| 0 <= m < n ==> #[trigger] advances_view(out@)[m] == base[m],
            forall|m: int|
                0 <= m < j ==> #[trigger] advances_view(out@)[n + m] == (level, ph@[m]@, rank),
        decreases ph@.len() - j,
    {
        let ghost prev = out@;
        out.push(ProficiencyAdvance { level, target: string_of(&ph[j]), rank });
        proof {
            assert forall|m: int| 0 <= m < n implies #[trigger] advances_view(out@)[m] == base[m] by {
                assert(out@[m] == prev[m]);
                assert(advances_view(prev)[m] == base[m]);
            }
            assert forall|m: int| 0 <= m < j + 1 implies #[trigger] advances_view(out@)[n + m] == (
            level, ph@[m]@, rank) by {
                if m < j {
                    assert(out@[n + m] == prev[n + m]);
                    assert(advances_view(prev)[n + m] == (level, ph@[m]@, rank));
                }
            }
        }
        j = j + 1;
    }
    let ghost target = base + char_seqs(ph@).map_values(|t: Seq<char>| (level, t, rank));
    assert forall|m: int| 0 <= m < out@.len() implies #[trigger] advances_view(out@)[m] == target[m] by {
        if m >= n {
            let q = m - n;
            assert(advances_view(out@)[n + q] == (level, ph@[q]@, rank));
        }
    }
    assert(advances_view(out@) =~= target);
}

/// The advances of `t` given its lower-casing `lower`, when they can be read.
fn advances_core(lower: &Vec<char>, t: &Vec<char>, level: u8) -> (r: Option<Vec<ProficiencyAdvance>>)
    ensures
        match r {
            Some(v) => advances_ok_upto(lower@, t@, 4) && advances_view(v@) == advances_upto(lower@, t@, 4, level),
            None => !advances_ok_upto(lower@, t@, 4),
        },
{
    let mut advances: Vec<ProficiencyAdvance> = Vec::new();
    let mut k: usize = 0;
    assert(advances_view(advances@) =~= advances_upto(lower@, t@, 0, level));
    while k < 4
        invariant
            k <= 4,
            advances_ok_upto(lower@, t@, k as int),
            advances_view(advances@) == advances_upto(lower@, t@, k as int, level),
        decreases 4 - k,
    {
        let (word, rank) = rank_word_exec(k);
        let ghost w = rank_word(k as int);
        let ghost start = advances_view(advances@);
        let p1 = concat3("become an ", word, " in ");
        let p2 = concat3("become a ", word, " in ");
        let p3 = concat3("becomes an ", word, " in ");
        let p4 = concat3("becomes a ", word, " in ");
        let p5 = concat3("become ", word, " in ");
        let p6 = concat3("becomes ", word, " in ");
        let pi = concat3("increases to ", word, "");
        proof {
            reveal_strlit("");
        }
        assert(pi@ =~= "increases to "@ + w);
        let r1 = phrases_after_exec(lower, t, &p1);
        let r2 = phrases_after_exec(lower, t, &p2);
        let r3 = phrases_after_exec(lower, t, &p3);
        let r4 = phrases_after_exec(lower, t, &p4);
        let r5 = phrases_after_exec(lower, t, &p5);
        let r6 = phrases_after_exec(lower, t, &p6);
        let ri = increase_targets_exec(lower, t, &pi);
        let (ph1, ph2, ph3, ph4, ph5, ph6, inc) = match (r1, r2, r3, r4, r5, r6, ri) {
            (Some(a1), Some(a2), Some(a3), Some(a4), Some(a5), Some(a6), Some(ai)) => (a1, a2, a3, a4, a5, a6, ai),
            _ => {
                proof {
                    if advances_ok_upto(lower@, t@, 4) {
                        lemma_advances_ok_prefix(lower@, t@, k as int + 1, 4);
                    }
                }
                return None;
            },
        };
        append_advances(&mut advances, &ph1, level, rank);
        append_advances(&mut advances, &ph2, level, rank);
        append_advances(&mut advances, &ph3, level, rank);
        append_advances(&mut advances, &ph4, level, rank);
        append_advances(&mut advances, &ph5, level, rank);
        append_advances(&mut advances, &ph6, level, rank);
        append_advances(&mut advances, &inc, level, rank);
        proof {
            let f = |x: Seq<char>| (level, x, rank);
            let b = become_targets(lower@, t@, w);
            assert(b == char_seqs(ph1@) + char_seqs(ph2@) + char_seqs(ph3@) + char_seqs(ph4@)
                + char_seqs(ph5@) + char_seqs(ph6@));
            assert(b.map_values(f) =~= char_seqs(ph1@).map_values(f) + char_seqs(ph2@).map_values(f)
                + char_seqs(ph3@).map_values(f) + char_seqs(ph4@).map_values(f) + char_seqs(
                ph5@,
            ).map_values(f) + char_seqs(ph6@).map_values(f));
            assert(advances_view(advances@) =~= start + advances_for(lower@, t@, k as int, level));
        }
        k = k + 1;
    }
    Some(advances)
}

/// Extract proficiency advances from class feature text: "become(s) (a/an) <rank>
/// in <target>" and "<target> proficiency increases to <rank>" /
/// "proficiency rank for <target> increases to <rank>".
pub fn extract_proficiency_advances(text: &str, level: u8) -> (r: Vec<ProficiencyAdvance>)
    requires
        advances_defined(text@),
    ensures
        advances_view(r@) == advances_spec(text@, level),
{
    let lower_s = to_lowercase(text);
    let lower = chars_of(lower_s.as_str());
    let t = chars_of(text);
    match advances_core(&lower, &t, level) {
        Some(v) => v,
        None => {
            assert(false);
            Vec::new()
        },
    }
}

/// The advances of a text when they can be read from it (`advances_defined`), and
/// nothing where reading them would slice the text inside a character.
pub fn try_extract_proficiency_advances(text: &str, level: u8) -> (r: Option<Vec<ProficiencyAdvance>>)
    ensures
        match r {
            Some(v) => advances_defined(text@) && advances_view(v@) == advances_spec(text@, level),
            None => !advances_defined(text@),
        },
{
    let lower_s = to_lowercase(text);
    let lower = chars_of(lower_s.as_str());
    let t = chars_of(text);
    if advances_core(&lower, &t, level).is_none() {
        return None;
    }
    Some(extract_proficiency_advances(text, level))
}

} // verus!
