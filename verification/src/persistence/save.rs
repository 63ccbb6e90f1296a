//! Names of the files builds are saved and exported to.
use vstd::prelude::*;
use vstd::string::StrSliceExecFns;
use crate::build::maps::{compare_names, lemma_less_irrefl, lemma_less_total, lemma_less_trans, seq_less};
use crate::text::{chars_of, owned, push_char, strs};

verus! {

/// Whether a character is alphabetic or numeric in Unicode's sense, as
/// `char::is_alphanumeric` answers.
pub uninterp spec fn alphanumeric(c: char) -> bool;

/// Calls `char::is_alphanumeric`. Of ASCII characters exactly the letters and the
/// digits are alphanumeric, as its documentation says; for other characters the
/// answer is only named, not stated.
#[verifier::external_body]
fn is_alphanumeric(c: char) -> (r: bool)
    ensures
        r == alphanumeric(c),
        (c as u32) < 128 ==> (r <==> ((97 <= (c as u32) <= 122) || (65 <= (c as u32) <= 90) || (48 <= (c as u32)
            <= 57))),
{
    c.is_alphanumeric()
}

/// A character as it appears in a file name: letters, digits, '-' and '_' are kept,
/// anything else becomes '_'.
pub open spec fn file_char(c: char) -> char {
    if alphanumeric(c) || c == '-' || c == '_' {
        c
    } else {
        '_'
    }
}

/// A file name made of a build's name, character by character; "unnamed" for an
/// empty name.
pub open spec fn sanitized(name: Seq<char>) -> Seq<char> {
    if name.len() == 0 {
        "unnamed"@
    } else {
        name.map_values(|c: char| file_char(c))
    }
}

/// Text with no path separator and no dot, so that it names a file of the
/// directory it is joined to.
pub open spec fn no_path_chars(s: Seq<char>) -> bool {
    forall|i: int| 0 <= i < s.len() ==> #[trigger] s[i] != '/' && s[i] != '\\' && s[i] != '.'
}

/// The file name made of a build's name; it is never empty and holds no path
/// separator or dot.
pub fn sanitize_filename(name: &str) -> (r: String)
    ensures
        r@ == sanitized(name@),
        r@.len() > 0,
        no_path_chars(r@),
{
    let v = chars_of(name);
    if v.len() == 0 {
        proof {
            reveal_strlit("unnamed");
        }
        return owned("unnamed");
    }
    let mut out = String::new();
    let mut i: usize = 0;
    while i < v.len()
        invariant
            v@ == name@,
            i <= v@.len(),
            out@ == name@.take(i as int).map_values(|c: char| file_char(c)),
            no_path_chars(out@),
        decreases v@.len() - i,
    {
        let c = v[i];
        let k = if is_alphanumeric(c) || c == '-' || c == '_' {
            c
        } else {
            '_'
        };
        push_char(&mut out, k);
        assert(name@.take(i + 1).map_values(|c: char| file_char(c)) =~= name@.take(i as int).map_values(
            |c: char| file_char(c),
        ).push(file_char(name@[i as int])));
        i = i + 1;
    }
    assert(name@.take(v@.len() as int) =~= name@);
    out
}

/// The file a build is saved to: its sanitized name, which holds no path separator
/// or dot, and ".json".
pub fn save_file_name(name: &str) -> (r: String)
    ensures
        r@ == sanitized(name@) + ".json"@,
        no_path_chars(sanitized(name@)),
{
    let mut s = sanitize_filename(name);
    s.append(".json");
    s
}

/// The file a build is exported to: its sanitized name, which holds no path
/// separator or dot, and "_pathbuilder.json".
pub fn export_file_name(name: &str) -> (r: String)
    ensures
        r@ == sanitized(name@) + "_pathbuilder.json"@,
        no_path_chars(sanitized(name@)),
{
    let mut s = sanitize_filename(name);
    s.append("_pathbuilder.json");
    s
}

/// Whether a listed file is a saved build: its extension is "json" (a name that is
/// only ".json" has no extension).
pub fn is_saved_build(file_name: &str) -> (r: bool)
    ensures
        r == (file_name@.len() > 5 && crate::text::has_suffix(file_name@, ".json"@)),
{
    proof {
        reveal_strlit(".json");
    }
    file_name.unicode_len() > 5 && crate::text::ends_with(file_name, ".json")
}

/// No name sorts before the one ahead of it.
pub open spec fn names_in_order(s: Seq<Seq<char>>) -> bool {
    forall|i: int, j: int| 0 <= i < j < s.len() ==> !seq_less(#[trigger] s[j], #[trigger] s[i])
}

/// The saved files in name order (by code point, as paths in one directory sort).
pub fn sort_names(names: Vec<String>) -> (r: Vec<String>)
    ensures
        names_in_order(strs(r@)),
        strs(r@).to_multiset() == strs(names@).to_multiset(),
{
    let ghost input = strs(names@);
    let mut out: Vec<String> = Vec::new();
    let mut i: usize = 0;
    assert(strs(out@) =~= input.take(0));
    while i < names.len()
        invariant
            i <= names@.len(),
            input == strs(names@),
            names_in_order(strs(out@)),
            strs(out@).to_multiset() == input.take(i as int).to_multiset(),
        decreases names@.len() - i,
    {
        let name = &names[i];
        // Insert after every entry that does not sort after `name`.
        let mut p: usize = 0;
        while p < out.len() && compare_names(out[p].as_str(), name.as_str()) <= 0
            invariant
                p <= out@.len(),
                forall|k: int| 0 <= k < p ==> !seq_less(name@, #[trigger] strs(out@)[k]),
            decreases out@.len() - p,
        {
            p = p + 1;
        }
        let ghost before = strs(out@);
        out.insert(p, owned(name.as_str()));
        proof {
            let after = strs(out@);
            assert(after =~= before.insert(p as int, name@));
            assert(p < before.len() ==> seq_less(name@, before[p as int]));
            assert forall|a: int, b: int| 0 <= a < b < after.len() implies !seq_less(#[trigger] after[b], #[trigger] after[a]) by {
                lemma_less_irrefl(name@);
                if b < p {
                    assert(after[a] == before[a] && after[b] == before[b]);
                } else if b == p {
                    assert(after[a] == before[a]);
                } else if a < p {
                    assert(after[a] == before[a] && after[b] == before[b - 1]);
                    assert(!seq_less(name@, before[a]));
                    if seq_less(before[b - 1], before[a]) {
                        lemma_less_total(before[a], name@);
                        if seq_less(before[b - 1], name@) {
                            assert(b - 1 >= p);
                            assert(seq_less(name@, before[p as int]));
                            if b - 1 > p {
                                assert(!seq_less(before[b - 1], before[p as int]));
                                lemma_less_total(before[b - 1], before[p as int]);
                                if before[b - 1] == before[p as int] {
                                    lemma_less_trans(before[b - 1], name@, before[p as int]);
                                    lemma_less_irrefl(before[b - 1]);
                                } else {
                                    lemma_less_trans(before[p as int], before[b - 1], name@);
                                    lemma_less_trans(name@, before[p as int], name@);
                                }
                            } else {
                                lemma_less_trans(name@, before[p as int], name@);
                            }
                        }
                        if before[a] == name@ {
                        } else {
                            lemma_less_trans(before[b - 1], before[a], name@);
                        }
                    }
                } else if a == p {
                    assert(after[b] == before[b - 1]);
                    if seq_less(before[b - 1], name@) {
                        assert(seq_less(name@, before[p as int]));
                        if b - 1 > p {
                            lemma_less_total(before[b - 1], before[p as int]);
                            if before[b - 1] == before[p as int] {
                            } else {
                                lemma_less_trans(before[p as int], before[b - 1], name@);
                            }
                            lemma_less_trans(name@, before[p as int], name@);
                        } else {
                            lemma_less_trans(name@, before[p as int], name@);
                        }
                    }
                } else {
                    assert(after[a] == before[a - 1] && after[b] == before[b - 1]);
                }
            }
            vstd::seq_lib::to_multiset_insert(before, p as int, name@);
            assert(input.take(i + 1) =~= input.take(i as int).push(input[i as int]));
            vstd::seq_lib::to_multiset_build(input.take(i as int), input[i as int]);
        }
        i = i + 1;
    }
    assert(input.take(names@.len() as int) =~= input);
    out
}

} // verus!
