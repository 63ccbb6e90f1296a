//! Class data read from class documents.
use vstd::prelude::*;
use crate::build::choices::{ClassData, ClassFeatureEntry, features_view};
use crate::build::mechanics::boosts::{attribute_boosts, fixed_abilities, free_count};
use crate::build::mechanics::proficiency::{advances_view, extract_rank_field, rank_field};
use crate::build::mechanics::skills::{array_items, array_items_exec, class_skills, extract_class_skill_grants};
use crate::build::mechanics::subclass::{subclass_category, subclass_category_lower};
use crate::build::rules::proficiency::{class_proficiency_advances, class_table};
use crate::document::{Document, Table, Value, field, field_u64, value_array, value_get, value_str};
use crate::model::abilities::{Ability, BoostSpec};
use crate::model::proficiencies::Rank;
use crate::scan::{
    char_seqs, next_word, parse_u8, parse_u8_spec, parse_unsigned, parse_unsigned_chars,
    slice_chars, trim_chars, words, words_from,
};
use crate::text::{
    chars_of, contains, ends_with, find_from, has_infix, has_prefix, has_suffix, lowercase,
    occurs_at, opt_str, owned, starts_with, str_eq, string_of, strs, to_lowercase, trim,
};

verus! {

// ---------------------------------------------------------------------------
// Feature names
// ---------------------------------------------------------------------------

/// "Nth-rank spells" or "<tradition> spellcasting", already lower-cased.
pub open spec fn is_spell_progression_spec(lower: Seq<char>) -> bool {
    has_suffix(lower, "-rank spells"@) || has_suffix(lower, " spellcasting"@)
}

/// Progression entries that the build shows as slots of their own (skill feats,
/// skill increases, general and ancestry feats, attribute boosts, initial
/// proficiencies, spell ranks), not as class features.
pub open spec fn is_generic_progression_spec(name: Seq<char>) -> bool {
    let l = lowercase(name);
    has_prefix(l, "skill feat"@) || has_prefix(l, "skill increase"@) || has_prefix(
        l,
        "general feat"@,
    ) || has_prefix(l, "ancestry feat"@) || has_prefix(l, "attribute boost"@) || has_prefix(
        l,
        "ancestry and background"@,
    ) || has_prefix(l, "initial proficienc"@) || is_spell_progression_spec(l)
}

/// Entries like "barbarian feat", "fighter feat" or "class feat": a class feat slot.
pub open spec fn is_class_feat_spec(name: Seq<char>) -> bool {
    let l = lowercase(name);
    l == "class feat"@ || (has_suffix(l, " feat"@) && !has_infix(l, "skill"@) && !has_infix(
        l,
        "general"@,
    ) && !has_infix(l, "ancestry"@))
}

fn is_spell_progression(lower: &str) -> (r: bool)
    ensures
        r == is_spell_progression_spec(lower@),
{
    ends_with(lower, "-rank spells") || ends_with(lower, " spellcasting")
}

/// Whether a feature name is a generic progression entry.
pub fn is_generic_progression(name: &str) -> (r: bool)
    ensures
        r == is_generic_progression_spec(name@),
{
    let lower = to_lowercase(name);
    let l = lower.as_str();
    starts_with(l, "skill feat") || starts_with(l, "skill increase") || starts_with(
        l,
        "general feat",
    ) || starts_with(l, "ancestry feat") || starts_with(l, "attribute boost") || starts_with(
        l,
        "ancestry and background",
    ) || starts_with(l, "initial proficienc") || is_spell_progression(l)
}

/// Detect entries like "barbarian feat", "fighter feat", "class feat" that
/// represent class feat slots.
pub fn is_class_feat_entry(name: &str) -> (r: bool)
    ensures
        r == is_class_feat_spec(name@),
{
    let lower = to_lowercase(name);
    let l = lower.as_str();
    str_eq(l, "class feat") || (ends_with(l, " feat") && !contains(l, "skill") && !contains(
        l,
        "general",
    ) && !contains(l, "ancestry"))
}

// ---------------------------------------------------------------------------
// Comma-separated feature lists
// ---------------------------------------------------------------------------

/// Index of the first ',' at or after `i`, or the length.
pub open spec fn comma_at(s: Seq<char>, i: int) -> int
    decreases s.len() - i,
{
    if i < 0 || i >= s.len() {
        s.len() as int
    } else if s[i] == ',' {
        i
    } else {
        comma_at(s, i + 1)
    }
}

/// `comma_at` lies between `i` and the length.
pub proof fn lemma_comma_at(s: Seq<char>, i: int)
    requires
        0 <= i <= s.len(),
    ensures
        i <= comma_at(s, i) <= s.len(),
    decreases s.len() - i,
{
    if i < s.len() && s[i] != ',' {
        lemma_comma_at(s, i + 1);
    }
}

/// The pieces of `s` from index `i` on, split at each ',' (`split(',')`).
pub open spec fn pieces_from(s: Seq<char>, i: int) -> Seq<Seq<char>>
    decreases s.len() - i,
{
    if i < 0 || i > s.len() {
        Seq::empty()
    } else {
        proof {
            lemma_comma_at(s, i);
        }
        let e = comma_at(s, i);
        seq![s.subrange(i, e)] + if e < s.len() {
            pieces_from(s, e + 1)
        } else {
            Seq::empty()
        }
    }
}

/// The features named in a comma-separated list at `level`: each piece trimmed,
/// empty and generic entries dropped.
pub open spec fn list_features(pieces: Seq<Seq<char>>, level: u8) -> Seq<(Seq<char>, u8, bool)>
    decreases pieces.len(),
{
    if pieces.len() == 0 {
        Seq::empty()
    } else {
        let n = trim(pieces.last());
        list_features(pieces.drop_last(), level) + if n.len() == 0
            || is_generic_progression_spec(n) {
            Seq::empty()
        } else {
            seq![(n, level, is_class_feat_spec(n))]
        }
    }
}

/// The features named in a comma-separated cell.
pub open spec fn cell_features(cell: Seq<char>, level: u8) -> Seq<(Seq<char>, u8, bool)> {
    list_features(pieces_from(cell, 0), level)
}

/// Append the features of a comma-separated cell at `level`.
fn push_cell_features(cell: &str, level: u8, out: &mut Vec<ClassFeatureEntry>)
    ensures
        features_view(final(out)@) == features_view(old(out)@) + cell_features(cell@, level),
{
    let v = chars_of(cell);
    let ghost pieces = pieces_from(v@, 0);
    let ghost base = features_view(out@);
    let mut i: usize = 0;
    let ghost mut done: Seq<Seq<char>> = Seq::empty();
    assert(pieces =~= done + pieces_from(v@, 0));
    loop
        invariant
            i <= v@.len(),
            pieces == pieces_from(v@, 0),
            v@ == cell@,
            pieces == done + pieces_from(v@, i as int),
            features_view(out@) == base + list_features(done, level),
            base == features_view(old(out)@),
        decreases v@.len() - i,
    {
        let mut e = i;
        while e < v.len() && v[e] != ','
            invariant
                i <= e <= v@.len(),
                comma_at(v@, e as int) == comma_at(v@, i as int),
            decreases v@.len() - e,
        {
            e = e + 1;
        }
        let n = trim_chars(&v, i, e);
        let ghost piece = v@.subrange(i as int, e as int);
        let ghost prev = features_view(out@);
        if n.len() > 0 {
            let name = string_of(&n);
            if !is_generic_progression(name.as_str()) {
                let is_feat = is_class_feat_entry(name.as_str());
                out.push(ClassFeatureEntry { name, level, is_feat_slot: is_feat });
                assert(features_view(out@) =~= prev.push((n@, level, is_feat)));
            }
        }
        proof {
            assert(done.push(piece).drop_last() =~= done);
            assert(features_view(out@) =~= base + list_features(done.push(piece), level));
            done = done.push(piece);
        }
        if e < v.len() {
            assert(pieces =~= done + pieces_from(v@, e + 1));
            i = e + 1;
        } else {
            assert(pieces =~= done);
            assert(cell_features(cell@, level) == list_features(done, level));
            assert(features_view(out@) == features_view(old(out)@) + cell_features(cell@, level));
            return;
        }
    }
}

// ---------------------------------------------------------------------------
// Tables
// ---------------------------------------------------------------------------

/// Some header mentions `a` or `b`.
pub open spec fn mentions_either(headers: Seq<Seq<char>>, a: Seq<char>, b: Seq<char>) -> bool {
    exists|i: int| 0 <= i < headers.len() && (has_infix(#[trigger] headers[i], a) || has_infix(headers[i], b))
}

/// A class feature table: its headers mention a level and features.
pub open spec fn is_feature_table_spec(headers: Seq<Seq<char>>) -> bool {
    mentions_either(headers, "Level"@, "level"@) && mentions_either(headers, "Feature"@, "feature"@)
}

/// A spell slot table: its headers mention a level and cantrips.
pub open spec fn is_spell_table_spec(headers: Seq<Seq<char>>) -> bool {
    mentions_either(headers, "Level"@, "level"@) && mentions_either(headers, "Cantrip"@, "cantrip"@)
}

fn mentions_either_exec(headers: &Vec<String>, a: &str, b: &str) -> (r: bool)
    ensures
        r == mentions_either(strs(headers@), a@, b@),
{
    let ghost hs = strs(headers@);
    let mut i: usize = 0;
    while i < headers.len()
        invariant
            i <= headers@.len(),
            hs == strs(headers@),
            forall|j: int| 0 <= j < i ==> !(has_infix(#[trigger] hs[j], a@) || has_infix(hs[j], b@)),
        decreases headers@.len() - i,
    {
        if contains(headers[i].as_str(), a) || contains(headers[i].as_str(), b) {
            assert(has_infix(hs[i as int], a@) || has_infix(hs[i as int], b@));
            return true;
        }
        i = i + 1;
    }
    false
}

/// Whether a table's headers describe class features by level.
pub fn is_feature_table(headers: &Vec<String>) -> (r: bool)
    ensures
        r == is_feature_table_spec(strs(headers@)),
{
    mentions_either_exec(headers, "Level", "level") && mentions_either_exec(headers, "Feature", "feature")
}

/// Whether a table's headers describe spell slots by level.
pub fn is_spell_table(headers: &Vec<String>) -> (r: bool)
    ensures
        r == is_spell_table_spec(strs(headers@)),
{
    mentions_either_exec(headers, "Level", "level") && mentions_either_exec(headers, "Cantrip", "cantrip")
}

/// Views of table rows.
pub open spec fn rows_view(rows: Seq<Vec<String>>) -> Seq<Seq<Seq<char>>> {
    rows.map_values(|r: Vec<String>| strs(r@))
}

/// Features of the rows of a feature table: rows of at least two cells whose first
/// cell is a level, each naming features in its second cell.
pub open spec fn table_features(rows: Seq<Seq<Seq<char>>>) -> Seq<(Seq<char>, u8, bool)>
    decreases rows.len(),
{
    if rows.len() == 0 {
        Seq::empty()
    } else {
        let row = rows.last();
        table_features(rows.drop_last()) + if row.len() < 2 {
            Seq::empty()
        } else {
            match parse_u8_spec(row[0]) {
                Some(level) => cell_features(row[1], level),
                None => Seq::empty(),
            }
        }
    }
}

/// Class features listed in the rows of a feature table.
pub fn parse_feature_table_rows(rows: &Vec<Vec<String>>) -> (r: Vec<ClassFeatureEntry>)
    ensures
        features_view(r@) == table_features(rows_view(rows@)),
{
    let ghost rv = rows_view(rows@);
    let mut features: Vec<ClassFeatureEntry> = Vec::new();
    let mut i: usize = 0;
    assert(features_view(features@) =~= table_features(rv.take(0)));
    while i < rows.len()
        invariant
            i <= rows@.len(),
            rv == rows_view(rows@),
            features_view(features@) == table_features(rv.take(i as int)),
        decreases rows@.len() - i,
    {
        assert(rv.take(i + 1).drop_last() =~= rv.take(i as int));
        let row = &rows[i];
        assert(rv.take(i + 1).last() == strs(row@));
        if row.len() >= 2 {
            match parse_u8(row[0].as_str()) {
                Some(level) => {
                    push_cell_features(row[1].as_str(), level, &mut features);
                },
                None => {},
            }
        }
        i = i + 1;
    }
    assert(rv.take(rows@.len() as int) =~= rv);
    features
}

/// The slot cells of a spell table: for each row of at least two cells, the cells
/// after the first.
pub open spec fn table_slots(rows: Seq<Seq<Seq<char>>>) -> Seq<Seq<Seq<char>>>
    decreases rows.len(),
{
    if rows.len() == 0 {
        Seq::empty()
    } else {
        let row = rows.last();
        table_slots(rows.drop_last()) + if row.len() < 2 {
            Seq::empty()
        } else {
            seq![row.drop_first()]
        }
    }
}

fn copy_strings_from(v: &Vec<String>, start: usize) -> (r: Vec<String>)
    requires
        start <= v@.len(),
    ensures
        strs(r@) == strs(v@).subrange(start as int, v@.len() as int),
{
    let mut out: Vec<String> = Vec::new();
    let mut i = start;
    while i < v.len()
        invariant
            start <= i <= v@.len(),
            strs(out@) == strs(v@).subrange(start as int, i as int),
        decreases v@.len() - i,
    {
        let ghost prev = strs(out@);
        out.push(crate::text::owned(v[i].as_str()));
        assert(strs(out@) =~= prev.push(v@[i as int]@));
        i = i + 1;
        assert(strs(out@) =~= strs(v@).subrange(start as int, i as int));
    }
    out
}

/// Spell slot cells per level from the rows of a spell table.
pub fn parse_spell_table(rows: &Vec<Vec<String>>) -> (r: Vec<Vec<String>>)
    ensures
        rows_view(r@) == table_slots(rows_view(rows@)),
{
    let ghost rv = rows_view(rows@);
    let mut result: Vec<Vec<String>> = Vec::new();
    let mut i: usize = 0;
    assert(rows_view(result@) =~= table_slots(rv.take(0)));
    while i < rows.len()
        invariant
            i <= rows@.len(),
            rv == rows_view(rows@),
            rows_view(result@) == table_slots(rv.take(i as int)),
        decreases rows@.len() - i,
    {
        assert(rv.take(i + 1).drop_last() =~= rv.take(i as int));
        let row = &rows[i];
        assert(rv.take(i + 1).last() == strs(row@));
        if row.len() >= 2 {
            let ghost prev = rows_view(result@);
            let slots = copy_strings_from(row, 1);
            result.push(slots);
            assert(strs(row@).subrange(1, row@.len() as int) =~= strs(row@).drop_first());
            assert(rows_view(result@) =~= prev.push(strs(row@).drop_first()));
        }
        i = i + 1;
    }
    assert(rv.take(rows@.len() as int) =~= rv);
    result
}


// ---------------------------------------------------------------------------
// Feature tables in the JSON content (fallback)
// ---------------------------------------------------------------------------

/// Some string item mentions `a` or `b`.
pub open spec fn json_mentions(hs: Seq<Value>, a: Seq<char>, b: Seq<char>) -> bool {
    exists|i: int|
        0 <= i < hs.len() && match value_str(#[trigger] hs[i]) {
            Some(h) => has_infix(h, a) || has_infix(h, b),
            None => false,
        }
}

/// The rows of a content item that is a class feature table (type "table", headers
/// mentioning a level and features, rows present).
pub open spec fn json_feature_rows(item: Value) -> Option<Seq<Value>> {
    let is_table = match value_get(item, "type"@) {
        Some(t) => value_str(t) == Some("table"@),
        None => false,
    };
    if !is_table {
        None
    } else {
        match value_get(item, "headers"@) {
            Some(h) => match value_array(h) {
                Some(hs) => if json_mentions(hs, "Level"@, "level"@) && json_mentions(
                    hs,
                    "Feature"@,
                    "feature"@,
                ) {
                    match value_get(item, "rows"@) {
                        Some(r) => value_array(r),
                        None => None,
                    }
                } else {
                    None
                },
                None => None,
            },
            None => None,
        }
    }
}

/// The text of a string value, or empty.
pub open spec fn str_or_empty(v: Value) -> Seq<char> {
    match value_str(v) {
        Some(s) => s,
        None => Seq::empty(),
    }
}

/// Features of JSON table rows: rows that are arrays of at least two cells whose
/// first cell is a level.
pub open spec fn json_row_features(rows: Seq<Value>) -> Seq<(Seq<char>, u8, bool)>
    decreases rows.len(),
{
    if rows.len() == 0 {
        Seq::empty()
    } else {
        json_row_features(rows.drop_last()) + match value_array(rows.last()) {
            Some(cells) => if cells.len() < 2 {
                Seq::empty()
            } else {
                match parse_u8_spec(str_or_empty(cells[0])) {
                    Some(level) => cell_features(str_or_empty(cells[1]), level),
                    None => Seq::empty(),
                }
            },
            None => Seq::empty(),
        }
    }
}

/// Features of the first class feature table among the content items.
pub open spec fn json_features(items: Seq<Value>) -> Seq<(Seq<char>, u8, bool)>
    decreases items.len(),
{
    if items.len() == 0 {
        Seq::empty()
    } else {
        match json_feature_rows(items[0]) {
            Some(rows) => json_row_features(rows),
            None => json_features(items.drop_first()),
        }
    }
}

fn json_mentions_exec(hs: &Vec<Value>, a: &str, b: &str) -> (r: bool)
    ensures
        r == json_mentions(hs@, a@, b@),
{
    let mut i: usize = 0;
    while i < hs.len()
        invariant
            i <= hs@.len(),
            forall|j: int|
                0 <= j < i ==> !(match value_str(#[trigger] hs@[j]) {
                    Some(h) => has_infix(h, a@) || has_infix(h, b@),
                    None => false,
                }),
        decreases hs@.len() - i,
    {
        match hs[i].as_str() {
            Some(h) => {
                if contains(h, a) || contains(h, b) {
                    return true;
                }
            },
            None => {},
        }
        i = i + 1;
    }
    false
}

fn json_feature_rows_exec(item: &Value) -> (r: Option<&Vec<Value>>)
    ensures
        match r {
            Some(rows) => json_feature_rows(*item) == Some(rows@),
            None => json_feature_rows(*item) is None,
        },
{
    let is_table = match item.get("type") {
        Some(t) => match t.as_str() {
            Some(ts) => str_eq(ts, "table"),
            None => false,
        },
        None => false,
    };
    if !is_table {
        return None;
    }
    let hs = match item.get("headers") {
        Some(h) => match h.as_array() {
            Some(hs) => hs,
            None => return None,
        },
        None => return None,
    };
    if !json_mentions_exec(hs, "Level", "level") || !json_mentions_exec(hs, "Feature", "feature") {
        return None;
    }
    match item.get("rows") {
        Some(r) => r.as_array(),
        None => None,
    }
}

fn str_or_empty_exec(v: &Value) -> (r: &str)
    ensures
        r@ == str_or_empty(*v),
{
    match v.as_str() {
        Some(s) => s,
        None => {
            proof {
                reveal_strlit("");
            }
            ""
        },
    }
}

fn json_row_features_exec(rows: &Vec<Value>) -> (r: Vec<ClassFeatureEntry>)
    ensures
        features_view(r@) == json_row_features(rows@),
{
    let mut features: Vec<ClassFeatureEntry> = Vec::new();
    let mut i: usize = 0;
    assert(features_view(features@) =~= json_row_features(rows@.take(0)));
    while i < rows.len()
        invariant
            i <= rows@.len(),
            features_view(features@) == json_row_features(rows@.take(i as int)),
        decreases rows@.len() - i,
    {
        assert(rows@.take(i + 1).drop_last() =~= rows@.take(i as int));
        match rows[i].as_array() {
            Some(cells) => {
                if cells.len() >= 2 {
                    let level_str = str_or_empty_exec(&cells[0]);
                    let features_str = str_or_empty_exec(&cells[1]);
                    match parse_u8(level_str) {
                        Some(level) => {
                            push_cell_features(features_str, level, &mut features);
                        },
                        None => {},
                    }
                }
            },
            None => {},
        }
        i = i + 1;
    }
    assert(rows@.take(rows@.len() as int) =~= rows@);
    features
}

/// The features found in a document's JSON `content` array.
pub open spec fn class_json_features(doc: Document) -> Seq<(Seq<char>, u8, bool)> {
    json_features(array_items(doc, "content"@))
}

fn class_features_from_json(doc: &Document) -> (r: Vec<ClassFeatureEntry>)
    ensures
        features_view(r@) == class_json_features(*doc),
{
    let items = match array_items_exec(doc, "content") {
        Some(a) => a,
        None => {
            let r: Vec<ClassFeatureEntry> = Vec::new();
            assert(features_view(r@) =~= Seq::<(Seq<char>, u8, bool)>::empty());
            return r;
        },
    };
    let mut i: usize = 0;
    assert(items@.skip(0) =~= items@);
    while i < items.len()
        invariant
            i <= items@.len(),
            json_features(items@.skip(i as int)) == json_features(items@),
            items@ == array_items(*doc, "content"@),
        decreases items@.len() - i,
    {
        assert(items@.skip(i as int)[0] == items@[i as int]);
        match json_feature_rows_exec(&items[i]) {
            Some(rows) => {
                assert(json_feature_rows(items@.skip(i as int)[0]) == Some(rows@));
                assert(json_features(items@.skip(i as int)) == json_row_features(rows@));
                return json_row_features_exec(rows);
            },
            None => {},
        }
        assert(items@.skip(i as int).drop_first() =~= items@.skip(i + 1));
        i = i + 1;
    }
    let r: Vec<ClassFeatureEntry> = Vec::new();
    assert(features_view(r@) =~= Seq::<(Seq<char>, u8, bool)>::empty());
    r
}

// ---------------------------------------------------------------------------
// Feature list in the plain text (last fallback)
// ---------------------------------------------------------------------------

/// The level a word starts, if it is a level from 1 to 20 above the current one.
pub open spec fn level_word(w: Seq<char>, cur: Option<u8>) -> Option<u8> {
    match parse_u8_spec(w) {
        Some(l) => if 1 <= l <= 20 && (cur is None || l > cur.unwrap()) {
            Some(l)
        } else {
            None
        },
        None => None,
    }
}

/// Features of the finished levels, the current level and the words collected for it,
/// after reading the words `ws` in order.
pub open spec fn text_state(ws: Seq<Seq<char>>) -> (Seq<(Seq<char>, u8, bool)>, Option<u8>, Seq<
    char,
>)
    decreases ws.len(),
{
    if ws.len() == 0 {
        (Seq::empty(), None, Seq::empty())
    } else {
        let (fs, cur, acc) = text_state(ws.drop_last());
        let w = ws.last();
        match level_word(w, cur) {
            Some(l) => (
                fs + match cur {
                    Some(p) => cell_features(acc, p),
                    None => Seq::empty(),
                },
                Some(l),
                Seq::empty(),
            ),
            None => if cur is Some {
                (fs, cur, if acc.len() == 0 {
                    w
                } else {
                    acc + seq![' '] + w
                })
            } else {
                (fs, cur, acc)
            },
        }
    }
}

/// Index of the first occurrence of `p` in `s`.
pub open spec fn first_occurrence(s: Seq<char>, p: Seq<char>) -> Option<int> {
    if exists|i: int| occurs_at(s, p, i) {
        Some(choose|i: int| occurs_at(s, p, i) && forall|k: int| 0 <= k < i ==> !occurs_at(s, p, k))
    } else {
        None
    }
}

/// The features read from the text after the first "Your Level": each level number
/// (1 to 20, increasing) starts a comma-separated feature list.
pub open spec fn text_features(doc: Document) -> Seq<(Seq<char>, u8, bool)> {
    match opt_str(doc.text) {
        Some(t) => match first_occurrence(t, "Your Level"@) {
            Some(start) => {
                let (fs, cur, acc) = text_state(words(t.subrange(start, t.len() as int)));
                fs + match cur {
                    Some(l) => cell_features(acc, l),
                    None => Seq::empty(),
                }
            },
            None => Seq::empty(),
        },
        None => Seq::empty(),
    }
}

fn append_chars(acc: &mut Vec<char>, w: &Vec<char>)
    ensures
        final(acc)@ == old(acc)@ + w@,
{
    let mut i: usize = 0;
    while i < w.len()
        invariant
            i <= w@.len(),
            acc@ == old(acc)@ + w@.subrange(0, i as int),
        decreases w@.len() - i,
    {
        acc.push(w[i]);
        i = i + 1;
        assert(acc@ =~= old(acc)@ + w@.subrange(0, i as int));
    }
    assert(w@.subrange(0, w@.len() as int) =~= w@);
}

fn class_features_from_text(doc: &Document) -> (r: Vec<ClassFeatureEntry>)
    ensures
        features_view(r@) == text_features(*doc),
{
    let mut features: Vec<ClassFeatureEntry> = Vec::new();
    let text = match &doc.text {
        Some(t) => t,
        None => {
            assert(features_view(features@) =~= Seq::<(Seq<char>, u8, bool)>::empty());
            return features;
        },
    };
    let v = chars_of(text.as_str());
    let pat = chars_of("Your Level");
    let start = match find_from(&v, &pat, 0) {
        Some(s) => {
            proof {
                let k = choose|i: int| occurs_at(v@, pat@, i) && forall|m: int| 0 <= m < i ==> !occurs_at(v@, pat@, m);
                if k < s {
                    assert(!occurs_at(v@, pat@, k));
                } else if k > s {
                    assert(!occurs_at(v@, pat@, s as int));
                }
            }
            s
        },
        None => {
            assert(features_view(features@) =~= Seq::<(Seq<char>, u8, bool)>::empty());
            return features;
        },
    };
    let t = slice_chars(&v, start, v.len());
    let ghost all = words(t@);
    let ghost mut done: Seq<Seq<char>> = Seq::empty();
    let mut cur: Option<u8> = None;
    let mut acc: Vec<char> = Vec::new();
    let mut i: usize = 0;
    assert(features_view(features@) =~= text_state(done).0);
    assert(all =~= done + words_from(t@, 0));
    loop
        invariant
            i <= t@.len(),
            all == words(t@),
            all == done + words_from(t@, i as int),
            features_view(features@) == text_state(done).0,
            cur == text_state(done).1,
            acc@ == text_state(done).2,
        ensures
            all == done,
            features_view(features@) == text_state(done).0,
            cur == text_state(done).1,
            acc@ == text_state(done).2,
        decreases t@.len() - i,
    {
        match next_word(&t, i) {
            None => {
                assert(all =~= done);
                break;
            },
            Some((a, b)) => {
                let ghost w = t@.subrange(a as int, b as int);
                proof {
                    assert(done.push(w).drop_last() =~= done);
                    assert(done.push(w).last() == w);
                }
                let parsed = parse_unsigned_chars(&t, a, b, 255);
                let lvl: Option<u8> = match parsed {
                    Some(n) => {
                        let l = n as u8;
                        let ok = 1 <= l && l <= 20 && match cur {
                            Some(c) => l > c,
                            None => true,
                        };
                        if ok {
                            Some(l)
                        } else {
                            None
                        }
                    },
                    None => None,
                };
                assert(lvl == level_word(w, cur));
                match lvl {
                    Some(l) => {
                        match cur {
                            Some(p) => {
                                let cell = string_of(&acc);
                                push_cell_features(cell.as_str(), p, &mut features);
                            },
                            None => {
                                assert(features_view(features@) =~= text_state(done).0 + Seq::<(Seq<char>, u8, bool)>::empty());
                            },
                        }
                        cur = Some(l);
                        acc = Vec::new();
                    },
                    None => {
                        if cur.is_some() {
                            let wv = slice_chars(&t, a, b);
                            if acc.len() > 0 {
                                acc.push(' ');
                            }
                            append_chars(&mut acc, &wv);
                            assert(acc@ =~= (if text_state(done).2.len() == 0 {
                                w
                            } else {
                                text_state(done).2 + seq![' '] + w
                            }));
                        }
                    },
                }
                proof {
                    assert(all =~= done.push(w) + words_from(t@, b as int));
                    done = done.push(w);
                }
                i = b;
            },
        }
    }
    match cur {
        Some(l) => {
            let cell = string_of(&acc);
            push_cell_features(cell.as_str(), l, &mut features);
        },
        None => {
            assert(features_view(features@) =~= text_state(done).0 + Seq::<(Seq<char>, u8, bool)>::empty());
        },
    }
    proof {
        assert(pat@ == "Your Level"@);
        assert(first_occurrence(text@, "Your Level"@) == Some(start as int));
        assert(v@.subrange(start as int, v@.len() as int) == t@);
        assert(all == done);
    }
    features
}

// ---------------------------------------------------------------------------
// Skill count, weapon and armor training
// ---------------------------------------------------------------------------

/// The first word that is a number.
pub open spec fn first_number(ws: Seq<Seq<char>>) -> Option<u8>
    decreases ws.len(),
{
    if ws.len() == 0 {
        None
    } else {
        match parse_u8_spec(ws[0]) {
            Some(n) => Some(n),
            None => first_number(ws.drop_first()),
        }
    }
}

/// The number of additional skills: the first number in the first entry that mentions
/// "additional" and holds one (in lower case), else 0.
pub open spec fn additional_count(items: Seq<Value>) -> u8
    decreases items.len(),
{
    if items.len() == 0 {
        0
    } else {
        let rest = additional_count(items.drop_first());
        match value_str(items[0]) {
            Some(s) => {
                let l = lowercase(s);
                if has_infix(l, "additional"@) {
                    match first_number(words(l)) {
                        Some(n) => n,
                        None => rest,
                    }
                } else {
                    rest
                }
            },
            None => rest,
        }
    }
}

fn first_number_exec(l: &Vec<char>) -> (r: Option<u8>)
    ensures
        r == first_number(words(l@)),
{
    let mut i: usize = 0;
    loop
        invariant
            i <= l@.len(),
            first_number(words_from(l@, i as int)) == first_number(words(l@)),
        decreases l@.len() - i,
    {
        match next_word(l, i) {
            None => {
                return None;
            },
            Some((a, b)) => {
                let ghost rest = words_from(l@, b as int);
                assert((seq![l@.subrange(a as int, b as int)] + rest).drop_first() =~= rest);
                match parse_unsigned_chars(l, a, b, 255) {
                    Some(n) => {
                        return Some(n as u8);
                    },
                    None => {},
                }
                i = b;
            },
        }
    }
}

/// Parse "additional skills equal to N + ..." from skill_proficiency entries.
fn extract_additional_skill_count(doc: &Document) -> (r: u8)
    ensures
        r == additional_count(array_items(*doc, "skill_proficiency"@)),
{
    let arr = match array_items_exec(doc, "skill_proficiency") {
        Some(a) => a,
        None => return 0,
    };
    let mut i: usize = 0;
    assert(arr@.skip(0) =~= arr@);
    while i < arr.len()
        invariant
            i <= arr@.len(),
            additional_count(arr@.skip(i as int)) == additional_count(arr@),
            arr@ == array_items(*doc, "skill_proficiency"@),
        decreases arr@.len() - i,
    {
        assert(arr@.skip(i as int)[0] == arr@[i as int]);
        assert(arr@.skip(i as int).drop_first() =~= arr@.skip(i + 1));
        match arr[i].as_str() {
            Some(s) => {
                let lower = to_lowercase(s);
                if contains(lower.as_str(), "additional") {
                    let lv = chars_of(lower.as_str());
                    match first_number_exec(&lv) {
                        Some(n) => {
                            assert(value_str(arr@.skip(i as int)[0]) == Some(s@));
                            assert(additional_count(arr@.skip(i as int)) == n);
                            return n;
                        },
                        None => {},
                    }
                }
            },
            None => {},
        }
        i = i + 1;
    }
    0
}

/// What an attack proficiency entry trains: 0 unarmed, 1 simple, 2 martial, 3 nothing.
pub open spec fn attack_kind(s: Seq<char>) -> int {
    let l = lowercase(s);
    if has_infix(l, "unarmed"@) {
        0
    } else if has_infix(l, "simple"@) {
        1
    } else if has_infix(l, "martial"@) {
        2
    } else {
        3
    }
}

/// What a defense proficiency entry trains: 0 unarmored, 1 light, 2 medium, 3 heavy,
/// 4 nothing.
pub open spec fn defense_kind(s: Seq<char>) -> int {
    let l = lowercase(s);
    if has_infix(l, "unarmored"@) {
        0
    } else if has_infix(l, "light"@) {
        1
    } else if has_infix(l, "medium"@) {
        2
    } else if has_infix(l, "heavy"@) {
        3
    } else {
        4
    }
}

/// A string value with attack kind `k`.
pub open spec fn item_attack(v: Value, k: int) -> bool {
    match value_str(v) {
        Some(s) => attack_kind(s) == k,
        None => false,
    }
}

/// A string value with defense kind `k`.
pub open spec fn item_defense(v: Value, k: int) -> bool {
    match value_str(v) {
        Some(s) => defense_kind(s) == k,
        None => false,
    }
}

/// Some string item has attack kind `k`.
pub open spec fn trains_attack(items: Seq<Value>, k: int) -> bool {
    exists|i: int| 0 <= i < items.len() && item_attack(#[trigger] items[i], k)
}

/// Some string item has defense kind `k`.
pub open spec fn trains_defense(items: Seq<Value>, k: int) -> bool {
    exists|i: int| 0 <= i < items.len() && item_defense(#[trigger] items[i], k)
}

/// Trained when the condition holds, else Untrained.
pub open spec fn trained_if(b: bool) -> Rank {
    if b {
        Rank::Trained
    } else {
        Rank::Untrained
    }
}

fn attack_kind_exec(s: &str) -> (r: u8)
    ensures
        r == attack_kind(s@),
{
    let lower = to_lowercase(s);
    let l = lower.as_str();
    if contains(l, "unarmed") {
        0
    } else if contains(l, "simple") {
        1
    } else if contains(l, "martial") {
        2
    } else {
        3
    }
}

fn defense_kind_exec(s: &str) -> (r: u8)
    ensures
        r == defense_kind(s@),
{
    let lower = to_lowercase(s);
    let l = lower.as_str();
    if contains(l, "unarmored") {
        0
    } else if contains(l, "light") {
        1
    } else if contains(l, "medium") {
        2
    } else if contains(l, "heavy") {
        3
    } else {
        4
    }
}

/// Training over a prefix extended by one item.
proof fn lemma_trains_step(items: Seq<Value>, i: int)
    requires
        0 <= i < items.len(),
    ensures
        forall|k: int|
            #![trigger trains_attack(items.take(i + 1), k)]
            trains_attack(items.take(i + 1), k) == (trains_attack(items.take(i), k) || item_attack(
                items[i],
                k,
            )),
        forall|k: int|
            #![trigger trains_defense(items.take(i + 1), k)]
            trains_defense(items.take(i + 1), k) == (trains_defense(items.take(i), k)
                || item_defense(items[i], k)),
{
    let pre = items.take(i);
    let post = items.take(i + 1);
    assert forall|j: int| 0 <= j < i implies #[trigger] post[j] == pre[j] by {}
    assert(post[i] == items[i]);
    assert forall|k: int| #[trigger] trains_attack(post, k) == (trains_attack(pre, k) || item_attack(items[i], k)) by {
        if trains_attack(post, k) {
            let j = choose|j: int| 0 <= j < post.len() && item_attack(#[trigger] post[j], k);
            if j < i {
                assert(pre[j] == post[j]);
            }
        }
        if trains_attack(pre, k) {
            let j = choose|j: int| 0 <= j < pre.len() && item_attack(#[trigger] pre[j], k);
            assert(post[j] == pre[j]);
        }
    }
    assert forall|k: int| #[trigger] trains_defense(post, k) == (trains_defense(pre, k) || item_defense(items[i], k)) by {
        if trains_defense(post, k) {
            let j = choose|j: int| 0 <= j < post.len() && item_defense(#[trigger] post[j], k);
            if j < i {
                assert(pre[j] == post[j]);
            }
        }
        if trains_defense(pre, k) {
            let j = choose|j: int| 0 <= j < pre.len() && item_defense(#[trigger] pre[j], k);
            assert(post[j] == pre[j]);
        }
    }
}

/// Which attack kinds some entry of `items` trains.
fn attack_training(items: &Vec<Value>) -> (r: (bool, bool, bool))
    ensures
        r.0 == trains_attack(items@, 0),
        r.1 == trains_attack(items@, 1),
        r.2 == trains_attack(items@, 2),
{
    let mut u = false;
    let mut si = false;
    let mut m = false;
    let mut i: usize = 0;
    while i < items.len()
        invariant
            i <= items@.len(),
            u == trains_attack(items@.take(i as int), 0),
            si == trains_attack(items@.take(i as int), 1),
            m == trains_attack(items@.take(i as int), 2),
        decreases items@.len() - i,
    {
        proof {
            lemma_trains_step(items@, i as int);
        }
        match items[i].as_str() {
            Some(s) => {
                let k = attack_kind_exec(s);
                if k == 0 {
                    u = true;
                } else if k == 1 {
                    si = true;
                } else if k == 2 {
                    m = true;
                }
            },
            None => {},
        }
        assert(u == trains_attack(items@.take(i + 1), 0));
        assert(si == trains_attack(items@.take(i + 1), 1));
        assert(m == trains_attack(items@.take(i + 1), 2));
        i = i + 1;
    }
    assert(items@.take(items@.len() as int) =~= items@);
    (u, si, m)
}

/// Which defense kinds some entry of `items` trains.
fn defense_training(items: &Vec<Value>) -> (r: (bool, bool, bool, bool))
    ensures
        r.0 == trains_defense(items@, 0),
        r.1 == trains_defense(items@, 1),
        r.2 == trains_defense(items@, 2),
        r.3 == trains_defense(items@, 3),
{
    let mut un = false;
    let mut li = false;
    let mut me = false;
    let mut he = false;
    let mut i: usize = 0;
    while i < items.len()
        invariant
            i <= items@.len(),
            un == trains_defense(items@.take(i as int), 0),
            li == trains_defense(items@.take(i as int), 1),
            me == trains_defense(items@.take(i as int), 2),
            he == trains_defense(items@.take(i as int), 3),
        decreases items@.len() - i,
    {
        proof {
            lemma_trains_step(items@, i as int);
        }
        match items[i].as_str() {
            Some(s) => {
                let k = defense_kind_exec(s);
                if k == 0 {
                    un = true;
                } else if k == 1 {
                    li = true;
                } else if k == 2 {
                    me = true;
                } else if k == 3 {
                    he = true;
                }
            },
            None => {},
        }
        assert(un == trains_defense(items@.take(i + 1), 0));
        assert(li == trains_defense(items@.take(i + 1), 1));
        assert(me == trains_defense(items@.take(i + 1), 2));
        assert(he == trains_defense(items@.take(i + 1), 3));
        i = i + 1;
    }
    assert(items@.take(items@.len() as int) =~= items@);
    (un, li, me, he)
}

// ---------------------------------------------------------------------------
// Class data
// ---------------------------------------------------------------------------

/// Several fixed key abilities are offered as one free choice: no fixed boost then.
pub open spec fn class_boost_fixed(fixed: Seq<Ability>) -> Seq<Ability> {
    if fixed.len() > 1 {
        Seq::empty()
    } else {
        fixed
    }
}

/// Several fixed key abilities are offered as one free choice: one free boost then.
pub open spec fn class_boost_free(fixed: Seq<Ability>, free: nat) -> nat {
    if fixed.len() > 1 {
        1
    } else {
        free
    }
}

/// The tables of the markdown body, when there is one.
pub open spec fn markdown_tables(doc: Document) -> Seq<Table> {
    if doc.markdown is Some {
        doc.tables@
    } else {
        Seq::empty()
    }
}

/// Features of the last class feature table.
pub open spec fn tables_features(ts: Seq<Table>) -> Seq<(Seq<char>, u8, bool)>
    decreases ts.len(),
{
    if ts.len() == 0 {
        Seq::empty()
    } else if is_feature_table_spec(strs(ts.last().headers@)) {
        table_features(rows_view(ts.last().rows@))
    } else {
        tables_features(ts.drop_last())
    }
}

/// Slot cells of the last spell table that is not a feature table.
pub open spec fn tables_slots(ts: Seq<Table>) -> Seq<Seq<Seq<char>>>
    decreases ts.len(),
{
    if ts.len() == 0 {
        Seq::empty()
    } else if !is_feature_table_spec(strs(ts.last().headers@)) && is_spell_table_spec(
        strs(ts.last().headers@),
    ) {
        table_slots(rows_view(ts.last().rows@))
    } else {
        tables_slots(ts.drop_last())
    }
}

/// Class features: from the body's feature table, else from the JSON content, else
/// from the plain text (each used when the one before gives none).
pub open spec fn class_features_spec(doc: Document) -> Seq<(Seq<char>, u8, bool)> {
    let f = tables_features(markdown_tables(doc));
    if f.len() > 0 {
        f
    } else {
        let j = class_json_features(doc);
        if j.len() > 0 {
            j
        } else {
            text_features(doc)
        }
    }
}

/// The first string of a list, if any.
pub open spec fn first_of(v: Seq<Seq<char>>) -> Option<Seq<char>> {
    if v.len() > 0 {
        Some(v[0])
    } else {
        None
    }
}

/// A rank field, Untrained when absent or unreadable.
pub open spec fn rank_or_untrained(doc: Document, key: Seq<char>) -> Rank {
    match rank_field(doc, key) {
        Some(r) => r,
        None => Rank::Untrained,
    }
}

fn first_string(v: &Vec<String>) -> (r: Option<String>)
    ensures
        opt_str(r) == first_of(strs(v@)),
{
    if v.len() > 0 {
        Some(owned(v[0].as_str()))
    } else {
        None
    }
}

fn rank_or_untrained_exec(doc: &Document, key: &str) -> (r: Rank)
    ensures
        r == rank_or_untrained(*doc, key@),
{
    match extract_rank_field(doc, key) {
        Some(r) => r,
        None => Rank::Untrained,
    }
}

fn trained_if_exec(b: bool) -> (r: Rank)
    ensures
        r == trained_if(b),
{
    if b {
        Rank::Trained
    } else {
        Rank::Untrained
    }
}

fn empty_items() -> (r: Vec<Value>)
    ensures
        r@.len() == 0,
{
    Vec::new()
}

fn features_and_slots(ts: &Vec<Table>) -> (r: (Vec<ClassFeatureEntry>, Vec<Vec<String>>))
    ensures
        features_view(r.0@) == tables_features(ts@),
        rows_view(r.1@) == tables_slots(ts@),
{
    let mut features: Vec<ClassFeatureEntry> = Vec::new();
    let mut slots: Vec<Vec<String>> = Vec::new();
    let mut i: usize = 0;
    assert(features_view(features@) =~= tables_features(ts@.take(0)));
    assert(rows_view(slots@) =~= tables_slots(ts@.take(0)));
    while i < ts.len()
        invariant
            i <= ts@.len(),
            features_view(features@) == tables_features(ts@.take(i as int)),
            rows_view(slots@) == tables_slots(ts@.take(i as int)),
        decreases ts@.len() - i,
    {
        assert(ts@.take(i + 1).drop_last() =~= ts@.take(i as int));
        assert(ts@.take(i + 1).last() == ts@[i as int]);
        let t = &ts[i];
        if is_feature_table(&t.headers) {
            features = parse_feature_table_rows(&t.rows);
        } else if is_spell_table(&t.headers) {
            slots = parse_spell_table(&t.rows);
        }
        i = i + 1;
    }
    assert(ts@.take(ts@.len() as int) =~= ts@);
    (features, slots)
}

/// `r` is the class data read from `doc`.
pub open spec fn class_data_of(r: ClassData, doc: Document) -> bool {
    &&& r.hp == (match field_u64(doc, "hp"@) {
            Some(n) => n,
            None => 0
        }) as u32
    &&& opt_str(r.key_ability) == first_of(strs(doc.attribute@))
    &&& r.boost_spec.fixed@ == class_boost_fixed(fixed_abilities(strs(doc.attribute@)))
    &&& r.boost_spec.free == class_boost_free(
            fixed_abilities(strs(doc.attribute@)),
            free_count(strs(doc.attribute@))
        )
    &&& r.boost_spec.flaws@.len() == 0
    &&& r.perception == rank_or_untrained(doc, "perception_proficiency"@)
    &&& r.fortitude == rank_or_untrained(doc, "fortitude_proficiency"@)
    &&& r.reflex == rank_or_untrained(doc, "reflex_proficiency"@)
    &&& r.will == rank_or_untrained(doc, "will_proficiency"@)
    &&& r.unarmed == trained_if(trains_attack(array_items(doc, "attack_proficiency"@), 0))
    &&& r.simple_weapons == trained_if(trains_attack(array_items(doc, "attack_proficiency"@), 1))
    &&& r.martial_weapons == trained_if(trains_attack(array_items(doc, "attack_proficiency"@), 2))
    &&& r.unarmored == trained_if(trains_defense(array_items(doc, "defense_proficiency"@), 0))
    &&& r.light_armor == trained_if(trains_defense(array_items(doc, "defense_proficiency"@), 1))
    &&& r.medium_armor == trained_if(trains_defense(array_items(doc, "defense_proficiency"@), 2))
    &&& r.heavy_armor == trained_if(trains_defense(array_items(doc, "defense_proficiency"@), 3))
    &&& strs(r.granted_skills@) == class_skills(array_items(doc, "skill_proficiency"@))
    &&& r.additional_skill_count == additional_count(array_items(doc, "skill_proficiency"@))
    &&& advances_view(r.proficiency_advances@) == (match opt_str(doc.name) {
            Some(n) => class_table(lowercase(n)),
            None => Seq::empty()
        })
    &&& opt_str(r.subclass_category) == (match opt_str(doc.name) {
            Some(n) => subclass_category_lower(lowercase(n)),
            None => None
        })
    &&& features_view(r.class_features@) == class_features_spec(doc)
    &&& rows_view(r.spell_slots@) == tables_slots(markdown_tables(doc))
    &&& opt_str(r.tradition) == first_of(strs(doc.tradition@))
    &&& opt_str(r.casting_ability) == (if doc.tradition@.len() == 0 {
            None
        } else {
            first_of(strs(doc.attribute@))
        })
}

/// Extract class HP, key ability, proficiencies, granted skills, features and spell
/// slots from a class document.
pub fn extract_class_data(doc: &Document) -> (r: ClassData)
    requires
        free_count(strs(doc.attribute@)) <= 255,
    ensures
        class_data_of(r, *doc),
{
    let hp: u64 = match doc.field_u64("hp") {
        Some(n) => n,
        None => 0,
    };
    let key_ability = first_string(&doc.attribute);
    // Class key ability boost spec
    let (mut fixed, mut free) = attribute_boosts(&doc.attribute);
    // Multiple fixed abilities: treat as 1 free choice among them
    if fixed.len() > 1 {
        free = 1;
        fixed = Vec::new();
    }
    let spec = BoostSpec { fixed, free, flaws: Vec::new() };
    let attacks = match array_items_exec(doc, "attack_proficiency") {
        Some(a) => attack_training(a),
        None => attack_training(&empty_items()),
    };
    let defenses = match array_items_exec(doc, "defense_proficiency") {
        Some(a) => defense_training(a),
        None => defense_training(&empty_items()),
    };
    let (proficiency_advances, subclass_category) = match &doc.name {
        Some(name) => (
            class_proficiency_advances(name.as_str()),
            match subclass_category(name.as_str()) {
                Some(c) => Some(owned(c)),
                None => None,
            },
        ),
        None => {
            let v: Vec<crate::build::mechanics::proficiency::ProficiencyAdvance> = Vec::new();
            assert(advances_view(v@) =~= Seq::<(u8, Seq<char>, Rank)>::empty());
            (v, None)
        },
    };
    // Class features and spell slots from the body's tables; fall back on the JSON
    // content, then on the text.
    let (table_feats, spell_slots) = match &doc.markdown {
        Some(_) => features_and_slots(&doc.tables),
        None => {
            let f: Vec<ClassFeatureEntry> = Vec::new();
            let sl: Vec<Vec<String>> = Vec::new();
            assert(features_view(f@) =~= Seq::<(Seq<char>, u8, bool)>::empty());
            assert(rows_view(sl@) =~= Seq::<Seq<Seq<char>>>::empty());
            (f, sl)
        },
    };
    let class_features = if table_feats.len() > 0 {
        table_feats
    } else {
        let j = class_features_from_json(doc);
        if j.len() > 0 {
            j
        } else {
            class_features_from_text(doc)
        }
    };
    let tradition = first_string(&doc.tradition);
    let casting_ability = if doc.tradition.len() == 0 {
        None
    } else {
        first_string(&doc.attribute)
    };
    ClassData {
        hp: hp as u32,
        key_ability,
        boost_spec: spec,
        perception: rank_or_untrained_exec(doc, "perception_proficiency"),
        fortitude: rank_or_untrained_exec(doc, "fortitude_proficiency"),
        reflex: rank_or_untrained_exec(doc, "reflex_proficiency"),
        will: rank_or_untrained_exec(doc, "will_proficiency"),
        unarmored: trained_if_exec(defenses.0),
        light_armor: trained_if_exec(defenses.1),
        medium_armor: trained_if_exec(defenses.2),
        heavy_armor: trained_if_exec(defenses.3),
        simple_weapons: trained_if_exec(attacks.1),
        martial_weapons: trained_if_exec(attacks.2),
        unarmed: trained_if_exec(attacks.0),
        granted_skills: extract_class_skill_grants(doc),
        proficiency_advances,
        subclass_category,
        class_features,
        additional_skill_count: extract_additional_skill_count(doc),
        spell_slots,
        tradition,
        casting_ability,
    }
}

} // verus!
