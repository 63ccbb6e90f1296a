//! Ability names and boost specifications.
use vstd::prelude::*;
use crate::document::{Document, field, value_array, value_str};
use crate::model::abilities::{Ability, BoostSpec};
use crate::text::{all_ascii, ascii_lower, eq_ci, eq_ignore_ascii_case, lowercase, str_eq, strs, to_lowercase};

verus! {

/// The ability named by an already lower-cased full name or abbreviation.
pub open spec fn ability_from_lower(l: Seq<char>) -> Option<Ability> {
    if l == "strength"@ || l == "str"@ {
        Some(Ability::Strength)
    } else if l == "dexterity"@ || l == "dex"@ {
        Some(Ability::Dexterity)
    } else if l == "constitution"@ || l == "con"@ {
        Some(Ability::Constitution)
    } else if l == "intelligence"@ || l == "int"@ {
        Some(Ability::Intelligence)
    } else if l == "wisdom"@ || l == "wis"@ {
        Some(Ability::Wisdom)
    } else if l == "charisma"@ || l == "cha"@ {
        Some(Ability::Charisma)
    } else {
        None
    }
}

/// The ability named by `s` (full or abbreviated, any case).
pub open spec fn ability_named(s: Seq<char>) -> Option<Ability> {
    ability_from_lower(lowercase(s))
}

/// Parse an already lower-cased ability name.
pub fn parse_ability_lower(l: &str) -> (r: Option<Ability>)
    ensures
        r == ability_from_lower(l@),
{
    if str_eq(l, "strength") || str_eq(l, "str") {
        Some(Ability::Strength)
    } else if str_eq(l, "dexterity") || str_eq(l, "dex") {
        Some(Ability::Dexterity)
    } else if str_eq(l, "constitution") || str_eq(l, "con") {
        Some(Ability::Constitution)
    } else if str_eq(l, "intelligence") || str_eq(l, "int") {
        Some(Ability::Intelligence)
    } else if str_eq(l, "wisdom") || str_eq(l, "wis") {
        Some(Ability::Wisdom)
    } else if str_eq(l, "charisma") || str_eq(l, "cha") {
        Some(Ability::Charisma)
    } else {
        None
    }
}

/// Parse an ability name (full or abbreviated) to an `Ability`.
pub fn parse_ability(s: &str) -> (r: Option<Ability>)
    ensures
        r == ability_named(s@),
        all_ascii(s@) ==> r == ability_from_lower(ascii_lower(s@)),
{
    let l = to_lowercase(s);
    parse_ability_lower(l.as_str())
}


/// Abilities named by the attribute entries that are not "Free", in order.
pub open spec fn fixed_abilities(attrs: Seq<Seq<char>>) -> Seq<Ability>
    decreases attrs.len(),
{
    if attrs.len() == 0 {
        Seq::empty()
    } else {
        fixed_abilities(attrs.drop_last()) + if eq_ci(attrs.last(), "Free"@) {
            Seq::empty()
        } else {
            match ability_named(attrs.last()) {
                Some(a) => seq![a],
                None => Seq::empty(),
            }
        }
    }
}

/// Number of attribute entries equal to "Free" (ignoring ASCII case).
pub open spec fn free_count(attrs: Seq<Seq<char>>) -> nat
    decreases attrs.len(),
{
    if attrs.len() == 0 {
        0
    } else {
        free_count(attrs.drop_last()) + if eq_ci(attrs.last(), "Free"@) {
            1nat
        } else {
            0nat
        }
    }
}

/// Abilities named by the string items of an array, in order.
pub open spec fn item_abilities(items: Seq<crate::document::Value>) -> Seq<Ability>
    decreases items.len(),
{
    if items.len() == 0 {
        Seq::empty()
    } else {
        item_abilities(items.drop_last()) + match value_str(items.last()) {
            Some(s) => match ability_named(s) {
                Some(a) => seq![a],
                None => Seq::empty(),
            },
            None => Seq::empty(),
        }
    }
}

/// The flaws listed in a document's `attribute_flaw` field.
pub open spec fn doc_flaws(doc: Document) -> Seq<Ability> {
    match field(doc, "attribute_flaw"@) {
        Some(v) => match value_array(v) {
            Some(a) => item_abilities(a),
            None => Seq::empty(),
        },
        None => Seq::empty(),
    }
}

/// Fixed boosts and free boosts read from attribute entries.
pub fn attribute_boosts(attrs: &Vec<String>) -> (r: (Vec<Ability>, u8))
    requires
        free_count(strs(attrs@)) <= 255,
    ensures
        r.0@ == fixed_abilities(strs(attrs@)),
        r.1 == free_count(strs(attrs@)),
{
    let ghost sv = strs(attrs@);
    let mut fixed: Vec<Ability> = Vec::new();
    let mut free: u8 = 0;
    let mut i: usize = 0;
    proof {
        lemma_free_count_prefix(sv, 0);
    }
    while i < attrs.len()
        invariant
            i <= attrs@.len(),
            sv == strs(attrs@),
            free_count(sv) <= 255,
            fixed@ == fixed_abilities(sv.take(i as int)),
            free == free_count(sv.take(i as int)),
        decreases attrs@.len() - i,
    {
        assert(sv.take(i + 1).drop_last() =~= sv.take(i as int));
        assert(sv.take(i + 1).last() == attrs@[i as int]@);
        proof {
            lemma_free_count_prefix(sv, i + 1);
        }
        let attr = attrs[i].as_str();
        if eq_ignore_ascii_case(attr, "Free") {
            free = free + 1;
        } else {
            match parse_ability(attr) {
                Some(a) => {
                    fixed.push(a);
                },
                None => {},
            }
        }
        i = i + 1;
    }
    assert(sv.take(attrs@.len() as int) =~= sv);
    (fixed, free)
}

/// Counting "Free" entries over a prefix gives no more than over the whole.
pub proof fn lemma_free_count_prefix(s: Seq<Seq<char>>, k: int)
    requires
        0 <= k <= s.len(),
    ensures
        free_count(s.take(k)) <= free_count(s),
    decreases s.len() - k,
{
    if k < s.len() {
        lemma_free_count_prefix(s, k + 1);
        assert(s.take(k + 1).drop_last() =~= s.take(k));
    } else {
        assert(s.take(k) =~= s);
    }
}

/// Abilities named by the string items of an array.
pub fn item_abilities_exec(items: &Vec<crate::document::Value>) -> (r: Vec<Ability>)
    ensures
        r@ == item_abilities(items@),
{
    let mut out: Vec<Ability> = Vec::new();
    let mut i: usize = 0;
    while i < items.len()
        invariant
            i <= items@.len(),
            out@ == item_abilities(items@.take(i as int)),
        decreases items@.len() - i,
    {
        assert(items@.take(i + 1).drop_last() =~= items@.take(i as int));
        match items[i].as_str() {
            Some(s) => match parse_ability(s) {
                Some(a) => {
                    out.push(a);
                },
                None => {},
            },
            None => {},
        }
        i = i + 1;
    }
    assert(items@.take(items@.len() as int) =~= items@);
    out
}

/// Parse the ability boost spec of a document: the `attribute` entries give fixed
/// boosts and "Free" boosts, the `attribute_flaw` field the flaws.
pub fn extract_boost_spec(doc: &Document) -> (r: BoostSpec)
    requires
        free_count(strs(doc.attribute@)) <= 255,
    ensures
        r.fixed@ == fixed_abilities(strs(doc.attribute@)),
        r.free == free_count(strs(doc.attribute@)),
        r.flaws@ == doc_flaws(*doc),
{
    let (fixed, free) = attribute_boosts(&doc.attribute);
    let flaws = match doc.field("attribute_flaw") {
        Some(v) => match v.as_array() {
            Some(a) => item_abilities_exec(a),
            None => Vec::new(),
        },
        None => Vec::new(),
    };
    BoostSpec { fixed, free, flaws }
}

} // verus!
