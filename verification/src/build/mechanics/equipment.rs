//! Base statistics of weapons, armor and shields read from item documents.
use vstd::prelude::*;
use crate::document::{Document, field_i64, field_str, field_u64, first_str, string_array};
use crate::model::equipment::{Armor, ResilientRune, Shield, StrikingRune, Weapon};
use crate::text::{chars_of, opt_str, owned, push_char, strs};

verus! {

/// The name of a document, or empty.
pub open spec fn doc_name(doc: Document) -> Seq<char> {
    match opt_str(doc.name) {
        Some(n) => n,
        None => Seq::empty(),
    }
}

/// A string field, or `default` when absent.
pub open spec fn str_or(doc: Document, key: Seq<char>, default: Seq<char>) -> Seq<char> {
    match field_str(doc, key) {
        Some(s) => s,
        None => default,
    }
}

/// An unsigned field, or `default` when absent.
pub open spec fn u64_or(doc: Document, key: Seq<char>, default: u64) -> u64 {
    match field_u64(doc, key) {
        Some(n) => n,
        None => default,
    }
}

/// A signed field, or `default` when absent.
pub open spec fn i64_or(doc: Document, key: Seq<char>, default: i64) -> i64 {
    match field_i64(doc, key) {
        Some(n) => n,
        None => default,
    }
}

/// The damage type letter: the first character of the first damage type, or "B".
pub open spec fn damage_letter(doc: Document) -> Seq<char> {
    match first_str(doc, "damage_type"@) {
        Some(s) => if s.len() > 0 {
            seq![s[0]]
        } else {
            seq!['B']
        },
        None => seq!['B'],
    }
}

fn name_of(doc: &Document) -> (r: String)
    ensures
        r@ == doc_name(*doc),
{
    match &doc.name {
        Some(n) => owned(n.as_str()),
        None => String::new(),
    }
}

fn str_or_exec(doc: &Document, key: &str, default: &str) -> (r: String)
    ensures
        r@ == str_or(*doc, key@, default@),
{
    match doc.field_str(key) {
        Some(s) => s,
        None => owned(default),
    }
}

/// `r` is the weapon read from `doc`.
pub open spec fn weapon_of(r: Weapon, doc: Document) -> bool {
    &&& r.name@ == doc_name(doc)
    &&& r.potency == 0
    &&& r.striking == StrikingRune::NoRune
    &&& r.property_runes@.len() == 0
    &&& r.material is None
    &&& r.damage_die == u64_or(doc, "damage_die"@, 6) as u8
    &&& r.damage_type@ == damage_letter(doc)
    &&& r.weapon_category@ == str_or(doc, "weapon_category"@, "Simple"@)
    &&& r.weapon_group@ == str_or(doc, "weapon_group"@, ""@)
    &&& r.weapon_type@ == str_or(doc, "weapon_type"@, "Melee"@)
    &&& r.hands@ == str_or(doc, "hands"@, "1"@)
    &&& strs(r.traits@) == string_array(doc, "trait_raw"@)
    &&& r.range == u64_or(doc, "range"@, 0) as u32
}

/// Extract weapon base stats from a weapon document.
pub fn extract_weapon(doc: &Document) -> (r: Weapon)
    ensures
        weapon_of(r, *doc),
{
    let name = name_of(doc);
    let damage_die: u64 = match doc.field_u64("damage_die") {
        Some(n) => n,
        None => 6,
    };
    // damage_type is an array like ["Slashing","Piercing"]; take the first letter
    let mut damage_type = String::new();
    match doc.first_str("damage_type") {
        Some(s) => {
            let cs = chars_of(s.as_str());
            if cs.len() > 0 {
                push_char(&mut damage_type, cs[0]);
            } else {
                push_char(&mut damage_type, 'B');
            }
        },
        None => {
            push_char(&mut damage_type, 'B');
        },
    }
    assert(damage_type@ =~= damage_letter(*doc));
    let weapon_category = str_or_exec(doc, "weapon_category", "Simple");
    let weapon_group = str_or_exec(doc, "weapon_group", "");
    let weapon_type = str_or_exec(doc, "weapon_type", "Melee");
    let hands = str_or_exec(doc, "hands", "1");
    let traits = doc.string_array("trait_raw");
    let range: u64 = match doc.field_u64("range") {
        Some(n) => n,
        None => 0,
    };
    Weapon {
        name,
        potency: 0,
        striking: StrikingRune::NoRune,
        property_runes: Vec::new(),
        material: None,
        damage_die: damage_die as u8,
        damage_type,
        weapon_category,
        weapon_group,
        weapon_type,
        hands,
        traits,
        range: range as u32,
    }
}

/// `r` is the armor read from `doc`.
pub open spec fn armor_of(r: Armor, doc: Document) -> bool {
    &&& r.name@ == doc_name(doc)
    &&& r.potency == 0
    &&& r.resilient == ResilientRune::NoRune
    &&& r.property_runes@.len() == 0
    &&& r.material is None
    &&& r.worn
    &&& r.ac_bonus == i64_or(doc, "ac"@, 0) as i32
    &&& r.dex_cap == (match field_i64(doc, "dex_cap"@) {
            Some(n) => Some(n as i32),
            None => None
        })
    &&& r.armor_category@ == str_or(doc, "armor_category"@, "Unarmored"@)
    &&& r.armor_group@ == str_or(doc, "armor_group"@, ""@)
    &&& r.check_penalty == i64_or(doc, "check_penalty"@, 0) as i32
    &&& r.speed_penalty == i64_or(doc, "speed_penalty"@, 0) as i32
    &&& r.strength == u64_or(doc, "strength"@, 0) as u32
}

/// Extract armor base stats from an armor document.
pub fn extract_armor(doc: &Document) -> (r: Armor)
    ensures
        armor_of(r, *doc),
{
    let name = name_of(doc);
    let ac: i64 = match doc.field_i64("ac") {
        Some(n) => n,
        None => 0,
    };
    let dex_cap: Option<i32> = match doc.field_i64("dex_cap") {
        Some(n) => Some(n as i32),
        None => None,
    };
    let armor_category = str_or_exec(doc, "armor_category", "Unarmored");
    let armor_group = str_or_exec(doc, "armor_group", "");
    let check_penalty: i64 = match doc.field_i64("check_penalty") {
        Some(n) => n,
        None => 0,
    };
    let speed_penalty: i64 = match doc.field_i64("speed_penalty") {
        Some(n) => n,
        None => 0,
    };
    let strength: u64 = match doc.field_u64("strength") {
        Some(n) => n,
        None => 0,
    };
    Armor {
        name,
        potency: 0,
        resilient: ResilientRune::NoRune,
        property_runes: Vec::new(),
        material: None,
        worn: true,
        ac_bonus: ac as i32,
        dex_cap,
        armor_category,
        armor_group,
        check_penalty: check_penalty as i32,
        speed_penalty: speed_penalty as i32,
        strength: strength as u32,
    }
}

/// `r` is the shield read from `doc`.
pub open spec fn shield_of(r: Shield, doc: Document) -> bool {
    &&& r.name@ == doc_name(doc)
    &&& r.potency == 0
    &&& r.resilient == ResilientRune::NoRune
    &&& r.property_runes@.len() == 0
    &&& !r.raised
    &&& r.ac_bonus == i64_or(doc, "ac"@, 2) as i32
    &&& r.hardness == i64_or(doc, "hardness"@, 0) as i32
    &&& r.hp == i64_or(doc, "hp"@, 0) as i32
}

/// Extract shield base stats from a shield document.
pub fn extract_shield(doc: &Document) -> (r: Shield)
    ensures
        shield_of(r, *doc),
{
    let name = name_of(doc);
    let ac: i64 = match doc.field_i64("ac") {
        Some(n) => n,
        None => 2,
    };
    let hardness: i64 = match doc.field_i64("hardness") {
        Some(n) => n,
        None => 0,
    };
    let hp: i64 = match doc.field_i64("hp") {
        Some(n) => n,
        None => 0,
    };
    Shield {
        name,
        potency: 0,
        resilient: ResilientRune::NoRune,
        property_runes: Vec::new(),
        raised: false,
        ac_bonus: ac as i32,
        hardness: hardness as i32,
        hp: hp as i32,
    }
}

} // verus!
