//! Ancestry data read from ancestry documents.
use vstd::prelude::*;
use crate::build::choices::AncestryData;
use crate::build::mechanics::boosts::{doc_flaws, extract_boost_spec, fixed_abilities, free_count};
use crate::document::{Document, field, field_u64, first_str, string_array, value_get, value_u64};
use crate::text::{opt_str, strs};

verus! {

/// Land speed: the `land` member of the `speed` field, else 25.
pub open spec fn land_speed(doc: Document) -> u64 {
    match field(doc, "speed"@) {
        Some(v) => match value_get(v, "land"@) {
            Some(l) => match value_u64(l) {
                Some(n) => n,
                None => 25,
            },
            None => 25,
        },
        None => 25,
    }
}

/// `r` is the ancestry data read from `doc`.
pub open spec fn ancestry_data_of(r: AncestryData, doc: Document) -> bool {
    &&& opt_str(r.size) == first_str(doc, "size"@)
    &&& r.speed == land_speed(doc) as u32
    &&& r.hp == (match field_u64(doc, "hp"@) {
            Some(n) => n,
            None => 0
        }) as u32
    &&& r.boost_spec.fixed@ == fixed_abilities(strs(doc.attribute@))
    &&& r.boost_spec.free == free_count(strs(doc.attribute@))
    &&& r.boost_spec.flaws@ == doc_flaws(doc)
    &&& strs(r.granted_languages@) == string_array(doc, "language"@)
}

/// Extract ancestry HP, size, speed, languages and boost spec from an ancestry document.
pub fn extract_ancestry_data(doc: &Document) -> (r: AncestryData)
    requires
        free_count(strs(doc.attribute@)) <= 255,
    ensures
        ancestry_data_of(r, *doc),
{
    let size = doc.first_str("size");
    let speed: u64 = match doc.field("speed") {
        Some(v) => match v.get("land") {
            Some(l) => match l.as_u64() {
                Some(n) => n,
                None => 25,
            },
            None => 25,
        },
        None => 25,
    };
    let hp: u64 = match doc.field_u64("hp") {
        Some(n) => n,
        None => 0,
    };
    let boost_spec = extract_boost_spec(doc);
    let granted_languages = doc.string_array("language");
    AncestryData { size, speed: speed as u32, hp: hp as u32, boost_spec, granted_languages }
}

} // verus!
