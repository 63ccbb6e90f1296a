//! Map classes to their subclass document categories.
use vstd::prelude::*;
use crate::text::{all_ascii, ascii_lower, lowercase, str_eq, to_lowercase};

verus! {

/// The subclass category for an already lower-cased class name.
pub open spec fn subclass_category_lower(l: Seq<char>) -> Option<Seq<char>> {
    if l == "sorcerer"@ { Some("bloodline"@) }
    else if l == "champion"@ { Some("cause"@) }
    else if l == "cleric"@ { Some("doctrine"@) }
    else if l == "druid"@ { Some("druidic-order"@) }
    else if l == "wizard"@ { Some("arcane-school"@) }
    else if l == "barbarian"@ { Some("instinct"@) }
    else if l == "ranger"@ { Some("hunters-edge"@) }
    else if l == "rogue"@ { Some("racket"@) }
    else if l == "investigator"@ { Some("methodology"@) }
    else if l == "oracle"@ { Some("mystery"@) }
    else if l == "swashbuckler"@ { Some("style"@) }
    else if l == "witch"@ { Some("patron"@) }
    else if l == "magus"@ { Some("hybrid-study"@) }
    else if l == "summoner"@ { Some("eidolon"@) }
    else if l == "psychic"@ { Some("conscious-mind"@) }
    else if l == "thaumaturge"@ { Some("implement"@) }
    else if l == "gunslinger"@ { Some("way"@) }
    else if l == "inventor"@ { Some("innovation"@) }
    else if l == "kineticist"@ { Some("element"@) }
    else { None }
}

/// The subclass label for an already lower-cased class name.
pub open spec fn subclass_label_lower(l: Seq<char>) -> Seq<char> {
    if l == "sorcerer"@ { "Bloodline"@ }
    else if l == "champion"@ { "Cause"@ }
    else if l == "cleric"@ { "Doctrine"@ }
    else if l == "druid"@ { "Druidic Order"@ }
    else if l == "wizard"@ { "Arcane School"@ }
    else if l == "barbarian"@ { "Instinct"@ }
    else if l == "ranger"@ { "Hunter's Edge"@ }
    else if l == "rogue"@ { "Racket"@ }
    else if l == "investigator"@ { "Methodology"@ }
    else if l == "oracle"@ { "Mystery"@ }
    else if l == "swashbuckler"@ { "Style"@ }
    else if l == "witch"@ { "Patron"@ }
    else if l == "magus"@ { "Hybrid Study"@ }
    else if l == "summoner"@ { "Eidolon"@ }
    else if l == "psychic"@ { "Conscious Mind"@ }
    else if l == "thaumaturge"@ { "Implement"@ }
    else if l == "gunslinger"@ { "Way"@ }
    else if l == "inventor"@ { "Innovation"@ }
    else if l == "kineticist"@ { "Element"@ }
    else { "Subclass"@ }
}

/// Classes that choose a deity: champion, cleric, oracle (lower-cased name).
pub open spec fn requires_deity_lower(l: Seq<char>) -> bool {
    l == "champion"@ || l == "cleric"@ || l == "oracle"@
}

/// Return the document search category for a class's subclass, if any.
pub fn subclass_category(class_name: &str) -> (r: Option<&'static str>)
    ensures
        match r {
            Some(c) => subclass_category_lower(lowercase(class_name@)) == Some(c@),
            None => subclass_category_lower(lowercase(class_name@)) is None,
        },
        all_ascii(class_name@) ==> match r {
            Some(c) => subclass_category_lower(ascii_lower(class_name@)) == Some(c@),
            None => subclass_category_lower(ascii_lower(class_name@)) is None,
        },
{
    let l = to_lowercase(class_name);
    subclass_category_of_lower(l.as_str())
}

/// Subclass category for an already lower-cased class name.
pub fn subclass_category_of_lower(l: &str) -> (r: Option<&'static str>)
    ensures
        match r {
            Some(c) => subclass_category_lower(l@) == Some(c@),
            None => subclass_category_lower(l@) is None,
        },
{
    if str_eq(l, "sorcerer") { Some("bloodline") }
    else if str_eq(l, "champion") { Some("cause") }
    else if str_eq(l, "cleric") { Some("doctrine") }
    else if str_eq(l, "druid") { Some("druidic-order") }
    else if str_eq(l, "wizard") { Some("arcane-school") }
    else if str_eq(l, "barbarian") { Some("instinct") }
    else if str_eq(l, "ranger") { Some("hunters-edge") }
    else if str_eq(l, "rogue") { Some("racket") }
    else if str_eq(l, "investigator") { Some("methodology") }
    else if str_eq(l, "oracle") { Some("mystery") }
    else if str_eq(l, "swashbuckler") { Some("style") }
    else if str_eq(l, "witch") { Some("patron") }
    else if str_eq(l, "magus") { Some("hybrid-study") }
    else if str_eq(l, "summoner") { Some("eidolon") }
    else if str_eq(l, "psychic") { Some("conscious-mind") }
    else if str_eq(l, "thaumaturge") { Some("implement") }
    else if str_eq(l, "gunslinger") { Some("way") }
    else if str_eq(l, "inventor") { Some("innovation") }
    else if str_eq(l, "kineticist") { Some("element") }
    else { None }
}

/// Human-readable label for a subclass slot.
pub fn subclass_label(class_name: &str) -> (r: &'static str)
    ensures
        r@ == subclass_label_lower(lowercase(class_name@)),
        all_ascii(class_name@) ==> r@ == subclass_label_lower(ascii_lower(class_name@)),
{
    let l = to_lowercase(class_name);
    subclass_label_of_lower(l.as_str())
}

/// Subclass label for an already lower-cased class name.
pub fn subclass_label_of_lower(l: &str) -> (r: &'static str)
    ensures
        r@ == subclass_label_lower(l@),
{
    if str_eq(l, "sorcerer") { "Bloodline" }
    else if str_eq(l, "champion") { "Cause" }
    else if str_eq(l, "cleric") { "Doctrine" }
    else if str_eq(l, "druid") { "Druidic Order" }
    else if str_eq(l, "wizard") { "Arcane School" }
    else if str_eq(l, "barbarian") { "Instinct" }
    else if str_eq(l, "ranger") { "Hunter's Edge" }
    else if str_eq(l, "rogue") { "Racket" }
    else if str_eq(l, "investigator") { "Methodology" }
    else if str_eq(l, "oracle") { "Mystery" }
    else if str_eq(l, "swashbuckler") { "Style" }
    else if str_eq(l, "witch") { "Patron" }
    else if str_eq(l, "magus") { "Hybrid Study" }
    else if str_eq(l, "summoner") { "Eidolon" }
    else if str_eq(l, "psychic") { "Conscious Mind" }
    else if str_eq(l, "thaumaturge") { "Implement" }
    else if str_eq(l, "gunslinger") { "Way" }
    else if str_eq(l, "inventor") { "Innovation" }
    else if str_eq(l, "kineticist") { "Element" }
    else { "Subclass" }
}

/// Does this class require a deity selection?
pub fn requires_deity(class_name: &str) -> (r: bool)
    ensures
        r == requires_deity_lower(lowercase(class_name@)),
        all_ascii(class_name@) ==> r == requires_deity_lower(ascii_lower(class_name@)),
{
    let l = to_lowercase(class_name);
    str_eq(l.as_str(), "champion") || str_eq(l.as_str(), "cleric") || str_eq(l.as_str(), "oracle")
}

} // verus!
