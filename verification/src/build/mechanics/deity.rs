//! Deity data read from deity documents.
use vstd::prelude::*;
use crate::build::choices::DeityData;
use crate::document::{Document, field_str, first_str, string_array};
use crate::model::types::{
    DivineFont, Sanctification, font_from_lower, sanctification_from_lower,
};
use crate::text::{lowercase, opt_str, strs};

verus! {

/// The divine fonts named in a list, in order (unknown names skipped).
pub open spec fn fonts_named(names: Seq<Seq<char>>) -> Seq<DivineFont>
    decreases names.len(),
{
    if names.len() == 0 {
        Seq::empty()
    } else {
        fonts_named(names.drop_last()) + match font_from_lower(lowercase(names.last())) {
            Some(f) => seq![f],
            None => Seq::empty(),
        }
    }
}

/// The sanctifications named in a list, in order (unknown names skipped).
pub open spec fn sanctifications_named(names: Seq<Seq<char>>) -> Seq<Sanctification>
    decreases names.len(),
{
    if names.len() == 0 {
        Seq::empty()
    } else {
        sanctifications_named(names.drop_last()) + match sanctification_from_lower(
            lowercase(names.last()),
        ) {
            Some(f) => seq![f],
            None => Seq::empty(),
        }
    }
}

fn parse_fonts(names: &Vec<String>) -> (r: Vec<DivineFont>)
    ensures
        r@ == fonts_named(strs(names@)),
{
    let ghost sv = strs(names@);
    let mut out: Vec<DivineFont> = Vec::new();
    let mut i: usize = 0;
    while i < names.len()
        invariant
            i <= names@.len(),
            sv == strs(names@),
            out@ == fonts_named(sv.take(i as int)),
        decreases names@.len() - i,
    {
        assert(sv.take(i + 1).drop_last() =~= sv.take(i as int));
        match DivineFont::parse(names[i].as_str()) {
            Some(f) => {
                out.push(f);
            },
            None => {},
        }
        i = i + 1;
    }
    assert(sv.take(names@.len() as int) =~= sv);
    out
}

fn parse_sanctifications(names: &Vec<String>) -> (r: Vec<Sanctification>)
    ensures
        r@ == sanctifications_named(strs(names@)),
{
    let ghost sv = strs(names@);
    let mut out: Vec<Sanctification> = Vec::new();
    let mut i: usize = 0;
    while i < names.len()
        invariant
            i <= names@.len(),
            sv == strs(names@),
            out@ == sanctifications_named(sv.take(i as int)),
        decreases names@.len() - i,
    {
        assert(sv.take(i + 1).drop_last() =~= sv.take(i as int));
        match Sanctification::parse(names[i].as_str()) {
            Some(f) => {
                out.push(f);
            },
            None => {},
        }
        i = i + 1;
    }
    assert(sv.take(names@.len() as int) =~= sv);
    out
}

/// `r` is the deity data read from `doc`.
pub open spec fn deity_data_of(r: DeityData, doc: Document) -> bool {
    &&& strs(r.domains@) == string_array(doc, "domain"@)
    &&& strs(r.primary_domains@) == string_array(doc, "domain_primary"@)
    &&& r.divine_font@ == fonts_named(string_array(doc, "divine_font"@))
    &&& opt_str(r.favored_weapon) == first_str(doc, "favored_weapon"@)
    &&& opt_str(r.divine_skill) == first_str(doc, "skill"@)
    &&& r.sanctification@ == sanctifications_named(string_array(doc, "sanctification"@))
    &&& opt_str(r.edicts) == field_str(doc, "edict"@)
    &&& opt_str(r.anathema) == field_str(doc, "anathema"@)
    &&& strs(r.cleric_spells@) == string_array(doc, "cleric_spell"@)
}

/// Extract deity mechanical data from a deity document.
pub fn extract_deity_data(doc: &Document) -> (r: DeityData)
    ensures
        deity_data_of(r, *doc),
{
    let domains = doc.string_array("domain");
    let primary_domains = doc.string_array("domain_primary");
    let divine_font = parse_fonts(&doc.string_array("divine_font"));
    let favored_weapon = doc.first_str("favored_weapon");
    let divine_skill = doc.first_str("skill");
    let sanctification = parse_sanctifications(&doc.string_array("sanctification"));
    let edicts = doc.field_str("edict");
    let anathema = doc.field_str("anathema");
    let cleric_spells = doc.string_array("cleric_spell");
    DeityData {
        domains,
        primary_domains,
        divine_font,
        favored_weapon,
        divine_skill,
        sanctification,
        edicts,
        anathema,
        cleric_spells,
    }
}

} // verus!
