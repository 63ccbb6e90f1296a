use waybuilder::build::mechanics::proficiency::{
    parse_rank, try_extract_proficiency_advances, try_extract_proficiency_grants,
};
use waybuilder::model::proficiencies::Rank;
use waybuilder::model::types::Tradition;

#[test]
fn grants_in_ascii_text_are_read() {
    let g = try_extract_proficiency_grants("You are trained in Perception.").unwrap();
    assert_eq!(g.len(), 1);
    assert_eq!(g[0].target, "Perception");
    assert_eq!(g[0].rank, Rank::Trained);
}

#[test]
fn grants_are_read_at_the_lowercased_byte_offset() {
    // 'İ' lower-cases to two characters, one byte longer, so the target is read one
    // byte later in the text: past the 'X', which leaves an empty target.
    let g = try_extract_proficiency_grants("İ trained in X").unwrap();
    assert!(g.is_empty());
}

#[test]
fn grants_that_would_split_a_character_are_refused() {
    assert!(try_extract_proficiency_grants("İé trained in é").is_none());
}

#[test]
fn advances_in_ascii_text_are_read() {
    let a = try_extract_proficiency_advances("Your proficiency rank for Will increases to master.", 7).unwrap();
    assert_eq!(a.len(), 1);
    assert_eq!(a[0].target, "Will");
    assert_eq!(a[0].rank, Rank::Master);
    assert_eq!(a[0].level, 7);
}

#[test]
fn advances_that_would_split_a_character_are_refused() {
    assert!(try_extract_proficiency_advances("İé become expert in é", 3).is_none());
}

#[test]
fn parsers_ignore_ascii_case() {
    assert_eq!(parse_rank("LEGENDARY"), Some(Rank::Legendary));
    assert_eq!(parse_rank("legend"), None);
    assert_eq!(Tradition::parse("ARCANE"), Some(Tradition::Arcane));
    assert_eq!(Tradition::parse(Tradition::Primal.label()), Some(Tradition::Primal));
    assert_eq!(Tradition::parse("Elemental"), None);
    assert_eq!(Tradition::parse(""), None);
}
