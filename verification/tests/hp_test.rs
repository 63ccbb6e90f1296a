use waybuilder::build::choices::{AncestryData, BuildChoices};
use waybuilder::build::recalculate::recalculate;
use waybuilder::build::rules::hp::calculate_hp;
use waybuilder::model::abilities::BoostSpec;
use waybuilder::model::abilities::{Ability, BoostSource};
use waybuilder::model::character::Character;

fn flaw(ability: Ability) -> BoostSource {
    BoostSource { source: "ancestry".into(), ability }
}

fn boost(ability: Ability) -> BoostSource {
    BoostSource { source: "background".into(), ability }
}

#[test]
fn hp_is_ancestry_plus_class_and_con_per_level() {
    let mut ch = Character::new("Brokk");
    ch.ancestry_hp = 10;
    ch.class_hp = 10;
    ch.level = 3;
    ch.abilities.boosts = vec![boost(Ability::Constitution), boost(Ability::Constitution)];
    // CON 14 => +2: 10 + (10 + 2) * 3
    assert_eq!(calculate_hp(&ch), 46);
}

#[test]
fn hp_per_level_is_not_floored() {
    let mut ch = Character::new("Elf");
    ch.ancestry_hp = 6;
    ch.class_hp = 0;
    ch.level = 2;
    ch.abilities.flaws = vec![flaw(Ability::Constitution)];
    // CON 8 => -1: 6 + (0 - 1) * 2
    assert_eq!(calculate_hp(&ch), 4);
}

#[test]
fn negative_hp_total_gives_zero() {
    let mut ch = Character::new("Frail");
    ch.ancestry_hp = 0;
    ch.class_hp = 0;
    ch.level = 3;
    ch.abilities.flaws = vec![flaw(Ability::Constitution)];
    assert_eq!(calculate_hp(&ch), 0);
}

#[test]
fn derived_hp_has_at_least_one_per_level() {
    let mut c = BuildChoices::new("Brokk");
    c.level = 3;
    c.ancestry_data = Some(AncestryData {
        size: None,
        speed: 25,
        hp: 8,
        boost_spec: BoostSpec::empty(),
        granted_languages: vec![],
    });
    // No class and CON +0: 8 + max(1, 0 + 0) * 3
    assert_eq!(recalculate(&c).hp_max, 11);
}
