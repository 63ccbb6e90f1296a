use waybuilder::build::commands::level_change_choices;
use waybuilder::build::choices::BuildChoices;
use waybuilder::build::maps::{LevelMap, NameMap};
use waybuilder::build::rules::abilities::{add_boost, clear_source, count_for_source, has_boost};
use waybuilder::model::abilities::{Abilities, Ability};
use waybuilder::model::equipment::{ResilientRune, StrikingRune};
use waybuilder::model::proficiencies::{Proficiencies, Rank};
use waybuilder::ui::app::{DetailTab, Focus};
use waybuilder::ui::modal::selection::SelectionModal;
use waybuilder::ui::modal::text_input::TextInputModal;

#[test]
fn name_map_reads_back_what_was_stored() {
    let mut m: NameMap<String> = NameMap::new();
    m.insert("b".to_string(), "two".to_string());
    m.insert("a".to_string(), "one".to_string());
    m.insert("b".to_string(), "deux".to_string());
    assert_eq!(m.get("b").map(|s| s.as_str()), Some("deux"));
    assert_eq!(m.get("a").map(|s| s.as_str()), Some("one"));
    assert_eq!(m.len(), 2);
    m.remove("b");
    assert!(m.get("b").is_none());
    assert_eq!(m.get("a").map(|s| s.as_str()), Some("one"));
}

#[test]
fn level_map_reads_back_what_was_stored() {
    let mut m: LevelMap<String> = LevelMap::new();
    m.insert(5, "five".to_string());
    m.insert(1, "one".to_string());
    m.insert(5, "cinq".to_string());
    assert_eq!(m.get(5).map(|s| s.as_str()), Some("cinq"));
    assert_eq!(m.get(1).map(|s| s.as_str()), Some("one"));
    assert!(m.get(3).is_none());
    m.remove(1);
    assert!(m.get(1).is_none());
    assert_eq!(m.len(), 1);
}

#[test]
fn adding_a_boost_twice_adds_it_once() {
    let mut a = Abilities::new();
    add_boost(&mut a, "ancestry", Ability::Strength);
    add_boost(&mut a, "ancestry", Ability::Strength);
    assert_eq!(a.boosts.len(), 1);
    assert!(has_boost(&a, "ancestry", Ability::Strength));
    assert!(!has_boost(&a, "class", Ability::Strength));
}

#[test]
fn clearing_a_source_removes_only_its_entries() {
    let mut a = Abilities::new();
    add_boost(&mut a, "ancestry", Ability::Strength);
    add_boost(&mut a, "class", Ability::Dexterity);
    add_boost(&mut a, "ancestry", Ability::Wisdom);
    clear_source(&mut a, "ancestry");
    assert_eq!(count_for_source(&a, "ancestry"), 0);
    assert_eq!(count_for_source(&a, "class"), 1);
    assert!(has_boost(&a, "class", Ability::Dexterity));
}

#[test]
fn training_never_lowers_a_rank() {
    let mut p = Proficiencies::new();
    p.train_skill("Arcana", Rank::Expert);
    p.train_skill("arcana", Rank::Trained);
    assert_eq!(p.skill_rank("Arcana"), Rank::Expert);
    p.train_skill("Arcana", Rank::Expert);
    assert_eq!(p.skills.len(), 1);
    assert_eq!(p.skill_rank("Stealth"), Rank::Untrained);
}

#[test]
fn increasing_a_skill_raises_it_one_rank() {
    let mut p = Proficiencies::new();
    p.train_skill("Stealth", Rank::Master);
    assert!(p.increase_skill("Stealth"));
    assert_eq!(p.skill_rank("Stealth"), Rank::Legendary);
    assert!(!p.increase_skill("Stealth"));
    assert!(!p.increase_skill("Nature"));
}

#[test]
fn tab_cycles_the_focus_and_tabs_round_trip() {
    let f = Focus::BuildSelector;
    assert_eq!(f.next().next().next(), f);
    assert_ne!(f.next(), f);
    for t in [DetailTab::Equipment, DetailTab::Spells, DetailTab::Skills, DetailTab::Feats] {
        assert_eq!(t.next().prev(), t);
        assert_eq!(t.prev().next(), t);
        assert_eq!(t.next().next().next().next(), t);
    }
}

#[test]
fn rune_steps_round_trip() {
    for s in [StrikingRune::NoRune, StrikingRune::Striking, StrikingRune::Greater, StrikingRune::Major] {
        assert_eq!(s.next().prev(), s);
        assert_eq!(s.prev().next(), s);
    }
    for r in [ResilientRune::NoRune, ResilientRune::Resilient, ResilientRune::Greater, ResilientRune::Major] {
        assert_eq!(r.next().prev(), r);
    }
}

#[test]
fn backspace_undoes_typing() {
    let mut m = TextInputModal::new("Rename Character", "Name:", "Bo");
    m.type_char('b');
    assert_eq!(m.value, "Bob");
    m.backspace();
    assert_eq!(m.value, "Bo");
    let mut s = SelectionModal::new("Select Ancestry");
    s.type_char('e');
    s.type_char('l');
    s.backspace();
    assert_eq!(s.filter, "e");
    assert_eq!(s.cursor, 0);
}

#[test]
fn level_change_stays_between_1_and_20() {
    let mut c = BuildChoices::new("Test");
    assert_eq!(level_change_choices(&mut c, -1), None);
    assert_eq!(c.level, 1);
    for _ in 0..25 {
        level_change_choices(&mut c, 1);
    }
    assert_eq!(c.level, 20);
    assert_eq!(level_change_choices(&mut c, 1), None);
}

#[test]
fn lowering_the_level_drops_later_skill_increases() {
    let mut c = BuildChoices::new("Test");
    for _ in 0..4 {
        level_change_choices(&mut c, 1);
    }
    assert_eq!(c.level, 5);
    c.skill_increases.insert(3, "Arcana".to_string());
    c.skill_increases.insert(5, "Stealth".to_string());
    assert_eq!(level_change_choices(&mut c, -1), Some(4));
    assert!(c.skill_increases.get(5).is_none());
    assert_eq!(c.skill_increases.get(3).map(|s| s.as_str()), Some("Arcana"));
}
