use waybuilder::build::choices::{BuildChoices, ClassData, SpellSlotChoice};
use waybuilder::model::spell::SpellCaster;
use waybuilder::ui::app::{DetailTab, Focus};
use waybuilder::build::rules::abilities::add_boost;
use waybuilder::model::abilities::{Ability, BoostSpec};
use waybuilder::model::character::{Character, WeaponAttack};
use waybuilder::model::equipment::{Armor, Equipment, Item, Money, ResilientRune, StrikingRune, Weapon};
use waybuilder::model::feat::{FeatChoice, FeatType};
use waybuilder::model::proficiencies::Rank;
use waybuilder::ui::app::App;
use waybuilder::ui::modal::boosts::BoostModal;
use waybuilder::ui::sheet::{
    BoostMark, EquipKind, ListLine, SlotLook, SpellPanel, boost_total, combat_lines, domain_lines, equipment_lines,
    feats_in_order, group_marks, is_key_ability, list_lines, money_text, skill_ability, skill_lines, spell_panel,
    Rarity, rarity_of,
};

fn weapon(name: &str) -> Weapon {
    Weapon {
        name: name.to_string(),
        potency: 1,
        striking: StrikingRune::Striking,
        property_runes: vec![],
        material: None,
        damage_die: 8,
        damage_type: "S".to_string(),
        weapon_category: "Martial".to_string(),
        weapon_group: "Sword".to_string(),
        weapon_type: "Melee".to_string(),
        hands: "1".to_string(),
        traits: vec![],
        range: 0,
    }
}

fn armor(name: &str, worn: bool) -> Armor {
    Armor {
        name: name.to_string(),
        potency: 0,
        resilient: ResilientRune::NoRune,
        property_runes: vec![],
        material: None,
        worn,
        ac_bonus: 2,
        dex_cap: Some(3),
        armor_category: "Light".to_string(),
        armor_group: "Leather".to_string(),
        check_penalty: -1,
        speed_penalty: 0,
        strength: 10,
    }
}

#[test]
fn skills_are_keyed_to_their_abilities() {
    assert_eq!(skill_ability("Stealth"), Ability::Dexterity);
    assert_eq!(skill_ability("Athletics"), Ability::Strength);
    assert_eq!(skill_ability("Diplomacy"), Ability::Charisma);
    assert_eq!(skill_ability("Religion"), Ability::Wisdom);
    assert_eq!(skill_ability("Arcana"), Ability::Intelligence);
    assert_eq!(skill_ability("Warfare Lore"), Ability::Intelligence);
}

#[test]
fn skill_lines_list_trained_skills_then_lores() {
    let mut ch = Character::new("Test");
    ch.level = 3;
    add_boost(&mut ch.abilities, "a", Ability::Dexterity);
    ch.proficiencies.train_skill("Stealth", Rank::Expert);
    ch.proficiencies.train_skill("Arcana", Rank::Trained);
    ch.proficiencies.add_lore("Warfare");
    let lines = skill_lines(&ch);
    assert_eq!(lines.len(), 3);
    assert_eq!(lines[0].name, "Arcana");
    assert_eq!(lines[0].total, 0 + 2 + 3);
    assert_eq!(lines[1].name, "Stealth");
    assert_eq!(lines[1].rank, Rank::Expert);
    assert_eq!(lines[1].total, 1 + 4 + 3);
    assert_eq!(lines[2].name, "Warfare Lore");
    assert_eq!(lines[2].total, 0 + 2 + 3);
}

#[test]
fn combat_lines_skip_untrained() {
    let mut ch = Character::new("Test");
    ch.proficiencies.simple_weapons = Rank::Trained;
    ch.proficiencies.heavy_armor = Rank::Expert;
    let lines = combat_lines(&ch.proficiencies);
    assert_eq!(lines.len(), 2);
    assert_eq!(lines[0].0, "Simple");
    assert_eq!(lines[1], ("Heavy Armor".to_string(), Rank::Expert));
}

#[test]
fn money_line_lists_nonzero_coins_largest_first() {
    assert_eq!(money_text(&Money { cp: 0, sp: 0, gp: 0, pp: 0 }), None);
    assert_eq!(money_text(&Money { cp: 5, sp: 0, gp: 15, pp: 1 }).as_deref(), Some("1 pp, 15 gp, 5 cp"));
}

#[test]
fn equipment_lines_follow_the_cursor_rows() {
    let mut eq = Equipment::empty();
    eq.weapons.push(weapon("Longsword"));
    eq.weapons.push(weapon("Dagger"));
    eq.armor.push(armor("Leather Armor", true));
    eq.items.push(Item { name: "Rope".to_string(), quantity: 2, invested: false, worn: false });
    let attacks = vec![WeaponAttack { display: "+1 Striking Longsword".to_string(), attack_bonus: 7, damage: "2d8+4 S".to_string() }];
    let lines = equipment_lines(&eq, &attacks, true, 1);
    assert_eq!(lines.len(), 8);
    assert_eq!(lines[0].text, "+1 Striking Longsword");
    assert_eq!(lines[0].attack, Some((7, "2d8+4 S".to_string())));
    assert_eq!(lines[1].text, "+1 Striking Dagger");
    assert!(lines[1].selected);
    assert_eq!(lines[2].kind, EquipKind::AddWeapon);
    assert_eq!(lines[3].text, "Leather Armor  (worn)");
    assert_eq!(lines[5].kind, EquipKind::AddShield);
    assert_eq!(lines[6].text, "Rope x2");
    assert_eq!(lines[7].text, "+ Add Item");
    assert!(!lines[7].selected);
}

#[test]
fn feats_are_listed_by_level_then_type() {
    let f = |name: &str, t: FeatType, level: u8| FeatChoice {
        name: name.to_string(),
        feat_type: t,
        level,
        slot: String::new(),
        source_id: None,
    };
    let feats = vec![
        f("Toughness", FeatType::General, 3),
        f("Power Attack", FeatType::Class, 1),
        f("Natural Ambition", FeatType::Ancestry, 1),
        f("Reactive Shield", FeatType::Class, 1),
    ];
    assert_eq!(feats_in_order(&feats), vec![2, 1, 3, 0]);
}

#[test]
fn no_spell_panel_without_casting() {
    let app = App::new(vec![]);
    assert!(matches!(spell_panel(&app), SpellPanel::NoCasting));
}

#[test]
fn build_list_marks_the_cursor_and_headings() {
    let mut app = App::new(vec![]);
    app.new_character();
    let lines = list_lines(&app);
    assert_eq!(lines.len(), app.progression.len());
    match &lines[0] {
        ListLine::Heading { level, separated, beyond } => {
            assert_eq!(*level, 1);
            assert!(!separated);
            assert!(!beyond);
        },
        _ => panic!("expected the first heading"),
    }
    match &lines[app.build_cursor] {
        ListLine::Slot { marker, text, look } => {
            assert_eq!(*marker, '○');
            assert_eq!(text, "Ancestry: —");
            assert_eq!(*look, SlotLook::Cursor);
        },
        _ => panic!("expected the ancestry slot"),
    }
}

#[test]
fn domains_mark_the_primary_ones() {
    let d = domain_lines(&vec!["Fire".to_string(), "Sun".to_string()], &vec!["Sun".to_string()]);
    assert_eq!(d, vec![("Fire".to_string(), false), ("Sun".to_string(), true)]);
}

#[test]
fn key_ability_matches_its_abbreviation_in_any_case() {
    assert!(is_key_ability(&Some("str".to_string()), Ability::Strength));
    assert!(!is_key_ability(&Some("Strength".to_string()), Ability::Strength));
    assert!(!is_key_ability(&None, Ability::Dexterity));
}

#[test]
fn boost_dialog_totals_and_marks() {
    let ancestry = BoostSpec { fixed: vec![Ability::Constitution, Ability::Wisdom], free: 1, flaws: vec![Ability::Charisma] };
    let none = BoostSpec::empty();
    let m = BoostModal::new(&ancestry, &none, &none, 1);
    assert_eq!(boost_total(&m, Ability::Constitution), 1);
    assert_eq!(boost_total(&m, Ability::Charisma), -1);
    assert_eq!(boost_total(&m, Ability::Strength), 0);
    let marks = group_marks(&m.groups[0]);
    assert_eq!(marks.len(), 6);
    assert_eq!(marks[2], (Ability::Constitution, BoostMark::Fixed, false));
    assert_eq!(marks[5], (Ability::Charisma, BoostMark::Open, true));
    let _ = BuildChoices::new("x");
}

fn caster_class(slots: Vec<Vec<&str>>) -> ClassData {
    ClassData {
        hp: 6,
        key_ability: Some("Intelligence".to_string()),
        boost_spec: BoostSpec::empty(),
        perception: Rank::Trained,
        fortitude: Rank::Trained,
        reflex: Rank::Trained,
        will: Rank::Expert,
        unarmored: Rank::Trained,
        light_armor: Rank::Untrained,
        medium_armor: Rank::Untrained,
        heavy_armor: Rank::Untrained,
        simple_weapons: Rank::Trained,
        martial_weapons: Rank::Untrained,
        unarmed: Rank::Trained,
        granted_skills: vec![],
        proficiency_advances: vec![],
        subclass_category: None,
        class_features: vec![],
        additional_skill_count: 0,
        spell_slots: slots.into_iter().map(|r| r.into_iter().map(|c| c.to_string()).collect()).collect(),
        tradition: Some("Arcane".to_string()),
        casting_ability: Some("Intelligence".to_string()),
    }
}

fn spell(name: &str, rank: u8) -> SpellSlotChoice {
    SpellSlotChoice { name: name.to_string(), rank, source_id: None }
}

fn caster() -> SpellCaster {
    SpellCaster {
        tradition: Some("Arcane".to_string()),
        ability: Some("intelligence".to_string()),
        spells: vec![],
        focus_spells: vec![],
    }
}

#[test]
fn spell_panel_lists_rank_blocks_then_focus_spells() {
    let mut app = App::new(vec![]);
    app.choices.level = 1;
    app.choices.class_data = Some(caster_class(vec![vec!["2", " 2 ", "x"], vec!["5", "3"]]));
    app.choices.prepared_spells.insert(1, vec![spell("Magic Missile", 1)]);
    app.choices.focus_spells = vec![spell("Force Bolt", 1)];
    app.character.spell_caster = Some(caster());
    app.character.focus_points = 1;
    app.focus = Focus::DetailTabs;
    app.detail_tab = DetailTab::Spells;
    app.spell_cursor = 2;
    match spell_panel(&app) {
        SpellPanel::Slots { tradition, ability, blocks, focus_points, focus, add_selected } => {
            assert_eq!(tradition, "Arcane");
            assert_eq!(ability, "INT");
            assert_eq!(blocks.len(), 2);
            assert_eq!(blocks[0].label, "Cantrips");
            assert_eq!(blocks[0].count, 2);
            assert_eq!(blocks[0].slots.len(), 2);
            assert!(blocks[0].slots.iter().all(|l| l.name.is_none() && !l.selected));
            assert_eq!(blocks[1].label, "1st Rank");
            assert_eq!(blocks[1].count, 2);
            assert_eq!(blocks[1].slots[0].name.as_deref(), Some("Magic Missile"));
            assert!(blocks[1].slots[0].selected);
            assert_eq!(blocks[1].slots[1].name, None);
            assert!(!blocks[1].slots[1].selected);
            assert_eq!(focus_points, 1);
            assert_eq!(focus.len(), 1);
            assert_eq!(focus[0].name.as_deref(), Some("Force Bolt"));
            assert!(!focus[0].selected);
            assert!(!add_selected);
        },
        _ => panic!("expected spell slots"),
    }
    app.spell_cursor = 5;
    match spell_panel(&app) {
        SpellPanel::Slots { add_selected, focus, .. } => {
            assert!(add_selected);
            assert!(!focus[0].selected);
        },
        _ => panic!("expected spell slots"),
    }
}

#[test]
fn spell_panel_without_a_slot_row() {
    let mut app = App::new(vec![]);
    app.choices.level = 3;
    app.choices.class_data = Some(caster_class(vec![vec!["5", "2"]]));
    let mut c = caster();
    c.tradition = None;
    c.ability = Some("wi".to_string());
    app.character.spell_caster = Some(c);
    match spell_panel(&app) {
        SpellPanel::NoSlots { tradition, ability } => {
            assert_eq!(tradition, "Unknown");
            assert_eq!(ability, "???");
        },
        _ => panic!("expected no slots"),
    }
}

#[test]
fn rarity_badges_ignore_case() {
    assert_eq!(rarity_of(&Some("Uncommon".to_string())), Some(Rarity::Uncommon));
    assert_eq!(rarity_of(&Some("RARE".to_string())), Some(Rarity::Rare));
    assert_eq!(rarity_of(&Some("unique".to_string())), Some(Rarity::Unique));
    assert_eq!(rarity_of(&Some("common".to_string())), None);
    assert_eq!(rarity_of(&None), None);
}

#[test]
fn casting_ability_heading_takes_the_first_three_bytes() {
    let mut app = App::new(vec![]);
    app.choices.level = 3;
    app.choices.class_data = Some(caster_class(vec![vec!["5", "2"]]));
    let mut c = caster();
    c.ability = Some("éxa".to_string());
    app.character.spell_caster = Some(c);
    match spell_panel(&app) {
        SpellPanel::NoSlots { ability, .. } => assert_eq!(ability, "ÉX"),
        _ => panic!("expected no slots"),
    }
    let mut c = caster();
    c.ability = Some("aé".to_string());
    app.character.spell_caster = Some(c);
    match spell_panel(&app) {
        SpellPanel::NoSlots { ability, .. } => assert_eq!(ability, "AÉ"),
        _ => panic!("expected no slots"),
    }
}
