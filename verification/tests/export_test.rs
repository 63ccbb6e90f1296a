use waybuilder::build::choices::BuildChoices;
use waybuilder::build::mechanics::subclass::subclass_label;
use waybuilder::build::rules::abilities::add_boost;
use waybuilder::document::Value;
use waybuilder::model::abilities::{Ability, BoostSource};
use waybuilder::model::character::Character;
use waybuilder::persistence::export::{build_ability_breakdown, build_pathbuilder_json};
use waybuilder::persistence::save::{export_file_name, is_saved_build, sanitize_filename, save_file_name, sort_names};

fn strings(v: &Value) -> Vec<String> {
    match v {
        Value::Array(a) => a
            .iter()
            .map(|x| match x {
                Value::String(s) => s.clone(),
                _ => panic!("expected a string"),
            })
            .collect(),
        _ => panic!("expected an array"),
    }
}

#[test]
fn file_names_keep_letters_digits_dash_and_underscore() {
    assert_eq!(sanitize_filename("Sir Bob!"), "Sir_Bob_");
    assert_eq!(sanitize_filename("a-b_c9"), "a-b_c9");
    assert_eq!(sanitize_filename(""), "unnamed");
    assert_eq!(save_file_name("Brokk Ironfist"), "Brokk_Ironfist.json");
    assert_eq!(export_file_name("Brokk"), "Brokk_pathbuilder.json");
}

#[test]
fn file_names_stay_in_their_directory() {
    assert_eq!(save_file_name("../etc/passwd"), "___etc_passwd.json");
    assert_eq!(sanitize_filename("a\\b.c"), "a_b_c");
    assert_eq!(sanitize_filename("Élise"), "Élise");
}

#[test]
fn saved_builds_are_json_files_in_name_order() {
    assert!(is_saved_build("Brokk.json"));
    assert!(!is_saved_build(".json"));
    assert!(!is_saved_build("notes.txt"));
    let sorted = sort_names(vec!["b.json".to_string(), "a.json".to_string(), "c.json".to_string(), "a.json".to_string()]);
    assert_eq!(sorted, vec!["a.json", "a.json", "b.json", "c.json"]);
}

#[test]
fn breakdown_sorts_boosts_by_source() {
    let fixed = vec![Ability::Constitution];
    let boosts = vec![
        BoostSource { source: "ancestry".to_string(), ability: Ability::Constitution },
        BoostSource { source: "ancestry".to_string(), ability: Ability::Strength },
        BoostSource { source: "background".to_string(), ability: Ability::Dexterity },
        BoostSource { source: "class".to_string(), ability: Ability::Intelligence },
        BoostSource { source: "level_5".to_string(), ability: Ability::Wisdom },
        BoostSource { source: "level_5".to_string(), ability: Ability::Charisma },
        BoostSource { source: "level_10".to_string(), ability: Ability::Strength },
    ];
    let flaws = vec![BoostSource { source: "ancestry".to_string(), ability: Ability::Charisma }];
    let b = build_ability_breakdown(&fixed, &boosts, &flaws);
    assert_eq!(strings(b.get("ancestryBoosts").unwrap()), vec!["CON"]);
    assert_eq!(strings(b.get("ancestryFree").unwrap()), vec!["STR"]);
    assert_eq!(strings(b.get("ancestryFlaws").unwrap()), vec!["CHA"]);
    assert_eq!(strings(b.get("backgroundBoosts").unwrap()), vec!["DEX"]);
    assert_eq!(strings(b.get("classBoosts").unwrap()), vec!["INT"]);
    let levelled = b.get("mapLevelledBoosts").unwrap();
    assert_eq!(strings(levelled.get("5").unwrap()), vec!["WIS", "CHA"]);
    assert_eq!(strings(levelled.get("10").unwrap()), vec!["STR"]);
    match levelled {
        Value::Object(m) => assert_eq!(m[0].0, "10"),
        _ => panic!("expected an object"),
    }
}

#[test]
fn pathbuilder_sheet_holds_identity_and_scores() {
    let choices = BuildChoices::new("Brokk");
    let mut ch = Character::new("Brokk");
    add_boost(&mut ch.abilities, "ancestry", Ability::Constitution);
    let v = build_pathbuilder_json(&choices, &ch);
    assert!(matches!(v.get("success"), Some(Value::Bool(true))));
    let build = v.get("build").unwrap();
    assert!(matches!(build.get("name"), Some(Value::String(s)) if s == "Brokk"));
    assert!(matches!(build.get("class"), Some(Value::String(s)) if s.is_empty()));
    assert!(matches!(build.get("sizeName"), Some(Value::String(s)) if s == "Medium"));
    let abilities = build.get("abilities").unwrap();
    assert!(matches!(abilities.get("con"), Some(Value::PosInt(12))));
    assert!(matches!(abilities.get("str"), Some(Value::PosInt(10))));
    let profs = build.get("proficiencies").unwrap();
    assert!(matches!(profs.get("acrobatics"), Some(Value::PosInt(0))));
    assert!(matches!(profs.get("classDC"), Some(Value::PosInt(0))));
}

#[test]
fn lowercasing_reaches_the_subclass_label() {
    assert_eq!(subclass_label("SORCERER"), "Bloodline");
}
