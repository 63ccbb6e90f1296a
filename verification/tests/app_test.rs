use waybuilder::data::loader::{LoadRequest, LoadResult};
use waybuilder::document::{Document, Value};
use waybuilder::model::abilities::Ability;
use waybuilder::ui::app::{App, DetailTab, Focus, Modal, Screen};
use waybuilder::ui::events::{Effect, Key, preload_requests};

fn press(app: &mut App, key: Key) -> Effect {
    assert!(app.key_ready_exec());
    app.handle_key(key, false)
}

fn started() -> App {
    let mut app = App::new(vec!["/tmp/chars/Alice.json".to_string()]);
    assert_eq!(app.screen, Screen::CharacterSelect);
    let e = press(&mut app, Key::Enter);
    assert!(matches!(e, Effect::Nothing));
    assert_eq!(app.screen, Screen::Builder);
    app
}

fn dwarf() -> Document {
    let mut d = Document::new();
    d.name = Some("Dwarf".to_string());
    d.attribute = vec!["Constitution".into(), "Wisdom".into(), "Free".into()];
    d.extra.push(("hp".to_string(), Value::PosInt(10)));
    d.extra.push(("speed".to_string(), Value::Object(vec![("land".to_string(), Value::PosInt(20))])));
    d
}

#[test]
fn the_builder_starts_with_the_standard_searches() {
    let reqs = preload_requests();
    assert_eq!(reqs.len(), 6);
    match &reqs[0] {
        LoadRequest::SearchCategory { category, filters } => {
            assert_eq!(category, "ancestry");
            assert!(filters.is_empty());
        },
        _ => panic!("expected a search"),
    }
}

#[test]
fn select_screen_loads_and_deletes_saved_characters() {
    let mut app = App::new(vec!["/tmp/chars/Alice.json".to_string()]);
    press(&mut app, Key::Down);
    assert_eq!(app.select_cursor, 1);
    match press(&mut app, Key::Enter) {
        Effect::LoadCharacter(p) => assert_eq!(p, "/tmp/chars/Alice.json"),
        _ => panic!("expected a load"),
    }
    match press(&mut app, Key::Char('d')) {
        Effect::DeleteCharacter(p) => assert_eq!(p, "/tmp/chars/Alice.json"),
        _ => panic!("expected a delete"),
    }
    app.after_delete(vec![]);
    assert_eq!(app.select_cursor, 0);
    press(&mut app, Key::Char('q'));
    assert!(app.quit);
}

#[test]
fn tab_cycles_panels_and_help_closes_on_any_key() {
    let mut app = started();
    assert_eq!(app.focus, Focus::BuildSelector);
    press(&mut app, Key::Tab);
    assert_eq!(app.focus, Focus::CharacterInfo);
    press(&mut app, Key::Tab);
    press(&mut app, Key::Right);
    assert_eq!(app.detail_tab, DetailTab::Spells);
    press(&mut app, Key::Char('?'));
    assert!(app.show_help);
    press(&mut app, Key::Char('x'));
    assert!(!app.show_help);
}

#[test]
fn save_export_and_back_are_effects() {
    let mut app = started();
    assert!(matches!(app.handle_key(Key::Char('s'), true), Effect::Save));
    assert!(matches!(app.handle_key(Key::Char('e'), true), Effect::Export));
    assert!(matches!(press(&mut app, Key::Esc), Effect::RefreshSaved));
    assert_eq!(app.screen, Screen::CharacterSelect);
}

#[test]
fn renaming_sets_the_build_and_character_name() {
    let mut app = started();
    press(&mut app, Key::Char('n'));
    assert!(matches!(app.modal, Some(Modal::TextInput(_))));
    for _ in 0.."Adventurer".len() {
        press(&mut app, Key::Backspace);
    }
    for c in "Brokk".chars() {
        press(&mut app, Key::Char(c));
    }
    press(&mut app, Key::Enter);
    assert!(app.modal.is_none());
    assert_eq!(app.choices.name, "Brokk");
    assert_eq!(app.character.name, "Brokk");
}

#[test]
fn picking_an_ancestry_fills_the_slot_and_recomputes() {
    let mut app = started();
    // The cursor starts on the first slot, the ancestry.
    match press(&mut app, Key::Enter) {
        Effect::Load(LoadRequest::SearchCategory { category, filters }) => {
            assert_eq!(category, "ancestry");
            assert!(filters.is_empty());
        },
        _ => panic!("expected a search"),
    }
    assert_eq!(app.status.as_deref(), Some("Loading ancestry..."));
    app.apply_load_result(LoadResult::Documents(vec![dwarf()]));
    assert!(app.status.is_none());
    press(&mut app, Key::Enter);
    assert!(app.modal.is_none());
    assert_eq!(app.choices.ancestry.as_deref(), Some("Dwarf"));
    assert_eq!(app.character.ancestry.as_deref(), Some("Dwarf"));
    assert_eq!(app.character.ancestry_hp, 10);
    assert_eq!(app.character.speed, 20);
    assert_eq!(app.character.abilities.score(Ability::Constitution), 10);
}

#[test]
fn level_keys_change_the_level_within_bounds() {
    let mut app = started();
    press(&mut app, Key::Char('+'));
    assert_eq!(app.choices.level, 2);
    assert_eq!(app.character.level, 2);
    assert_eq!(app.status.as_deref(), Some("Level 2"));
    press(&mut app, Key::Char('-'));
    press(&mut app, Key::Char('-'));
    assert_eq!(app.choices.level, 1);
}

#[test]
fn loader_errors_show_in_the_status_line() {
    let mut app = started();
    app.apply_load_result(LoadResult::Error("offline".to_string()));
    assert_eq!(app.status.as_deref(), Some("Error: offline"));
}

#[test]
fn equipment_tab_add_rows_open_searches() {
    let mut app = started();
    app.focus = Focus::DetailTabs;
    app.detail_tab = DetailTab::Equipment;
    match press(&mut app, Key::Enter) {
        Effect::Load(LoadRequest::SearchCategory { category, .. }) => assert_eq!(category, "weapon"),
        _ => panic!("expected a weapon search"),
    }
    assert!(matches!(app.modal, Some(Modal::Selection(_))));
    press(&mut app, Key::Esc);
    assert!(app.modal.is_none());
}

#[test]
fn q_is_a_quit_key_on_the_select_screen() {
    let app = App::new(vec![]);
    assert!(app.quit_key(Key::Char('q'), false));
    assert!(!app.quit_key(Key::Char('x'), false));
}
