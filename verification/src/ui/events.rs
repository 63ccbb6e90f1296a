//! What the builder's commands do to its state. Each command changes the state and
//! says what the caller must do outside it (load documents, touch the disk).
use vstd::prelude::*;
use vstd::string::StringExecFns;
use crate::build::choices::{AbilityChoiceSet, BuildChoices, is_new_build};
use crate::build::maps::{level_stored, name_stored};
use crate::model::abilities::{Ability, BoostSpec, copy_abilities};
use crate::model::proficiencies::Rank;
use crate::model::types::{DivineFont, font_from_lower, font_label};
use crate::ui::modal::boosts::{BoostGroupView, BoostModal, SpecParts, groups_for, groups_view, no_parts, parts};
use crate::ui::modal::domain::{DomainModal, PickKind};
use crate::ui::modal::skills::{SkillModal, skill_increase_modal, skill_pick_modal};
use crate::build::commands::{cell_count, cursor_info, equipment_rows, rows_fit};
use crate::document::Document;
use crate::model::equipment::{ResilientRune, StrikingRune};
use crate::ui::modal::runes::{RuneField, RuneModal, RuneTarget, rune_title};
use crate::ui::modal::selection::SelectionModal;
use crate::build::progression::{EntryView, ProgressionEntry, entries_view, progression_spec};
use crate::build::slot::{BuildSlot, slot_category, slot_label};
use crate::data::loader::{LoadRequest, LoadResult, search_of};
use crate::model::character::{Character, fresh_character};
use crate::build::recalculate::{recalc_fits, recalc_spec};
use crate::scan::{parse_unsigned_chars, trim_bounds};
use crate::build::mechanics::boosts::free_count;
use crate::text::{chars_of, decimal, decimal_string, has_prefix, lowercase, opt_str, owned, starts_with, strs};
use crate::ui::modal::selection::listing;
use crate::ui::app::{
    App, DetailTab, Focus, Modal, Screen, build_features, first_slot_index, first_slot_spec,
    fresh_progression, progression_for, recalculated, refreshed, synced_all, synced_progression,
};

verus! {

// ---------------------------------------------------------------------------
// Starting, loading, ticking
// ---------------------------------------------------------------------------

/// The categories searched in the background when the builder starts.
pub open spec fn preload_category(i: int) -> Seq<char> {
    if i == 0 {
        "ancestry"@
    } else if i == 1 {
        "heritage"@
    } else if i == 2 {
        "background"@
    } else if i == 3 {
        "class"@
    } else if i == 4 {
        "deity"@
    } else {
        "feat"@
    }
}

/// The searches made when the builder starts: the ancestry, heritage, background,
/// class, deity and feat categories, without filters.
pub fn preload_requests() -> (r: Vec<LoadRequest>)
    ensures
        r@.len() == 6,
        forall|i: int|
            0 <= i < 6 ==> search_of(#[trigger] r@[i], preload_category(i), Seq::empty()),
{
    let names = ["ancestry", "heritage", "background", "class", "deity", "feat"];
    let mut out: Vec<LoadRequest> = Vec::new();
    let mut i: usize = 0;
    while i < 6
        invariant
            i <= 6,
            out@.len() == i,
            names@ == seq!["ancestry", "heritage", "background", "class", "deity", "feat"],
            forall|j: int|
                0 <= j < i ==> search_of(#[trigger] out@[j], preload_category(j), Seq::empty()),
        decreases 6 - i,
    {
        let req = LoadRequest::SearchCategory { category: owned(names[i]), filters: Vec::new() };
        assert(search_of(req, preload_category(i as int), Seq::empty())) by {
            match req {
                LoadRequest::SearchCategory { category, filters } => {
                    assert(filters@.map_values(|f: (String, String)| (f.0@, f.1@)) =~= Seq::<(Seq<char>, Seq<char>)>::empty());
                },
                _ => {},
            }
        }
        out.push(req);
        i = i + 1;
    }
    out
}

impl App {
    /// A builder for a new character named "Adventurer": on the select screen when
    /// there are saved characters, else on the builder screen.
    pub fn new(saved_characters: Vec<String>) -> (r: App)
        ensures
            is_new_build(r.choices, "Adventurer"@),
            r.character@ == recalculated(r.choices, fresh_character("Adventurer"@)),
            entries_view(r.progression@) == progression_spec(20, Some(&r.choices), build_features(r.choices)),
            r.build_cursor == first_slot_spec(entries_view(r.progression@)),
            r.screen == (if saved_characters@.len() == 0 { Screen::Builder } else { Screen::CharacterSelect }),
            r.focus == Focus::BuildSelector,
            r.detail_tab == DetailTab::Equipment,
            !r.quit && !r.show_help,
            r.modal is None,
            r.status is None,
            r.tick == 0,
            strs(r.saved_characters@) == strs(saved_characters@),
            r.select_cursor == 0 && r.spell_cursor == 0 && r.equipment_cursor == 0,
            r.spell_pick_rank is None,
    {
        let choices = BuildChoices::new("Adventurer");
        let progression = progression_for(&choices);
        let build_cursor = first_slot_index(&progression);
        let screen = if saved_characters.len() == 0 { Screen::Builder } else { Screen::CharacterSelect };
        let mut app = App {
            screen,
            choices,
            character: Character::new("Adventurer"),
            focus: Focus::BuildSelector,
            detail_tab: DetailTab::Equipment,
            progression,
            build_cursor,
            quit: false,
            show_help: false,
            modal: None,
            status: None,
            tick: 0,
            saved_characters,
            select_cursor: 0,
            spell_cursor: 0,
            spell_pick_rank: None,
            equipment_cursor: 0,
        };
        app.recalc_character();
        app
    }

    /// Start a new character and switch to the builder screen.
    pub fn new_character(&mut self)
        ensures
            started_new(*old(self), *final(self)),
    {
        self.choices = BuildChoices::new("Adventurer");
        self.recalc_character();
        self.progression = progression_for(&self.choices);
        self.build_cursor = first_slot_index(&self.progression);
        self.screen = Screen::Builder;
    }

    /// Take a build read from disk and switch to the builder screen.
    pub fn set_loaded(&mut self, choices: BuildChoices)
        ensures
            final(self).choices == choices,
            final(self).character@ == recalculated(choices, old(self).character@),
            entries_view(final(self).progression@) == fresh_progression(choices, final(self).character@.proficiencies),
            final(self).build_cursor == first_slot_spec(entries_view(final(self).progression@)),
            *final(self) == (App {
                choices: final(self).choices,
                character: final(self).character,
                progression: final(self).progression,
                build_cursor: final(self).build_cursor,
                screen: Screen::Builder,
                ..*old(self)
            }),
    {
        self.choices = choices;
        self.recalc_character();
        self.progression = synced_progression(&self.choices, &self.character);
        self.build_cursor = first_slot_index(&self.progression);
        self.screen = Screen::Builder;
    }

    /// Advance the animation counter (wrapping).
    pub fn tick(&mut self)
        ensures
            final(self).tick == (if old(self).tick == usize::MAX { 0 } else { old(self).tick + 1 }),
            *final(self) == (App { tick: final(self).tick, ..*old(self) }),
    {
        self.tick = if self.tick == usize::MAX { 0 } else { self.tick + 1 };
    }

    /// The spinner frame for the current tick.
    pub fn spinner(&self) -> (r: char)
        ensures
            r == spinner_frame(((self.tick / 2) % 10) as int),
    {
        let frames = ['⠋', '⠙', '⠹', '⠸', '⠼', '⠴', '⠦', '⠧', '⠇', '⠏'];
        let i = (self.tick / 2) % 10;
        frames[i]
    }

    /// Hand loaded documents to the open dialog, or show the loader's error.
    pub fn apply_load_result(&mut self, result: LoadResult)
        ensures
            match result {
                LoadResult::Documents(docs) => {
                    &&& final(self).status is None
                    &&& match old(self).modal {
                        Some(Modal::Selection(m)) => final(self).modal == Some(Modal::Selection(
                            crate::ui::modal::selection::SelectionModal { items: docs, ..m },
                        )),
                        Some(Modal::Info(m)) => final(self).modal == Some(Modal::Info(Box::new(
                            crate::ui::modal::info::InfoModal {
                                doc: if docs@.len() > 0 { Some(docs@[0]) } else { None },
                                ..*m
                            },
                        ))),
                        _ => final(self).modal == old(self).modal,
                    }
                    &&& *final(self) == (App { modal: final(self).modal, status: None, ..*old(self) })
                },
                LoadResult::Error(e) => {
                    &&& final(self).status matches Some(s) && s@ == "Error: "@ + e@
                    &&& *final(self) == (App { status: final(self).status, ..*old(self) })
                },
            },
    {
        match result {
            LoadResult::Documents(docs) => {
                match self.modal.take() {
                    Some(Modal::Selection(mut modal)) => {
                        modal.items = docs;
                        self.modal = Some(Modal::Selection(modal));
                    },
                    Some(Modal::Info(mut modal)) => {
                        let mut docs = docs;
                        let first = if docs.len() > 0 { Some(docs.remove(0)) } else { None };
                        modal.doc = first;
                        self.modal = Some(Modal::Info(modal));
                    },
                    other => {
                        self.modal = other;
                    },
                }
                self.status = None;
            },
            LoadResult::Error(e) => {
                let mut s = owned("Error: ");
                s.append(e.as_str());
                self.status = Some(s);
            },
        }
    }
}

/// The spinner's frames.
pub open spec fn spinner_frame(i: int) -> char {
    if i == 0 {
        '⠋'
    } else if i == 1 {
        '⠙'
    } else if i == 2 {
        '⠹'
    } else if i == 3 {
        '⠸'
    } else if i == 4 {
        '⠼'
    } else if i == 5 {
        '⠴'
    } else if i == 6 {
        '⠦'
    } else if i == 7 {
        '⠧'
    } else if i == 8 {
        '⠇'
    } else {
        '⠏'
    }
}


/// `n` is `o` with a new character started on the builder screen.
pub open spec fn started_new(o: App, n: App) -> bool {
    &&& is_new_build(n.choices, "Adventurer"@)
    &&& n.character@ == recalculated(n.choices, o.character@)
    &&& entries_view(n.progression@) == progression_spec(20, Some(&n.choices), build_features(n.choices))
    &&& n.build_cursor == first_slot_spec(entries_view(n.progression@))
    &&& n == (App {
        choices: n.choices,
        character: n.character,
        progression: n.progression,
        build_cursor: n.build_cursor,
        screen: Screen::Builder,
        ..o
    })
}

/// A key press, as the builder reads it.
#[derive(Debug, Clone, Copy, PartialEq, Eq, Structural)]
pub enum Key {
    Char(char),
    Enter,
    Esc,
    Tab,
    Up,
    Down,
    Left,
    Right,
    PageUp,
    PageDown,
    Backspace,
    Delete,
    Other,
}

/// What the caller must do after a command.
pub enum Effect {
    Nothing,
    /// Send this request to the document loader.
    Load(LoadRequest),
    /// Read the character saved at this path, then `set_loaded` it.
    LoadCharacter(String),
    /// Delete the character saved at this path, then `after_delete` with the new list.
    DeleteCharacter(String),
    /// Save the build.
    Save,
    /// Export the build.
    Export,
    /// Re-read the list of saved characters.
    RefreshSaved,
}

/// `n` and `r` are what a key does on the character select screen of `o`.
pub open spec fn select_key_done(o: App, n: App, key: Key, r: Effect) -> bool {
    let c = o.select_cursor;
    let saved = o.saved_characters@;
    match key {
        Key::Char('q') => n == (App { quit: true, ..o }) && r is Nothing,
        Key::Up => n == (App { select_cursor: if c > 0 { (c - 1) as usize } else { 0 }, ..o }) && r is Nothing,
        Key::Down => n == (App { select_cursor: if c < saved.len() { (c + 1) as usize } else { c }, ..o })
            && r is Nothing,
        Key::Enter => if c == 0 {
            started_new(o, n) && r is Nothing
        } else if c - 1 < saved.len() {
            n == o && (r matches Effect::LoadCharacter(p) && p@ == saved[c - 1]@)
        } else {
            n == o && r is Nothing
        },
        Key::Char('d') => if c > 0 && c - 1 < saved.len() {
            n == o && (r matches Effect::DeleteCharacter(p) && p@ == saved[c - 1]@)
        } else {
            n == o && r is Nothing
        },
        _ => n == o && r is Nothing,
    }
}

impl App {
    /// A key on the character select screen: 'q' quits, Up/Down move, Enter starts a
    /// new character (first row) or loads a saved one, 'd' deletes a saved one.
    pub fn handle_select_key(&mut self, key: Key) -> (r: Effect)
        ensures
            select_key_done(*old(self), *final(self), key, r),
    {
        let max = self.saved_characters.len();
        match key {
            Key::Char('q') => {
                self.quit = true;
                Effect::Nothing
            },
            Key::Up => {
                if self.select_cursor > 0 {
                    self.select_cursor = self.select_cursor - 1;
                }
                Effect::Nothing
            },
            Key::Down => {
                if self.select_cursor < max {
                    self.select_cursor = self.select_cursor + 1;
                }
                Effect::Nothing
            },
            Key::Enter => {
                if self.select_cursor == 0 {
                    self.new_character();
                    Effect::Nothing
                } else if self.select_cursor - 1 < max {
                    Effect::LoadCharacter(owned(self.saved_characters[self.select_cursor - 1].as_str()))
                } else {
                    Effect::Nothing
                }
            },
            Key::Char('d') => {
                if self.select_cursor > 0 && self.select_cursor - 1 < max {
                    Effect::DeleteCharacter(owned(self.saved_characters[self.select_cursor - 1].as_str()))
                } else {
                    Effect::Nothing
                }
            },
            _ => Effect::Nothing,
        }
    }

    /// Take the list of saved characters after a deletion; the cursor stays on the list.
    pub fn after_delete(&mut self, saved: Vec<String>)
        ensures
            final(self).saved_characters == saved,
            final(self).select_cursor == (if old(self).select_cursor > saved@.len() {
                saved@.len() as usize
            } else {
                old(self).select_cursor
            }),
            *final(self) == (App {
                saved_characters: final(self).saved_characters,
                select_cursor: final(self).select_cursor,
                ..*old(self)
            }),
    {
        self.saved_characters = saved;
        if self.select_cursor > self.saved_characters.len() {
            self.select_cursor = self.saved_characters.len();
        }
    }
}

// ---------------------------------------------------------------------------
// Moving through the progression
// ---------------------------------------------------------------------------

/// The last slot entry before position `c`, if any.
pub open spec fn prev_slot(v: Seq<EntryView>, c: int) -> Option<int>
    decreases c,
{
    if c <= 0 {
        None
    } else if c - 1 < v.len() && v[c - 1] is Slot {
        Some(c - 1)
    } else {
        prev_slot(v, c - 1)
    }
}

/// The first slot entry at or after position `j`, if any.
pub open spec fn next_slot_from(v: Seq<EntryView>, j: int) -> Option<int>
    decreases v.len() - j,
{
    if j < 0 || j >= v.len() {
        None
    } else if v[j] is Slot {
        Some(j)
    } else {
        next_slot_from(v, j + 1)
    }
}

/// `n` is `o` after Up in the build list.
pub open spec fn moved_up(o: App, n: App) -> bool {
    if o.focus != Focus::BuildSelector {
        n == o
    } else {
        match prev_slot(entries_view(o.progression@), o.build_cursor as int) {
            Some(j) => n == (App { build_cursor: j as usize, ..o }),
            None => n == o,
        }
    }
}

/// `n` is `o` after Down in the build list.
pub open spec fn moved_down(o: App, n: App) -> bool {
    if o.focus != Focus::BuildSelector {
        n == o
    } else {
        match next_slot_from(entries_view(o.progression@), o.build_cursor + 1) {
            Some(j) => n == (App { build_cursor: j as usize, ..o }),
            None => n == o,
        }
    }
}

impl App {
    /// Up in the build list: to the previous slot, skipping level headers.
    pub fn handle_up(&mut self)
        ensures
            moved_up(*old(self), *final(self)),
    {
        if self.focus != Focus::BuildSelector {
            return;
        }
        let ghost v = entries_view(self.progression@);
        let mut cursor = self.build_cursor;
        while cursor > 0
            invariant
                v == entries_view(self.progression@),
                cursor <= old(self).build_cursor,
                prev_slot(v, cursor as int) == prev_slot(v, old(self).build_cursor as int),
                *self == *old(self),
                old(self).focus == Focus::BuildSelector,
            decreases cursor,
        {
            cursor = cursor - 1;
            if cursor < self.progression.len() {
                match &self.progression[cursor] {
                    ProgressionEntry::Slot(_) => {
                        assert(v[cursor as int] is Slot);
                        assert(prev_slot(v, cursor + 1) == Some(cursor as int));
                        self.build_cursor = cursor;
                        return;
                    },
                    ProgressionEntry::LevelHeader(_) => {
                        assert(!(v[cursor as int] is Slot));
                    },
                }
            }
        }
    }

    /// Down in the build list: to the next slot, skipping level headers.
    pub fn handle_down(&mut self)
        requires
            old(self).build_cursor < usize::MAX,
        ensures
            moved_down(*old(self), *final(self)),
    {
        if self.focus != Focus::BuildSelector {
            return;
        }
        let ghost v = entries_view(self.progression@);
        let max = self.progression.len();
        let mut cursor = self.build_cursor + 1;
        while cursor < max
            invariant
                v == entries_view(self.progression@),
                max == v.len(),
                cursor > old(self).build_cursor,
                next_slot_from(v, cursor as int) == next_slot_from(v, old(self).build_cursor + 1),
                *self == *old(self),
                old(self).focus == Focus::BuildSelector,
            decreases max - cursor,
        {
            match &self.progression[cursor] {
                ProgressionEntry::Slot(_) => {
                    assert(v[cursor as int] is Slot);
                    self.build_cursor = cursor;
                    return;
                },
                ProgressionEntry::LevelHeader(_) => {
                    assert(!(v[cursor as int] is Slot));
                },
            }
            cursor = cursor + 1;
        }
    }
}


// ---------------------------------------------------------------------------
// Level changes and clearing slots
// ---------------------------------------------------------------------------

/// The position of the skill selection slot at `c` among the skill selection slots
/// up to it (0 when there is none before).
pub open spec fn skill_slot_index(v: Seq<EntryView>, c: int) -> nat {
    let k = crate::ui::app::selections_before(v, c + 1);
    if k > 0 {
        (k - 1) as nat
    } else {
        0
    }
}

/// `n` is `o` with the level moved by `delta` within 1..=20.
pub open spec fn level_changed_by(o: App, n: App, delta: i32) -> bool {
    let nl = crate::build::commands::clamped_level(o.choices.level, delta);
    &&& crate::build::commands::level_changed(o.choices, n.choices, delta)
    &&& if nl == o.choices.level {
        n == o
    } else {
        let len = n.progression@.len();
        &&& n.character@ == recalculated(n.choices, o.character@)
        &&& entries_view(n.progression@) == fresh_progression(n.choices, n.character@.proficiencies)
        &&& n.build_cursor == (if o.build_cursor < (if len > 0 { len - 1 } else { 0 }) {
            o.build_cursor as int
        } else if len > 0 {
            len - 1
        } else {
            0
        })
        &&& n.status matches Some(st) && st@ == "Level "@ + decimal(nl as nat)
        &&& n == (App {
            choices: n.choices,
            character: n.character,
            progression: n.progression,
            build_cursor: n.build_cursor,
            status: n.status,
            ..o
        })
    }
}

/// `n` is `o` with the slot under the build cursor cleared.
pub open spec fn slot_cleared(o: App, n: App) -> bool {
    let v = entries_view(o.progression@);
    let c = o.build_cursor as int;
    if c < v.len() {
        match v[c] {
            EntryView::Slot(slot, level, filled, _) => if filled is Some {
                &&& crate::build::commands::cleared(o.choices, n.choices, slot, level, skill_slot_index(v, c))
                &&& if slot == BuildSlot::Class {
                    crate::ui::app::rebuilt(o, n)
                } else {
                    refreshed(o, n)
                }
                &&& n == (App { choices: n.choices, character: n.character, progression: n.progression, ..o })
            } else {
                n == o
            },
            EntryView::Header(_) => n == o,
        }
    } else {
        n == o
    }
}

impl App {
    /// Change the level by `delta` (kept between 1 and 20): the build drops what lies
    /// above the new level, the character is recalculated, the progression rebuilt,
    /// the cursor kept on it, and the status shows the new level.
    pub fn level_change(&mut self, delta: i32)
        requires
            i32::MIN <= old(self).choices.level + delta <= i32::MAX,
        ensures
            level_changed_by(*old(self), *final(self), delta),
    {
        match crate::build::commands::level_change_choices(&mut self.choices, delta) {
            None => {},
            Some(new_level) => {
                self.recalc_character();
                self.progression = synced_progression(&self.choices, &self.character);
                let len = self.progression.len();
                let last = if len > 0 { len - 1 } else { 0 };
                if self.build_cursor > last {
                    self.build_cursor = last;
                }
                let mut st = owned("Level ");
                let d = decimal_string(new_level as u64);
                st.append(d.as_str());
                self.status = Some(st);
            },
        }
    }

    /// Clear the slot under the cursor when it is filled, with the choices that depend
    /// on it; the progression is rebuilt when the class was cleared.
    pub fn clear_slot(&mut self)
        ensures
            slot_cleared(*old(self), *final(self)),
    {
        let ghost v = entries_view(self.progression@);
        if self.build_cursor >= self.progression.len() {
            return;
        }
        let (slot, level) = match &self.progression[self.build_cursor] {
            ProgressionEntry::Slot(state) => {
                if state.filled.is_none() {
                    return;
                }
                (state.slot, state.level)
            },
            ProgressionEntry::LevelHeader(_) => {
                return;
            },
        };
        // Which skill selection slot this is
        let plen = self.progression.len();
        let mut count: usize = 0;
        let mut i: usize = 0;
        while i <= self.build_cursor
            invariant
                v == entries_view(self.progression@),
                plen == v.len(),
                self.build_cursor < v.len(),
                i <= self.build_cursor + 1,
                count == crate::ui::app::selections_before(v, i as int),
                count <= i,
            decreases self.build_cursor + 1 - i,
        {
            match &self.progression[i] {
                ProgressionEntry::Slot(st) => {
                    if st.slot == BuildSlot::SkillSelection {
                        count = count + 1;
                    }
                },
                ProgressionEntry::LevelHeader(_) => {},
            }
            i = i + 1;
        }
        let idx = if count > 0 { count - 1 } else { 0 };
        crate::build::commands::clear_slot_choices(&mut self.choices, slot, level, idx);
        if slot == BuildSlot::Class {
            self.rebuild();
        } else {
            self.refresh();
        }
    }
}


// ---------------------------------------------------------------------------
// The Spells tab
// ---------------------------------------------------------------------------

/// The spell table row for the build's level, if there is class data and a row.
pub open spec fn slot_row(c: BuildChoices) -> Option<Seq<Seq<char>>> {
    match c.class_data {
        None => None,
        Some(d) => {
            let idx: int = if c.level == 0 { 0 } else { c.level - 1 };
            if idx < d.spell_slots@.len() {
                Some(strs(d.spell_slots@[idx]@))
            } else {
                None
            }
        },
    }
}

/// Total of the slot counts of a row (cells that are not numbers count 0).
pub open spec fn row_total(cells: Seq<Seq<char>>) -> nat
    decreases cells.len(),
{
    if cells.len() == 0 {
        0
    } else {
        row_total(cells.drop_last()) + cell_count(cells.last())
    }
}

/// The number of prepared spell slots at the build's level.
pub open spec fn prepared_slots(c: BuildChoices) -> nat {
    match slot_row(c) {
        Some(cells) => row_total(cells),
        None => 0,
    }
}

/// A cell that is a dash or empty once trimmed (a rank without slots).
pub open spec fn is_blank_cell(cell: Seq<char>) -> bool {
    let t = crate::text::trim(cell);
    t == "—"@ || t == "-"@ || t.len() == 0
}

/// The rank (cell index) and slot within it of the flat spell cursor, scanning the
/// row from cell `k` with `flat` slots before it; `None` past the slots or at a cell
/// that is neither blank nor a number.
pub open spec fn rank_at(cells: Seq<Seq<char>>, k: int, flat: nat, cursor: nat) -> Option<(u8, nat)>
    decreases cells.len() - k,
{
    if k < 0 || k >= cells.len() {
        None
    } else if is_blank_cell(cells[k]) {
        rank_at(cells, k + 1, flat, cursor)
    } else {
        match crate::scan::parse_unsigned(crate::text::trim(cells[k]), usize::MAX as nat) {
            None => None,
            Some(count) => if cursor < flat + count {
                Some((k as u8, (cursor - flat) as nat))
            } else {
                rank_at(cells, k + 1, flat + count, cursor)
            },
        }
    }
}

/// Prefix totals are at most the row total.
pub proof fn lemma_row_total_prefix(cells: Seq<Seq<char>>, k: int)
    requires
        0 <= k <= cells.len(),
    ensures
        row_total(cells.take(k)) <= row_total(cells),
    decreases cells.len() - k,
{
    if k < cells.len() {
        lemma_row_total_prefix(cells, k + 1);
        assert(cells.take(k + 1).drop_last() =~= cells.take(k));
    } else {
        assert(cells.take(k) =~= cells);
    }
}

/// A blank cell counts no slots.
proof fn lemma_blank_count(cell: Seq<char>)
    requires
        is_blank_cell(cell),
    ensures
        cell_count(cell) == 0,
{
    let t = crate::text::trim(cell);
    if t == "—"@ {
        reveal_strlit("—");
        assert(!crate::scan::is_digit(t[0]));
        assert(crate::scan::unsigned_digits(t) == t);
    } else if t == "-"@ {
        reveal_strlit("-");
        assert(!crate::scan::is_digit(t[0]));
        assert(crate::scan::unsigned_digits(t) == t);
    }
}

fn cell_text(cell: &String) -> (r: (Vec<char>, usize, usize))
    ensures
        r.1 <= r.2 <= r.0@.len(),
        r.0@ == cell@,
        r.0@.subrange(r.1 as int, r.2 as int) == crate::text::trim(cell@),
{
    let v = chars_of(cell.as_str());
    let (lo, hi) = trim_bounds(&v, 0, v.len());
    assert(v@.subrange(0, v@.len() as int) =~= cell@);
    (v, lo, hi)
}

fn is_blank_exec(v: &Vec<char>, lo: usize, hi: usize) -> (r: bool)
    requires
        lo <= hi <= v@.len(),
    ensures
        r == {
            let t = v@.subrange(lo as int, hi as int);
            t == "—"@ || t == "-"@ || t.len() == 0
        },
{
    proof {
        reveal_strlit("—");
        reveal_strlit("-");
    }
    let ghost t = v@.subrange(lo as int, hi as int);
    if hi == lo {
        return true;
    }
    if hi - lo == 1 && (v[lo] == '—' || v[lo] == '-') {
        if v[lo] == '—' {
            assert(t =~= "—"@);
        } else {
            assert(t =~= "-"@);
        }
        return true;
    }
    proof {
        if t == "—"@ {
            assert(t.len() == 1 && t[0] == '—');
            assert(t[0] == v@[lo as int]);
        }
        if t == "-"@ {
            assert(t.len() == 1 && t[0] == '-');
            assert(t[0] == v@[lo as int]);
        }
    }
    false
}

/// `n` is `o` after Up on the Spells tab.
pub open spec fn spell_moved_up(o: App, n: App) -> bool {
    n == (App { spell_cursor: if o.spell_cursor > 0 { (o.spell_cursor - 1) as usize } else { 0 }, ..o })
}

/// `n` is `o` after Down on the Spells tab.
pub open spec fn spell_moved_down(o: App, n: App) -> bool {
    let max = if spell_rows(o) > 0 { spell_rows(o) - 1 } else { 0 };
    n == (App {
        spell_cursor: if o.spell_cursor < max { (o.spell_cursor + 1) as usize } else { o.spell_cursor },
        ..o
    })
}

impl App {
    /// Count of prepared spell slots at the build's level.
    pub fn prepared_slot_count(&self) -> (r: usize)
        requires
            prepared_slots(self.choices) <= usize::MAX,
        ensures
            r == prepared_slots(self.choices),
    {
        let data = match &self.choices.class_data {
            Some(d) => d,
            None => return 0,
        };
        let idx: usize = if self.choices.level == 0 { 0 } else { (self.choices.level - 1) as usize };
        if idx >= data.spell_slots.len() {
            return 0;
        }
        let slots = &data.spell_slots[idx];
        let ghost cells = strs(slots@);
        let mut total: usize = 0;
        let mut i: usize = 0;
        proof {
            lemma_row_total_prefix(cells, 0);
        }
        while i < slots.len()
            invariant
                cells == strs(slots@),
                slot_row(self.choices) == Some(cells),
                row_total(cells) <= usize::MAX,
                i <= slots@.len(),
                total == row_total(cells.take(i as int)),
            decreases slots@.len() - i,
        {
            assert(cells.take(i + 1).drop_last() =~= cells.take(i as int));
            proof {
                lemma_row_total_prefix(cells, i + 1);
            }
            let n = crate::build::commands::cell_count_pub(&slots[i]);
            total = total + n;
            i = i + 1;
        }
        assert(cells.take(slots@.len() as int) =~= cells);
        total
    }

    /// The rank and slot of the spell cursor in the prepared region.
    pub fn spell_cursor_rank(&self) -> (r: Option<(u8, usize)>)
        requires
            prepared_slots(self.choices) <= usize::MAX,
        ensures
            match slot_row(self.choices) {
                Some(cells) => match rank_at(cells, 0, 0, self.spell_cursor as nat) {
                    Some((k, j)) => r == Some((k, j as usize)),
                    None => r is None,
                },
                None => r is None,
            },
    {
        let data = match &self.choices.class_data {
            Some(d) => d,
            None => return None,
        };
        let idx: usize = if self.choices.level == 0 { 0 } else { (self.choices.level - 1) as usize };
        if idx >= data.spell_slots.len() {
            return None;
        }
        let slots = &data.spell_slots[idx];
        let ghost cells = strs(slots@);
        let mut flat: usize = 0;
        let mut k: usize = 0;
        while k < slots.len()
            invariant
                cells == strs(slots@),
                slot_row(self.choices) == Some(cells),
                row_total(cells) <= usize::MAX,
                k <= slots@.len(),
                flat <= row_total(cells.take(k as int)),
                flat <= self.spell_cursor,
                rank_at(cells, k as int, flat as nat, self.spell_cursor as nat) == rank_at(cells, 0, 0, self.spell_cursor as nat),
            decreases slots@.len() - k,
        {
            assert(cells.take(k + 1).drop_last() =~= cells.take(k as int));
            proof {
                lemma_row_total_prefix(cells, k + 1);
            }
            let (v, lo, hi) = cell_text(&slots[k]);
            if is_blank_exec(&v, lo, hi) {
                proof {
                    lemma_blank_count(cells[k as int]);
                }
                k = k + 1;
                continue;
            }
            let count = match parse_unsigned_chars(&v, lo, hi, usize::MAX as u64) {
                Some(n) => n as usize,
                None => return None,
            };
            assert(crate::build::commands::cell_count(cells[k as int]) == count);
            if self.spell_cursor < flat + count {
                return Some((#[verifier::truncate] (k as u8), self.spell_cursor - flat));
            }
            flat = flat + count;
            k = k + 1;
        }
        None
    }

    /// The index within the focus spells when the spell cursor is past the prepared slots.
    pub fn focus_spell_index(&self) -> (r: Option<usize>)
        requires
            prepared_slots(self.choices) <= usize::MAX,
        ensures
            r == (if self.spell_cursor >= prepared_slots(self.choices) {
                Some((self.spell_cursor - prepared_slots(self.choices)) as usize)
            } else {
                None
            }),
    {
        let prepared = self.prepared_slot_count();
        if self.spell_cursor >= prepared {
            Some(self.spell_cursor - prepared)
        } else {
            None
        }
    }

    /// Rows of the Spells tab: the prepared slots, then (for casters) the focus spells
    /// and an empty row to add one.
    pub fn total_spell_slots(&self) -> (r: usize)
        requires
            spell_rows(*self) <= usize::MAX,
        ensures
            r == spell_rows(*self),
    {
        let prepared = self.prepared_slot_count();
        let focus = if self.character.spell_caster.is_some() { self.choices.focus_spells.len() + 1 } else { 0 };
        prepared + focus
    }

    pub fn spell_up(&mut self)
        ensures
            spell_moved_up(*old(self), *final(self)),
    {
        if self.spell_cursor > 0 {
            self.spell_cursor = self.spell_cursor - 1;
        }
    }

    pub fn spell_down(&mut self)
        requires
            spell_rows(*old(self)) <= usize::MAX,
        ensures
            spell_moved_down(*old(self), *final(self)),
    {
        let total = self.total_spell_slots();
        let max = if total > 0 { total - 1 } else { 0 };
        if self.spell_cursor < max {
            self.spell_cursor = self.spell_cursor + 1;
        }
    }
}

/// Rows of the Spells tab.
pub open spec fn spell_rows(a: App) -> nat {
    prepared_slots(a.choices) + if a.character.spell_caster is Some {
        a.choices.focus_spells@.len() + 1
    } else {
        0
    }
}


// ---------------------------------------------------------------------------
// Dialogs opened by commands
// ---------------------------------------------------------------------------

/// `m` is a fresh selection dialog with this title, level limit and ancestry filter.
pub open spec fn fresh_selection(m: SelectionModal, title: Seq<char>, max_level: Option<i32>, ancestry: Option<Seq<char>>) -> bool {
    &&& m.title@ == title
    &&& m.items@.len() == 0
    &&& m.cursor == 0
    &&& m.filter@.len() == 0
    &&& m.detail_scroll == 0
    &&& m.max_level == max_level
    &&& opt_str(m.ancestry_filter) == ancestry
}

/// `n` is `o` with a fresh selection dialog open and a status line.
pub open spec fn selection_opened(o: App, n: App, title: Seq<char>, max_level: Option<i32>, ancestry: Option<Seq<char>>, status: Seq<char>) -> bool {
    &&& n.modal matches Some(Modal::Selection(m)) && fresh_selection(m, title, max_level, ancestry)
    &&& n.status matches Some(st) && st@ == status
    &&& n == (App { modal: n.modal, status: n.status, ..o })
}

/// The label of a spell rank in the picker's title.
pub open spec fn rank_label(rank: u8) -> Seq<char> {
    if rank == 0 {
        "Cantrip"@
    } else {
        "Rank "@ + decimal(rank as nat)
    }
}

fn pair(a: &str, b: &str) -> (r: (String, String))
    ensures
        r.0@ == a@,
        r.1@ == b@,
{
    (owned(a), owned(b))
}

/// Views of filter pairs.
pub open spec fn filters_view(f: Seq<(String, String)>) -> Seq<(Seq<char>, Seq<char>)> {
    f.map_values(|p: (String, String)| (p.0@, p.1@))
}

/// `n` and `r` are what Enter on the Spells tab does to `o`.
pub open spec fn spell_picker_opened(o: App, n: App, r: Effect) -> bool {
    if o.spell_cursor >= prepared_slots(o.choices) {
        &&& selection_opened(o, App { spell_pick_rank: o.spell_pick_rank, ..n }, "Select Focus Spell"@, None, None, "Loading focus spells..."@)
        &&& n.spell_pick_rank == Some(crate::build::commands::FOCUS_PICK)
        &&& r matches Effect::Load(req) && search_of(req, "spell"@, seq![("trait"@, "Focus"@)])
    } else {
        match (slot_row(o.choices), o.choices.class_data) {
            (Some(cells), Some(d)) => match (rank_at(cells, 0, 0, o.spell_cursor as nat), d.tradition) {
                (Some((rank, _)), Some(t)) => {
                    &&& selection_opened(
                        o,
                        App { spell_pick_rank: o.spell_pick_rank, ..n },
                        "Select Spell — "@ + rank_label(rank),
                        Some(rank as i32),
                        None,
                        "Loading spells..."@,
                    )
                    &&& n.spell_pick_rank == Some(rank)
                    &&& r matches Effect::Load(req) && search_of(
                        req,
                        "spell"@,
                        if rank == 0 {
                            seq![("tradition"@, t@), ("trait"@, "Cantrip"@)]
                        } else {
                            seq![("tradition"@, t@)]
                        },
                    )
                },
                _ => n == o && r is Nothing,
            },
            _ => n == o && r is Nothing,
        }
    }
}

/// `n` is `o` with the spell under the Spells cursor removed.
pub open spec fn spell_slot_cleared(o: App, n: App) -> bool {
    let p = prepared_slots(o.choices);
    if o.spell_cursor >= p {
        let fi = o.spell_cursor - p;
        if fi < o.choices.focus_spells@.len() {
            &&& n.choices == (BuildChoices { focus_spells: n.choices.focus_spells, ..o.choices })
            &&& n.choices.focus_spells@ == o.choices.focus_spells@.remove(fi)
            &&& n.character@ == recalculated(n.choices, o.character@)
            &&& n == (App { choices: n.choices, character: n.character, ..o })
        } else {
            n == o
        }
    } else {
        match slot_row(o.choices) {
            Some(cells) => match rank_at(cells, 0, 0, o.spell_cursor as nat) {
                Some((rank, j)) => {
                    let slot = j as usize;
                    let removed = match crate::build::maps::level_index(o.choices.prepared_spells.view(), rank) {
                        Some(i) => slot < o.choices.prepared_spells.view()[i].1.len(),
                        None => false,
                    };
                    if removed {
                        &&& crate::build::commands::prepared_removed(o.choices, n.choices, rank, slot)
                        &&& n.character@ == recalculated(n.choices, o.character@)
                        &&& n == (App { choices: n.choices, character: n.character, ..o })
                    } else {
                        n == o
                    }
                },
                None => n == o,
            },
            None => n == o,
        }
    }
}

impl App {
    /// Open the focus spell picker: a search of spells with the Focus trait.
    pub fn open_focus_spell_picker(&mut self) -> (r: LoadRequest)
        ensures
            selection_opened(
                *old(self),
                App { spell_pick_rank: old(self).spell_pick_rank, ..*final(self) },
                "Select Focus Spell"@,
                None,
                None,
                "Loading focus spells..."@,
            ),
            final(self).spell_pick_rank == Some(crate::build::commands::FOCUS_PICK),
            search_of(r, "spell"@, seq![("trait"@, "Focus"@)]),
    {
        let modal = SelectionModal::new("Select Focus Spell");
        self.spell_pick_rank = Some(crate::build::commands::FOCUS_PICK);
        self.modal = Some(Modal::Selection(modal));
        self.status = Some(owned("Loading focus spells..."));
        let filters = vec![pair("trait", "Focus")];
        assert(filters_view(filters@) =~= seq![("trait"@, "Focus"@)]);
        LoadRequest::SearchCategory { category: owned("spell"), filters }
    }

    /// Enter on the Spells tab: pick a focus spell in the focus region, else a spell
    /// of the cursor's rank and the class's tradition (cantrips for rank 0).
    pub fn open_spell_picker(&mut self) -> (r: Effect)
        requires
            prepared_slots(old(self).choices) <= usize::MAX,
        ensures
            spell_picker_opened(*old(self), *final(self), r),
    {
        if let Some(_fi) = self.focus_spell_index() {
            let req = self.open_focus_spell_picker();
            return Effect::Load(req);
        }
        let (rank, _slot) = match self.spell_cursor_rank() {
            Some(p) => p,
            None => return Effect::Nothing,
        };
        let tradition = match &self.choices.class_data {
            Some(d) => match &d.tradition {
                Some(t) => owned(t.as_str()),
                None => return Effect::Nothing,
            },
            None => return Effect::Nothing,
        };
        let mut title = owned("Select Spell — ");
        if rank == 0 {
            title.append("Cantrip");
        } else {
            title.append("Rank ");
            let d = decimal_string(rank as u64);
            title.append(d.as_str());
            assert(title@ =~= "Select Spell — "@ + ("Rank "@ + decimal(rank as nat)));
        }
        assert(title@ == "Select Spell — "@ + rank_label(rank));
        let mut modal = SelectionModal::new(title.as_str());
        modal.max_level = Some(rank as i32);
        let mut filters = vec![(owned("tradition"), tradition)];
        if rank == 0 {
            filters.push(pair("trait", "Cantrip"));
        }
        proof {
            if rank == 0 {
                assert(filters_view(filters@) =~= seq![("tradition"@, filters@[0].1@), ("trait"@, "Cantrip"@)]);
            } else {
                assert(filters_view(filters@) =~= seq![("tradition"@, filters@[0].1@)]);
            }
        }
        self.spell_pick_rank = Some(rank);
        self.modal = Some(Modal::Selection(modal));
        self.status = Some(owned("Loading spells..."));
        Effect::Load(LoadRequest::SearchCategory { category: owned("spell"), filters })
    }

    /// Record a spell picked for `rank` (the focus pick records a focus spell) and
    /// recompute the character.
    pub fn apply_spell_selection(&mut self, doc: &Document, rank: u8)
        ensures
            crate::build::commands::spell_picked(
                old(self).choices,
                final(self).choices,
                crate::build::commands::name_or_empty(*doc),
                opt_str(doc.id),
                rank,
            ),
            final(self).character@ == recalculated(final(self).choices, old(self).character@),
            *final(self) == (App { choices: final(self).choices, character: final(self).character, ..*old(self) }),
    {
        let name = match &doc.name {
            Some(n) => owned(n.as_str()),
            None => String::new(),
        };
        crate::build::commands::apply_spell_selection(&mut self.choices, name.as_str(), &doc.id, rank);
        self.recalc_character();
    }

    /// Delete or Backspace on the Spells tab: remove the focus spell, or the prepared
    /// spell, under the cursor, and recompute the character.
    pub fn clear_spell_slot(&mut self)
        requires
            prepared_slots(old(self).choices) <= usize::MAX,
        ensures
            spell_slot_cleared(*old(self), *final(self)),
    {
        if let Some(fi) = self.focus_spell_index() {
            if crate::build::commands::remove_focus_spell(&mut self.choices, fi) {
                self.recalc_character();
            }
            return;
        }
        let (rank, slot) = match self.spell_cursor_rank() {
            Some(p) => p,
            None => return,
        };
        if crate::build::commands::remove_prepared_spell(&mut self.choices, rank, slot) {
            self.recalc_character();
        }
    }
}

// ---------------------------------------------------------------------------
// The Equipment tab
// ---------------------------------------------------------------------------

/// The search a section's "Add" row starts: its category and dialog title.
pub open spec fn add_search(section: u8) -> (Seq<char>, Seq<char>) {
    if section == 0 {
        ("weapon"@, "Add Weapon"@)
    } else if section == 1 {
        ("armor"@, "Add Armor"@)
    } else if section == 2 {
        ("shield"@, "Add Shield"@)
    } else {
        ("equipment"@, "Add Item"@)
    }
}

/// `m` is the rune dialog for the weapon at `i`.
pub open spec fn weapon_runes(m: RuneModal, eq: crate::model::equipment::Equipment, i: int) -> bool {
    let w = eq.weapons@[i];
    &&& m.target == RuneTarget::Weapon(i as usize)
    &&& m.title@ == rune_title(w.name@)
    &&& m.potency == w.potency
    &&& m.striking == w.striking
    &&& m.resilient == ResilientRune::NoRune
    &&& m.cursor == 0
    &&& m.fields@ == seq![RuneField::Potency, RuneField::Striking]
}

/// `m` is the rune dialog for the armor at `i`.
pub open spec fn armor_runes(m: RuneModal, eq: crate::model::equipment::Equipment, i: int) -> bool {
    let a = eq.armor@[i];
    &&& m.target == RuneTarget::Armor(i as usize)
    &&& m.title@ == rune_title(a.name@)
    &&& m.potency == a.potency
    &&& m.striking == StrikingRune::NoRune
    &&& m.resilient == a.resilient
    &&& m.cursor == 0
    &&& m.fields@ == seq![RuneField::Potency, RuneField::Resilient]
}

/// `m` is the rune dialog for the shield `sh`.
pub open spec fn shield_runes(m: RuneModal, sh: crate::model::equipment::Shield) -> bool {
    &&& m.target == RuneTarget::Shield
    &&& m.title@ == rune_title(sh.name@)
    &&& m.potency == sh.potency
    &&& m.striking == StrikingRune::NoRune
    &&& m.resilient == sh.resilient
    &&& m.cursor == 0
    &&& m.fields@ == seq![RuneField::Potency, RuneField::Resilient]
}

/// `n` is `o` after Up on the Equipment tab.
pub open spec fn equipment_moved_up(o: App, n: App) -> bool {
    n == (App {
        equipment_cursor: if o.equipment_cursor > 0 { (o.equipment_cursor - 1) as usize } else { 0 },
        ..o
    })
}

/// `n` is `o` after Down on the Equipment tab.
pub open spec fn equipment_moved_down(o: App, n: App) -> bool {
    let max = (equipment_rows(o.choices.equipment) - 1) as int;
    n == (App {
        equipment_cursor: if o.equipment_cursor < max { (o.equipment_cursor + 1) as usize } else { o.equipment_cursor },
        ..o
    })
}

/// `n` and `r` are what Enter on the Equipment tab does to `o`.
pub open spec fn equipment_entered(o: App, n: App, r: Effect) -> bool {
    let eq = o.choices.equipment;
    let (section, idx, is_add) = cursor_info(eq, o.equipment_cursor as int);
    if is_add {
        let (cat, title) = add_search(section);
        &&& selection_opened(o, n, title, None, None, "Loading "@ + cat + "..."@)
        &&& r matches Effect::Load(req) && search_of(req, cat, Seq::empty())
    } else if section == 0 {
        &&& n.modal matches Some(Modal::Runes(m)) && weapon_runes(m, eq, idx)
        &&& n == (App { modal: n.modal, ..o })
        &&& r is Nothing
    } else if section == 1 {
        &&& n.modal matches Some(Modal::Runes(m)) && armor_runes(m, eq, idx)
        &&& n == (App { modal: n.modal, ..o })
        &&& r is Nothing
    } else if section == 2 {
        &&& match eq.shield {
            Some(sh) => {
                &&& n.choices == (BuildChoices {
                    equipment: crate::model::equipment::Equipment {
                        shield: Some(crate::model::equipment::Shield { raised: !sh.raised, ..sh }),
                        ..eq
                    },
                    ..o.choices
                })
                &&& n.character@ == recalculated(n.choices, o.character@)
                &&& n == (App { choices: n.choices, character: n.character, ..o })
            },
            None => n == o,
        }
        &&& r is Nothing
    } else {
        n == o && r is Nothing
    }
}

/// `n` is `o` with the equipment row under the cursor deleted.
pub open spec fn equipment_deleted(o: App, n: App) -> bool {
    let (section, idx, is_add) = cursor_info(o.choices.equipment, o.equipment_cursor as int);
    if is_add {
        n == o
    } else {
        let max = (equipment_rows(n.choices.equipment) - 1) as int;
        &&& n.choices == (BuildChoices { equipment: n.choices.equipment, ..o.choices })
        &&& crate::build::commands::row_deleted(o.choices.equipment, n.choices.equipment, section, idx as usize, false)
        &&& n.equipment_cursor == (if o.equipment_cursor > max { max as usize } else { o.equipment_cursor })
        &&& n.character@ == recalculated(n.choices, o.character@)
        &&& n == (App { choices: n.choices, character: n.character, equipment_cursor: n.equipment_cursor, ..o })
    }
}

/// `n` is `o` with the rune dialog open for the equipment row under the cursor.
pub open spec fn rune_dialog_opened(o: App, n: App) -> bool {
    let eq = o.choices.equipment;
    let (section, idx, is_add) = cursor_info(eq, o.equipment_cursor as int);
    if is_add {
        n == o
    } else if section == 0 {
        n.modal matches Some(Modal::Runes(m)) && weapon_runes(m, eq, idx) && n == (App { modal: n.modal, ..o })
    } else if section == 1 {
        n.modal matches Some(Modal::Runes(m)) && armor_runes(m, eq, idx) && n == (App { modal: n.modal, ..o })
    } else if section == 2 {
        match eq.shield {
            Some(sh) => n.modal matches Some(Modal::Runes(m)) && shield_runes(m, sh) && n == (App { modal: n.modal, ..o }),
            None => n == o,
        }
    } else {
        n == o
    }
}

/// `n` is `o` with the runes of its rune dialog put on the item.
pub open spec fn runes_set(o: App, n: App) -> bool {
    match o.modal {
        Some(Modal::Runes(m)) => {
            &&& n.choices == (BuildChoices { equipment: n.choices.equipment, ..o.choices })
            &&& crate::build::commands::runes_applied(
                o.choices.equipment,
                n.choices.equipment,
                rune_slot(m.target),
                m.potency,
                m.striking,
                m.resilient,
            )
            &&& n.character@ == recalculated(n.choices, o.character@)
            &&& n == (App { choices: n.choices, character: n.character, ..o })
        },
        _ => n == o,
    }
}

impl App {
    pub fn equipment_up(&mut self)
        ensures
            equipment_moved_up(*old(self), *final(self)),
    {
        if self.equipment_cursor > 0 {
            self.equipment_cursor = self.equipment_cursor - 1;
        }
    }

    pub fn equipment_down(&mut self)
        requires
            rows_fit(old(self).choices.equipment),
        ensures
            equipment_moved_down(*old(self), *final(self)),
    {
        let rows = crate::build::commands::equipment_row_count(&self.choices.equipment);
        let max = rows - 1;
        if self.equipment_cursor < max {
            self.equipment_cursor = self.equipment_cursor + 1;
        }
    }

    /// Enter on the Equipment tab: an "Add" row searches its category; a weapon or
    /// armor opens its rune dialog; the shield row raises or lowers the shield.
    #[verifier::spinoff_prover]
    #[verifier::rlimit(40)]
    pub fn equipment_enter(&mut self) -> (r: Effect)
        ensures
            equipment_entered(*old(self), *final(self), r),
    {
        let (section, idx, is_add) = crate::build::commands::equipment_cursor_info(&self.choices.equipment, self.equipment_cursor);
        if is_add {
            // Search the section's category
            let (category, title) = if section == 0 {
                ("weapon", "Add Weapon")
            } else if section == 1 {
                ("armor", "Add Armor")
            } else if section == 2 {
                ("shield", "Add Shield")
            } else {
                ("equipment", "Add Item")
            };
            let modal = SelectionModal::new(title);
            self.modal = Some(Modal::Selection(modal));
            let mut st = owned("Loading ");
            st.append(category);
            st.append("...");
            self.status = Some(st);
            let filters: Vec<(String, String)> = Vec::new();
            assert(filters_view(filters@) =~= Seq::<(Seq<char>, Seq<char>)>::empty());
            return Effect::Load(LoadRequest::SearchCategory { category: owned(category), filters });
        }
        if section == 0 {
            let w = &self.choices.equipment.weapons[idx];
            let modal = RuneModal::for_weapon(idx, w.name.as_str(), w.potency, w.striking);
            self.modal = Some(Modal::Runes(modal));
        } else if section == 1 {
            let a = &self.choices.equipment.armor[idx];
            let modal = RuneModal::for_armor(idx, a.name.as_str(), a.potency, a.resilient);
            self.modal = Some(Modal::Runes(modal));
        } else if section == 2 {
            // Raise or lower the shield
            if crate::build::commands::toggle_shield(&mut self.choices.equipment) {
                self.recalc_character();
            }
        }
        Effect::Nothing
    }

    /// Delete on the Equipment tab: remove the item under the cursor (not an "Add"
    /// row), keep the cursor on the list, and recompute the character.
    pub fn equipment_delete(&mut self)
        requires
            rows_fit(old(self).choices.equipment),
        ensures
            equipment_deleted(*old(self), *final(self)),
    {
        let (section, idx, is_add) = crate::build::commands::equipment_cursor_info(&self.choices.equipment, self.equipment_cursor);
        if is_add {
            return;
        }
        crate::build::commands::delete_equipment(&mut self.choices.equipment, section, idx, false);
        let rows = crate::build::commands::equipment_row_count(&self.choices.equipment);
        let max = rows - 1;
        if self.equipment_cursor > max {
            self.equipment_cursor = max;
        }
        self.recalc_character();
    }

    /// 'r' on the Equipment tab: open the rune dialog of the weapon, armor or shield
    /// under the cursor.
    pub fn open_equipment_rune_modal(&mut self)
        ensures
            rune_dialog_opened(*old(self), *final(self)),
    {
        let (section, idx, is_add) = crate::build::commands::equipment_cursor_info(&self.choices.equipment, self.equipment_cursor);
        if is_add {
            return;
        }
        if section == 0 {
            let w = &self.choices.equipment.weapons[idx];
            let modal = RuneModal::for_weapon(idx, w.name.as_str(), w.potency, w.striking);
            self.modal = Some(Modal::Runes(modal));
        } else if section == 1 {
            let a = &self.choices.equipment.armor[idx];
            let modal = RuneModal::for_armor(idx, a.name.as_str(), a.potency, a.resilient);
            self.modal = Some(Modal::Runes(modal));
        } else if section == 2 {
            match &self.choices.equipment.shield {
                Some(sh) => {
                    let modal = RuneModal::for_shield(sh.name.as_str(), sh.potency, sh.resilient);
                    self.modal = Some(Modal::Runes(modal));
                },
                None => {},
            }
        }
    }

    /// Apply the rune dialog's values to its target and recompute the character.
    pub fn apply_runes(&mut self)
        ensures
            runes_set(*old(self), *final(self)),
    {
        let (target, potency, striking, resilient) = match &self.modal {
            Some(Modal::Runes(m)) => (
                match m.target {
                    RuneTarget::Weapon(i) => crate::build::commands::RuneSlot::Weapon(i),
                    RuneTarget::Armor(i) => crate::build::commands::RuneSlot::Armor(i),
                    RuneTarget::Shield => crate::build::commands::RuneSlot::Shield,
                },
                m.potency,
                m.striking,
                m.resilient,
            ),
            _ => return,
        };
        crate::build::commands::apply_runes(&mut self.choices.equipment, target, potency, striking, resilient);
        self.recalc_character();
    }

    /// Add the item a picked document describes and recompute the character.
    pub fn apply_equipment_selection(&mut self, doc: &Document)
        ensures
            final(self).choices == (BuildChoices { equipment: final(self).choices.equipment, ..old(self).choices }),
            crate::build::commands::item_added(old(self).choices.equipment, final(self).choices.equipment, *doc),
            final(self).character@ == recalculated(final(self).choices, old(self).character@),
            *final(self) == (App { choices: final(self).choices, character: final(self).character, ..*old(self) }),
    {
        crate::build::commands::add_equipment(&mut self.choices.equipment, doc);
        self.recalc_character();
    }
}

/// Where a rune dialog's target sits in the equipment.
pub open spec fn rune_slot(t: RuneTarget) -> crate::build::commands::RuneSlot {
    match t {
        RuneTarget::Weapon(i) => crate::build::commands::RuneSlot::Weapon(i),
        RuneTarget::Armor(i) => crate::build::commands::RuneSlot::Armor(i),
        RuneTarget::Shield => crate::build::commands::RuneSlot::Shield,
    }
}


// ---------------------------------------------------------------------------
// Boosts, skills, deity picks and renaming
// ---------------------------------------------------------------------------

/// The boost parts of optional data: its spec, or nothing offered.
pub open spec fn ancestry_parts(c: BuildChoices) -> SpecParts {
    match c.ancestry_data {
        Some(d) => parts(d.boost_spec),
        None => no_parts(),
    }
}

/// The background's boost parts, or nothing offered.
pub open spec fn background_parts(c: BuildChoices) -> SpecParts {
    match c.background_data {
        Some(d) => parts(d.boost_spec),
        None => no_parts(),
    }
}

/// The class's boost parts, or nothing offered.
pub open spec fn class_parts(c: BuildChoices) -> SpecParts {
    match c.class_data {
        Some(d) => parts(d.boost_spec),
        None => no_parts(),
    }
}

/// The groups of the boost dialog for `level`: at level 1 those of the ancestry,
/// background and class plus the free boosts; later only the level's free boosts.
pub open spec fn boost_groups_for(c: BuildChoices, level: u8) -> Seq<BoostGroupView> {
    if level == 1 {
        groups_for(ancestry_parts(c), background_parts(c), class_parts(c), level)
    } else {
        groups_for(no_parts(), no_parts(), no_parts(), level)
    }
}

/// The ability choices after storing each group's boosts under its source, in order.
pub open spec fn groups_stored(
    v: Seq<(Seq<char>, (Seq<Ability>, Seq<Ability>, Seq<Ability>))>,
    gs: Seq<BoostGroupView>,
) -> Seq<(Seq<char>, (Seq<Ability>, Seq<Ability>, Seq<Ability>))>
    decreases gs.len(),
{
    if gs.len() == 0 {
        v
    } else {
        let g = gs.last();
        name_stored(groups_stored(v, gs.drop_last()), g.source, (g.fixed, g.chosen, g.flaws))
    }
}

/// The highest rank a skill increase at `level` may reach.
pub open spec fn max_increase_rank(level: u8) -> Rank {
    if level >= 15 {
        Rank::Legendary
    } else if level >= 7 {
        Rank::Master
    } else {
        Rank::Expert
    }
}

fn boost_spec_of(spec: &BoostSpec) -> (r: BoostSpec)
    ensures
        parts(r) == parts(*spec),
{
    spec.copy()
}

/// `n` is `o` with the boosts of its boost dialog stored in the build.
pub open spec fn boosts_applied(o: App, n: App) -> bool {
    match o.modal {
        Some(Modal::Boosts(m)) => {
            &&& n.choices == (BuildChoices { ability_choices: n.choices.ability_choices, ..o.choices })
            &&& n.choices.ability_choices.view() == groups_stored(o.choices.ability_choices.view(), groups_view(m.groups@))
            &&& refreshed(o, n)
            &&& n == (App { choices: n.choices, character: n.character, progression: n.progression, ..o })
        },
        _ => n == o,
    }
}

/// `n` is `o` with the skill picked in its skill dialog stored, and the dialog closed.
pub open spec fn skill_committed(o: App, n: App) -> bool {
    match o.modal {
        Some(Modal::Skill(m)) => {
            let all = crate::ui::modal::skills::all_entries(m);
            if m.cursor < all.len() && all[m.cursor as int].2 {
                let skill = all[m.cursor as int].0;
                let v = entries_view(o.progression@);
                let c = o.build_cursor as int;
                let (is_pick, level) = if c < v.len() {
                    match v[c] {
                        EntryView::Slot(slot, l, _, _) => (slot == BuildSlot::SkillSelection, l),
                        EntryView::Header(_) => (false, 1u8),
                    }
                } else {
                    (false, 1u8)
                };
                &&& if is_pick {
                    &&& n.choices == (BuildChoices { initial_skills: n.choices.initial_skills, ..o.choices })
                    &&& strs(n.choices.initial_skills@) == strs(o.choices.initial_skills@).push(skill)
                } else {
                    &&& n.choices == (BuildChoices { skill_increases: n.choices.skill_increases, ..o.choices })
                    &&& n.choices.skill_increases.view() == level_stored(o.choices.skill_increases.view(), level, skill)
                }
                &&& refreshed(o, App { modal: o.modal, ..n })
                &&& n == (App { choices: n.choices, character: n.character, progression: n.progression, modal: None, ..o })
            } else {
                n == (App { modal: None, ..o })
            }
        },
        _ => n == (App { modal: None, ..o }),
    }
}

/// `n` is `o` with a domain or divine font picked.
pub open spec fn domain_picked(o: App, n: App, kind: PickKind, value: Seq<char>) -> bool {
    exists|mid: App| {
        &&& (if kind == PickKind::Domain {
            &&& mid.choices == (BuildChoices { chosen_domains: mid.choices.chosen_domains, ..o.choices })
            &&& strs(mid.choices.chosen_domains@) == strs(o.choices.chosen_domains@).push(value)
        } else {
            mid.choices == (BuildChoices { chosen_divine_font: font_from_lower(lowercase(value)), ..o.choices })
        })
        &&& refreshed(o, mid)
        &&& mid == (App { choices: mid.choices, character: mid.character, progression: mid.progression, ..o })
        &&& font_offered(mid, n)
    }
}

/// `n` is `o` after a text field was entered.
pub open spec fn text_applied(o: App, n: App, field: Seq<char>, value: Seq<char>) -> bool {
    if field == "Name:"@ && value.len() > 0 {
        &&& n.choices.name@ == value
        &&& n.character.name@ == value
        &&& n.choices == (BuildChoices { name: n.choices.name, ..o.choices })
        &&& n.character == (Character { name: n.character.name, ..o.character })
        &&& n == (App { choices: n.choices, character: n.character, ..o })
    } else {
        n == o
    }
}

impl App {
    /// Open the boost dialog for the ability boost slot at `level`.
    pub fn open_boost_modal(&mut self, level: u8)
        ensures
            final(self).modal matches Some(Modal::Boosts(m)) && groups_view(m.groups@) == boost_groups_for(old(self).choices, level)
                && m.group_cursor == 0 && m.ability_cursor == 0,
            *final(self) == (App { modal: final(self).modal, ..*old(self) }),
    {
        let modal = if level == 1 {
            let a = match &self.choices.ancestry_data {
                Some(d) => boost_spec_of(&d.boost_spec),
                None => BoostSpec::empty(),
            };
            let b = match &self.choices.background_data {
                Some(d) => boost_spec_of(&d.boost_spec),
                None => BoostSpec::empty(),
            };
            let c = match &self.choices.class_data {
                Some(d) => boost_spec_of(&d.boost_spec),
                None => BoostSpec::empty(),
            };
            assert(parts(a) =~= ancestry_parts(self.choices));
            assert(parts(b) =~= background_parts(self.choices));
            assert(parts(c) =~= class_parts(self.choices));
            BoostModal::new(&a, &b, &c, level)
        } else {
            let e = BoostSpec::empty();
            assert(parts(e) =~= no_parts());
            BoostModal::new(&e, &e, &e, level)
        };
        self.modal = Some(Modal::Boosts(modal));
    }

    /// Store the boost dialog's groups as ability choices, by source, then recompute
    /// the character and sync the progression.
    #[verifier::spinoff_prover]
    #[verifier::rlimit(40)]
    pub fn apply_boosts(&mut self)
        ensures
            boosts_applied(*old(self), *final(self)),
    {
        let taken = self.modal.take();
        let modal = match taken {
            Some(Modal::Boosts(m)) => m,
            other => {
                self.modal = other;
                return;
            },
        };
        let ghost gv = groups_view(modal.groups@);
        let ghost start = self.choices.ability_choices.view();
        let mut i: usize = 0;
        while i < modal.groups.len()
            invariant
                i <= modal.groups@.len(),
                gv == groups_view(modal.groups@),
                self.choices.ability_choices.view() == groups_stored(start, gv.take(i as int)),
                self.choices == (BuildChoices { ability_choices: self.choices.ability_choices, ..old(self).choices }),
                *self == (App { choices: self.choices, modal: None, ..*old(self) }),
            decreases modal.groups@.len() - i,
        {
            assert(gv.take(i + 1).drop_last() =~= gv.take(i as int));
            let g = &modal.groups[i];
            let set = AbilityChoiceSet {
                fixed: copy_abilities(&g.fixed),
                chosen: copy_abilities(&g.chosen),
                flaws: copy_abilities(&g.flaws),
            };
            self.choices.ability_choices.insert(owned(g.source.as_str()), set);
            i = i + 1;
        }
        assert(gv.take(modal.groups@.len() as int) =~= gv);
        self.modal = Some(Modal::Boosts(modal));
        self.refresh();
    }

    /// Open the first-level skill picks: untrained skills not yet picked.
    pub fn open_skill_selection_modal(&mut self)
        ensures
            final(self).modal matches Some(Modal::Skill(m)) && skill_pick_modal(
                m,
                old(self).character.proficiencies.skills@,
                old(self).choices.initial_skills@,
            ),
            *final(self) == (App { modal: final(self).modal, ..*old(self) }),
    {
        let modal = SkillModal::new_selection(&self.character.proficiencies.skills, &self.choices.initial_skills);
        self.modal = Some(Modal::Skill(modal));
    }

    /// Open the skill increase for `level`: trained skills and lores below the
    /// level's highest rank.
    pub fn open_skill_modal(&mut self, level: u8)
        ensures
            final(self).modal matches Some(Modal::Skill(m)) && skill_increase_modal(
                m,
                old(self).character.proficiencies.skills@,
                old(self).character.proficiencies.lores@,
                max_increase_rank(level),
            ),
            *final(self) == (App { modal: final(self).modal, ..*old(self) }),
    {
        // Max rank depends on level
        let max_rank = if level >= 15 {
            Rank::Legendary
        } else if level >= 7 {
            Rank::Master
        } else {
            Rank::Expert
        };
        let modal = SkillModal::new(&self.character.proficiencies.skills, &self.character.proficiencies.lores, max_rank);
        self.modal = Some(Modal::Skill(modal));
    }

    /// Enter in the skill dialog: the picked skill becomes an initial skill (skill
    /// selection slot) or the skill increase of the slot's level (level 1 when the
    /// cursor is not on a slot); the dialog closes.
    pub fn commit_skill(&mut self)
        ensures
            skill_committed(*old(self), *final(self)),
    {
        let taken = self.modal.take();
        let skill = match &taken {
            Some(Modal::Skill(m)) => match m.selected() {
                Some(s) => owned(s),
                None => return,
            },
            _ => return,
        };
        let ghost v = entries_view(self.progression@);
        let slot_info: Option<(BuildSlot, u8)> = if self.build_cursor < self.progression.len() {
            match &self.progression[self.build_cursor] {
                ProgressionEntry::Slot(st) => Some((st.slot, st.level)),
                ProgressionEntry::LevelHeader(_) => None,
            }
        } else {
            None
        };
        match slot_info {
            Some((BuildSlot::SkillSelection, _)) => {
                let ghost before = strs(self.choices.initial_skills@);
                self.choices.initial_skills.push(skill);
                assert(strs(self.choices.initial_skills@) =~= before.push(skill@));
            },
            _ => {
                let level = match slot_info {
                    Some((_, l)) => l,
                    None => 1,
                };
                self.choices.skill_increases.insert(level, skill);
            },
        }
        self.modal = taken;
        self.refresh();
        self.modal = None;
    }

    /// Rename the character when the text dialog for the name returns a non-empty value.
    pub fn apply_text_input(&mut self, field: &str, value: &str)
        ensures
            text_applied(*old(self), *final(self), field@, value@),
    {
        if crate::text::str_eq(field, "Name:") && value.unicode_len() > 0 {
            self.choices.name = owned(value);
            self.character.name = owned(value);
        }
    }

    /// When the deity offers a choice of divine fonts and none is chosen, open the
    /// font picker; a single font is chosen at once.
    pub fn maybe_open_font_modal(&mut self)
        ensures
            ({
                let o = *old(self);
                let n = *final(self);
                if o.choices.chosen_divine_font is Some {
                    n == o
                } else {
                    match o.choices.deity_data {
                        None => n == o,
                        Some(d) => if d.divine_font@.len() <= 1 {
                            n == (App {
                                choices: BuildChoices {
                                    chosen_divine_font: if d.divine_font@.len() == 1 { Some(d.divine_font@[0]) } else { None },
                                    ..o.choices
                                },
                                ..o
                            })
                        } else {
                            &&& n.modal matches Some(Modal::Domain(m)) && m.title@ == "Select Divine Font"@
                                && m.kind == PickKind::DivineFont && m.cursor == 0
                                && strs(m.items@) == d.divine_font@.map_values(|f: DivineFont| font_label(f))
                            &&& n == (App { modal: n.modal, ..o })
                        },
                    }
                }
            }),
    {
        if self.choices.chosen_divine_font.is_some() {
            return;
        }
        let fonts = match &self.choices.deity_data {
            Some(d) => &d.divine_font,
            None => return,
        };
        if fonts.len() <= 1 {
            // Auto-select if only one option
            if fonts.len() == 1 {
                self.choices.chosen_divine_font = Some(fonts[0]);
            }
            return;
        }
        let mut items: Vec<String> = Vec::new();
        let mut i: usize = 0;
        while i < fonts.len()
            invariant
                i <= fonts@.len(),
                strs(items@) == fonts@.take(i as int).map_values(|f: DivineFont| font_label(f)),
            decreases fonts@.len() - i,
        {
            let ghost prev = strs(items@);
            let label = owned(fonts[i].label());
            items.push(label);
            assert(strs(items@) =~= prev.push(font_label(fonts@[i as int])));
            assert(fonts@.take(i + 1) =~= fonts@.take(i as int).push(fonts@[i as int]));
            assert(strs(items@) =~= fonts@.take(i + 1).map_values(|f: DivineFont| font_label(f)));
            i = i + 1;
        }
        assert(fonts@.take(fonts@.len() as int) =~= fonts@);
        let modal = DomainModal::new("Select Divine Font", PickKind::DivineFont, items);
        self.modal = Some(Modal::Domain(modal));
    }

    /// A pick from the domain dialog: a domain is added, or the divine font is set
    /// from its label; then the character is recomputed, the progression synced, and
    /// the font picker offered if still needed.
    pub fn apply_domain_pick(&mut self, kind: PickKind, value: &str)
        ensures
            domain_picked(*old(self), *final(self), kind, value@),
    {
        match kind {
            PickKind::Domain => {
                let ghost before = strs(self.choices.chosen_domains@);
                self.choices.chosen_domains.push(owned(value));
                assert(strs(self.choices.chosen_domains@) =~= before.push(value@));
            },
            PickKind::DivineFont => {
                self.choices.chosen_divine_font = DivineFont::parse(value);
            },
        }
        self.refresh();
        let ghost mid = *self;
        self.maybe_open_font_modal();
        assert(font_offered(mid, *self));
    }
}

/// `n` is `o` after offering the divine font picker (`maybe_open_font_modal`).
pub open spec fn font_offered(o: App, n: App) -> bool {
    if o.choices.chosen_divine_font is Some {
        n == o
    } else {
        match o.choices.deity_data {
            None => n == o,
            Some(d) => if d.divine_font@.len() <= 1 {
                n == (App {
                    choices: BuildChoices {
                        chosen_divine_font: if d.divine_font@.len() == 1 { Some(d.divine_font@[0]) } else { None },
                        ..o.choices
                    },
                    ..o
                })
            } else {
                &&& n.modal matches Some(Modal::Domain(m)) && m.title@ == "Select Divine Font"@
                    && m.kind == PickKind::DivineFont && m.cursor == 0
                    && strs(m.items@) == d.divine_font@.map_values(|f: DivineFont| font_label(f))
                &&& n == (App { modal: n.modal, ..o })
            },
        }
    }
}


// ---------------------------------------------------------------------------
// Filling slots
// ---------------------------------------------------------------------------

/// The document's attributes can be read as boosts: at most 255 of them are "Free".
pub open spec fn attributes_fit(doc: Document) -> bool {
    free_count(strs(doc.attribute@)) <= 255
}

/// Whether the document's attributes can be read as boosts.
pub fn attributes_fit_exec(doc: &Document) -> (r: bool)
    ensures
        r == attributes_fit(*doc),
{
    let ghost sv = strs(doc.attribute@);
    let mut n: usize = 0;
    let mut i: usize = 0;
    while i < doc.attribute.len()
        invariant
            i <= doc.attribute@.len(),
            sv == strs(doc.attribute@),
            n == free_count(sv.take(i as int)),
            n <= 255,
        decreases doc.attribute@.len() - i,
    {
        assert(sv.take(i + 1).drop_last() =~= sv.take(i as int));
        assert(sv.take(i + 1).last() == doc.attribute@[i as int]@);
        if crate::text::eq_ignore_ascii_case(doc.attribute[i].as_str(), "Free") {
            if n == 255 {
                proof {
                    crate::build::mechanics::boosts::lemma_free_count_prefix(sv, i + 1);
                }
                return false;
            }
            n = n + 1;
        }
        i = i + 1;
    }
    assert(sv.take(doc.attribute@.len() as int) =~= sv);
    true
}

/// `n` is `o` after filling the slot under the cursor with `doc`.
pub open spec fn slot_filled(o: App, n: App, doc: Document) -> bool {
    let v = entries_view(o.progression@);
    let c = o.build_cursor as int;
    if c < v.len() {
        match v[c] {
            EntryView::Slot(slot, level, _, _) => if slot == BuildSlot::Deity {
                exists|mid: App| {
                    &&& crate::build::commands::selected(o.choices, mid.choices, slot, level, doc)
                    &&& mid == (App { choices: mid.choices, character: mid.character, progression: mid.progression, ..o })
                    &&& refreshed(o, mid)
                    &&& font_offered(mid, n)
                }
            } else {
                &&& crate::build::commands::selected(o.choices, n.choices, slot, level, doc)
                &&& n == (App { choices: n.choices, character: n.character, progression: n.progression, ..o })
                &&& if slot == BuildSlot::Class { crate::ui::app::rebuilt(o, n) } else { refreshed(o, n) }
            },
            EntryView::Header(_) => n == o,
        }
    } else {
        n == o
    }
}

/// `n` is `o` after Enter in its selection dialog.
pub open spec fn selection_confirmed(o: App, n: App) -> bool {
    match o.modal {
        Some(Modal::Selection(m)) => {
            let order = choose|ord: Seq<usize>| listing(m, ord);
            if m.cursor < order.len() {
                let doc = m.items@[order[m.cursor as int] as int];
                let base = App { modal: None, ..o };
                match o.spell_pick_rank {
                    Some(rank) => exists|mid: App| {
                        &&& crate::build::commands::spell_picked(o.choices, mid.choices, crate::build::commands::name_or_empty(doc), opt_str(doc.id), rank)
                        &&& mid.character@ == recalculated(mid.choices, o.character@)
                        &&& mid == (App { choices: mid.choices, character: mid.character, spell_pick_rank: None, ..base })
                        &&& n == mid
                    },
                    None => if has_prefix(m.title@, "Add "@) {
                        &&& n.choices == (BuildChoices { equipment: n.choices.equipment, ..o.choices })
                        &&& crate::build::commands::item_added(o.choices.equipment, n.choices.equipment, doc)
                        &&& n.character@ == recalculated(n.choices, o.character@)
                        &&& n == (App { choices: n.choices, character: n.character, ..base })
                    } else {
                        exists|mid: App| slot_filled(base, mid, doc) && n == (App { modal: None, ..mid })
                    },
                }
            } else {
                n == (App { modal: None, spell_pick_rank: None, ..o })
            }
        },
        _ => n == o,
    }
}

impl App {
    /// Fill the slot under the cursor with a picked document, then recompute: the
    /// progression is rebuilt for a class, and the divine font offered for a deity.
    pub fn apply_selection(&mut self, doc: &Document)
        requires
            attributes_fit(*doc),
        ensures
            slot_filled(*old(self), *final(self), *doc),
    {
        let ghost v = entries_view(self.progression@);
        if self.build_cursor >= self.progression.len() {
            return;
        }
        let (slot, level) = match &self.progression[self.build_cursor] {
            ProgressionEntry::Slot(st) => (st.slot, st.level),
            ProgressionEntry::LevelHeader(_) => return,
        };
        let follow = crate::build::commands::apply_selection_choices(&mut self.choices, slot, level, doc);
        match follow {
            crate::build::commands::FollowUp::Rebuild => {
                self.rebuild();
            },
            crate::build::commands::FollowUp::DeityChosen => {
                self.refresh();
                let ghost mid = *self;
                self.maybe_open_font_modal();
                assert(font_offered(mid, *self));
            },
            crate::build::commands::FollowUp::Refresh => {
                self.refresh();
            },
        }
    }

    /// Enter in the selection dialog: the document under the cursor fills the pending
    /// spell pick, is added as equipment (an "Add ..." dialog), or fills the slot under
    /// the build cursor; the dialog closes.
    pub fn confirm_selection(&mut self)
        requires
            old(self).modal matches Some(Modal::Selection(m)) ==> forall|i: int|
                0 <= i < m.items@.len() ==> attributes_fit(#[trigger] m.items@[i]),
        ensures
            selection_confirmed(*old(self), *final(self)),
    {
        let taken = self.modal.take();
        let m = match taken {
            Some(Modal::Selection(m)) => m,
            other => {
                self.modal = other;
                return;
            },
        };
        let order = m.filtered_items();
        proof {
            crate::ui::modal::selection::lemma_listing_unique(m, order@, choose|ord: Seq<usize>| listing(m, ord));
        }
        if m.cursor >= order.len() {
            self.spell_pick_rank = None;
            return;
        }
        let doc = &m.items[order[m.cursor]];
        match self.spell_pick_rank {
            Some(rank) => {
                self.spell_pick_rank = None;
                self.apply_spell_selection(doc, rank);
            },
            None => {
                if starts_with(m.title.as_str(), "Add ") {
                    self.apply_equipment_selection(doc);
                } else {
                    let ghost base = *self;
                    self.apply_selection(doc);
                    let ghost mid = *self;
                    self.modal = None;
                    assert(slot_filled(base, mid, *doc));
                }
            },
        }
    }
}

// ---------------------------------------------------------------------------
// Opening the dialog of a slot
// ---------------------------------------------------------------------------

/// The filters of the search that fills a feat slot: the ancestry's or class's trait,
/// or the Skill or General trait.
pub open spec fn slot_filters(c: BuildChoices, slot: BuildSlot) -> Seq<(Seq<char>, Seq<char>)> {
    match slot {
        BuildSlot::AncestryFeat => match opt_str(c.ancestry) {
            Some(a) => seq![("trait"@, a)],
            None => seq![],
        },
        BuildSlot::ClassFeat => match opt_str(c.class) {
            Some(a) => seq![("trait"@, a)],
            None => seq![],
        },
        BuildSlot::SkillFeat => seq![("trait"@, "Skill"@)],
        BuildSlot::GeneralFeat => seq![("trait"@, "General"@)],
        _ => seq![],
    }
}

/// Whether a slot's picks are limited to its level (the feat slots).
pub open spec fn is_feat_slot(slot: BuildSlot) -> bool {
    slot == BuildSlot::AncestryFeat || slot == BuildSlot::ClassFeat || slot == BuildSlot::SkillFeat
        || slot == BuildSlot::GeneralFeat
}

/// The category searched to fill a slot: a subclass's comes from the class.
pub open spec fn slot_search_category(c: BuildChoices, slot: BuildSlot) -> Option<Seq<char>> {
    if slot == BuildSlot::Subclass {
        match c.class_data {
            Some(d) => opt_str(d.subclass_category),
            None => None,
        }
    } else {
        slot_category(slot)
    }
}

/// The title of the dialog that fills a slot: a subclass is named after the class
/// ("Select Bloodline"), other slots by their label.
pub open spec fn slot_title(c: BuildChoices, slot: BuildSlot) -> Seq<char> {
    if slot == BuildSlot::Subclass {
        "Select "@ + match opt_str(c.class) {
            Some(n) => crate::build::mechanics::subclass::subclass_label_lower(lowercase(n)),
            None => "Subclass"@,
        }
    } else {
        "Select "@ + slot_label(slot)
    }
}

/// `r` asks for the document `name` in the given category.
pub open spec fn show_of(r: LoadRequest, name: Seq<char>, cat: Option<Seq<char>>) -> bool {
    match r {
        LoadRequest::ShowDocument { name: nm, category } => nm@ == name && opt_str(category) == cat,
        _ => false,
    }
}

/// `n` is `o` after Enter on the slot under the build cursor: a class feature is shown,
/// the boost and skill slots open their dialogs, and the other slots open a search.
pub open spec fn slot_opened(o: App, n: App, r: Effect) -> bool {
    let v = entries_view(o.progression@);
    let c = o.build_cursor as int;
    if c < v.len() && v[c] is Slot {
        let slot = v[c]->Slot_0;
        let level = v[c]->Slot_1;
        let filled = v[c]->Slot_2;
        if slot == BuildSlot::ClassFeature {
            match filled {
                Some(name) => {
                    &&& n.modal matches Some(Modal::Info(m)) && m.title@ == name && m.doc is None && m.scroll == 0
                    &&& n == (App { modal: n.modal, ..o })
                    &&& r matches Effect::Load(req) && show_of(req, name, Some("class-feature"@))
                },
                None => n == o && r is Nothing,
            }
        } else if slot == BuildSlot::AbilityBoosts {
            &&& n.modal matches Some(Modal::Boosts(m)) && groups_view(m.groups@) == boost_groups_for(o.choices, level)
                && m.group_cursor == 0 && m.ability_cursor == 0
            &&& n == (App { modal: n.modal, ..o })
            &&& r is Nothing
        } else if slot == BuildSlot::SkillIncrease {
            &&& n.modal matches Some(Modal::Skill(m)) && skill_increase_modal(
                m,
                o.character.proficiencies.skills@,
                o.character.proficiencies.lores@,
                max_increase_rank(level),
            )
            &&& n == (App { modal: n.modal, ..o })
            &&& r is Nothing
        } else if slot == BuildSlot::SkillSelection {
            &&& n.modal matches Some(Modal::Skill(m)) && skill_pick_modal(
                m,
                o.character.proficiencies.skills@,
                o.choices.initial_skills@,
            )
            &&& n == (App { modal: n.modal, ..o })
            &&& r is Nothing
        } else {
            match slot_search_category(o.choices, slot) {
                Some(cat) => {
                    &&& selection_opened(
                        o,
                        n,
                        slot_title(o.choices, slot),
                        if is_feat_slot(slot) { Some(level as i32) } else { None },
                        if slot == BuildSlot::Heritage { opt_str(o.choices.ancestry) } else { None },
                        "Loading "@ + cat + "..."@,
                    )
                    &&& r matches Effect::Load(req) && search_of(req, cat, slot_filters(o.choices, slot))
                },
                None => n == o && r is Nothing,
            }
        }
    } else {
        n == o && r is Nothing
    }
}

fn opt_copy(s: &Option<String>) -> (r: Option<String>)
    ensures
        opt_str(r) == opt_str(*s),
{
    match s {
        Some(x) => Some(owned(x.as_str())),
        None => None,
    }
}

impl App {
    /// Enter in the build list: open what fills the slot under the cursor.
    pub fn open_modal_for_cursor(&mut self) -> (r: Effect)
        ensures
            slot_opened(*old(self), *final(self), r),
    {
        if self.build_cursor >= self.progression.len() {
            return Effect::Nothing;
        }
        let (slot, level, filled) = match &self.progression[self.build_cursor] {
            ProgressionEntry::Slot(st) => (st.slot, st.level, opt_copy(&st.filled)),
            ProgressionEntry::LevelHeader(_) => return Effect::Nothing,
        };
        if slot == BuildSlot::ClassFeature {
            match filled {
                Some(name) => {
                    let modal = crate::ui::modal::info::InfoModal::new(name.as_str());
                    self.modal = Some(Modal::Info(Box::new(modal)));
                    return Effect::Load(LoadRequest::ShowDocument { name, category: Some(owned("class-feature")) });
                },
                None => return Effect::Nothing,
            }
        }
        if slot == BuildSlot::AbilityBoosts {
            self.open_boost_modal(level);
            return Effect::Nothing;
        }
        if slot == BuildSlot::SkillIncrease {
            self.open_skill_modal(level);
            return Effect::Nothing;
        }
        if slot == BuildSlot::SkillSelection {
            self.open_skill_selection_modal();
            return Effect::Nothing;
        }
        let category: String = if slot == BuildSlot::Subclass {
            match &self.choices.class_data {
                Some(d) => match &d.subclass_category {
                    Some(cat) => owned(cat.as_str()),
                    None => return Effect::Nothing,
                },
                None => return Effect::Nothing,
            }
        } else {
            match slot.search_category() {
                Some(cat) => owned(cat),
                None => return Effect::Nothing,
            }
        };
        let mut title = owned("Select ");
        if slot == BuildSlot::Subclass {
            match &self.choices.class {
                Some(n) => title.append(crate::build::mechanics::subclass::subclass_label(n.as_str())),
                None => title.append("Subclass"),
            }
        } else {
            title.append(slot.label());
        }
        let mut modal = SelectionModal::new(title.as_str());
        let mut filters: Vec<(String, String)> = Vec::new();
        match slot {
            BuildSlot::AncestryFeat => {
                if let Some(a) = &self.choices.ancestry {
                    filters.push(pair("trait", a.as_str()));
                }
                modal.max_level = Some(level as i32);
            },
            BuildSlot::ClassFeat => {
                if let Some(a) = &self.choices.class {
                    filters.push(pair("trait", a.as_str()));
                }
                modal.max_level = Some(level as i32);
            },
            BuildSlot::SkillFeat => {
                filters.push(pair("trait", "Skill"));
                modal.max_level = Some(level as i32);
            },
            BuildSlot::GeneralFeat => {
                filters.push(pair("trait", "General"));
                modal.max_level = Some(level as i32);
            },
            BuildSlot::Heritage => {
                if let Some(a) = &self.choices.ancestry {
                    modal.ancestry_filter = Some(owned(a.as_str()));
                }
            },
            _ => {},
        }
        assert(filters_view(filters@) =~= slot_filters(self.choices, slot));
        let mut status = owned("Loading ");
        status.append(category.as_str());
        status.append("...");
        self.modal = Some(Modal::Selection(modal));
        self.status = Some(status);
        Effect::Load(LoadRequest::SearchCategory { category, filters })
    }
}

// ---------------------------------------------------------------------------
// Keys in dialogs
// ---------------------------------------------------------------------------

/// `n` is `o` with only its dialog changed.
pub open spec fn dialog_changed(o: App, n: App) -> bool {
    n == (App { modal: n.modal, ..o })
}

/// Every document of an open selection dialog has attributes readable as boosts.
pub open spec fn selection_ready(a: App) -> bool {
    a.modal matches Some(Modal::Selection(m)) ==> forall|i: int|
        0 <= i < m.items@.len() ==> attributes_fit(#[trigger] m.items@[i])
}

/// `n` is `o` after `key` (Ctrl held when `ctrl`) in its selection dialog: Esc cancels,
/// Enter confirms, Up/Down move, PageUp/PageDown scroll the detail, and typing edits
/// the filter.
pub open spec fn selection_key_done(o: App, n: App, key: Key, ctrl: bool) -> bool {
    match o.modal {
        Some(Modal::Selection(m)) => match key {
            Key::Esc => n == (App { spell_pick_rank: None, modal: None, ..o }),
            Key::Enter => selection_confirmed(o, n),
            Key::Up => dialog_changed(o, n) && (n.modal matches Some(Modal::Selection(m2)) && crate::ui::modal::selection::selection_up(m, m2)),
            Key::Down => dialog_changed(o, n) && (n.modal matches Some(Modal::Selection(m2)) && crate::ui::modal::selection::selection_down(m, m2)),
            Key::PageDown => dialog_changed(o, n) && (n.modal matches Some(Modal::Selection(m2)) && crate::ui::modal::selection::detail_scrolled_down(m, m2)),
            Key::PageUp => dialog_changed(o, n) && (n.modal matches Some(Modal::Selection(m2)) && crate::ui::modal::selection::detail_scrolled_up(m, m2)),
            Key::Backspace => dialog_changed(o, n) && (n.modal matches Some(Modal::Selection(m2)) && crate::ui::modal::selection::selection_backspaced(m, m2)),
            Key::Char(c) => if ctrl {
                n == o
            } else {
                dialog_changed(o, n) && (n.modal matches Some(Modal::Selection(m2)) && crate::ui::modal::selection::selection_typed(m, m2, c))
            },
            _ => n == o,
        },
        _ => n == o,
    }
}

/// `n` is `o` after `key` in its boost dialog: Esc closes, Up/Down move between
/// abilities, Left/Right/Tab between groups, 'a' switches the alternate rule, Space
/// (or Enter while picks are missing) toggles, and Enter stores complete boosts.
pub open spec fn boost_key_done(o: App, n: App, key: Key) -> bool {
    match o.modal {
        Some(Modal::Boosts(m)) => {
            let complete = crate::ui::modal::boosts::all_complete(groups_view(m.groups@));
            let moved = |f: spec_fn(BoostModal, BoostModal) -> bool|
                dialog_changed(o, n) && (n.modal matches Some(Modal::Boosts(m2)) && f(m, m2));
            match key {
                Key::Esc => n == (App { modal: None, ..o }),
                Key::Up => moved(|a: BoostModal, b: BoostModal| crate::ui::modal::boosts::boost_cursor_up(a, b)),
                Key::Down => moved(|a: BoostModal, b: BoostModal| crate::ui::modal::boosts::boost_cursor_down(a, b)),
                Key::Left => moved(|a: BoostModal, b: BoostModal| crate::ui::modal::boosts::boost_group_prev(a, b)),
                Key::Right | Key::Tab => moved(|a: BoostModal, b: BoostModal| crate::ui::modal::boosts::boost_group_next(a, b)),
                Key::Char('a') => moved(|a: BoostModal, b: BoostModal| crate::ui::modal::boosts::alternate_switched(a, b)),
                Key::Char(' ') => if !complete {
                    moved(|a: BoostModal, b: BoostModal| crate::ui::modal::boosts::boost_toggled(a, b))
                } else {
                    n == o
                },
                Key::Enter => if !complete {
                    moved(|a: BoostModal, b: BoostModal| crate::ui::modal::boosts::boost_toggled(a, b))
                } else {
                    boosts_applied(o, App { modal: o.modal, ..n }) && n.modal is None
                },
                _ => n == o,
            }
        },
        _ => n == o,
    }
}

/// `n` is `o` after `key` in its text dialog: Esc cancels, Enter applies the value,
/// Backspace and typing (without Ctrl) edit it.
pub open spec fn text_key_done(o: App, n: App, key: Key, ctrl: bool) -> bool {
    match o.modal {
        Some(Modal::TextInput(m)) => match key {
            Key::Esc => n == (App { modal: None, ..o }),
            Key::Enter => text_applied(App { modal: None, ..o }, n, m.field@, m.value@),
            Key::Backspace => dialog_changed(o, n) && (n.modal matches Some(Modal::TextInput(m2)) && crate::ui::modal::text_input::input_backspaced(m, m2)),
            Key::Char(c) => if ctrl {
                n == o
            } else {
                dialog_changed(o, n) && (n.modal matches Some(Modal::TextInput(m2)) && crate::ui::modal::text_input::input_typed(m, m2, c))
            },
            _ => n == o,
        },
        _ => n == o,
    }
}

/// `n` is `o` after `key` in its document view: Esc or Enter close it, Up/Down and
/// PageUp/PageDown scroll.
pub open spec fn info_key_done(o: App, n: App, key: Key) -> bool {
    match o.modal {
        Some(Modal::Info(m)) => match key {
            Key::Esc | Key::Enter => n == (App { modal: None, ..o }),
            Key::Down | Key::PageDown => dialog_changed(o, n) && (n.modal matches Some(Modal::Info(m2)) && crate::ui::modal::info::info_scrolled_down(*m, *m2)),
            Key::Up | Key::PageUp => dialog_changed(o, n) && (n.modal matches Some(Modal::Info(m2)) && crate::ui::modal::info::info_scrolled_up(*m, *m2)),
            _ => n == o,
        },
        _ => n == o,
    }
}

/// `n` is `o` after `key` in its skill dialog: Esc closes, Up/Down move, Enter
/// stores the skill under the cursor.
pub open spec fn skill_key_done(o: App, n: App, key: Key) -> bool {
    match o.modal {
        Some(Modal::Skill(m)) => match key {
            Key::Esc => n == (App { modal: None, ..o }),
            Key::Enter => skill_committed(o, n),
            Key::Up => dialog_changed(o, n) && (n.modal matches Some(Modal::Skill(m2)) && crate::ui::modal::skills::skill_cursor_up(m, m2)),
            Key::Down => dialog_changed(o, n) && (n.modal matches Some(Modal::Skill(m2)) && crate::ui::modal::skills::skill_cursor_down(m, m2)),
            _ => n == o,
        },
        _ => n == o,
    }
}

/// `n` is `o` after `key` in its rune dialog: Esc closes, Up/Down move between
/// fields, Left/Right step the focused field, Enter puts the runes on the item.
pub open spec fn rune_key_done(o: App, n: App, key: Key) -> bool {
    match o.modal {
        Some(Modal::Runes(m)) => match key {
            Key::Esc => n == (App { modal: None, ..o }),
            Key::Enter => runes_set(o, App { modal: o.modal, ..n }) && n.modal is None,
            Key::Up => dialog_changed(o, n) && (n.modal matches Some(Modal::Runes(m2)) && crate::ui::modal::runes::rune_cursor_up(m, m2)),
            Key::Down => dialog_changed(o, n) && (n.modal matches Some(Modal::Runes(m2)) && crate::ui::modal::runes::rune_cursor_down(m, m2)),
            Key::Left => dialog_changed(o, n) && (n.modal matches Some(Modal::Runes(m2)) && crate::ui::modal::runes::rune_cycled_left(m, m2)),
            Key::Right => dialog_changed(o, n) && (n.modal matches Some(Modal::Runes(m2)) && crate::ui::modal::runes::rune_cycled_right(m, m2)),
            _ => n == o,
        },
        _ => n == o,
    }
}

/// `n` is `o` after `key` in its list picker: Esc closes, Up/Down move, Enter picks
/// the item under the cursor (nothing happens when there is none).
pub open spec fn pick_key_done(o: App, n: App, key: Key) -> bool {
    match o.modal {
        Some(Modal::Domain(m)) => match key {
            Key::Esc => n == (App { modal: None, ..o }),
            Key::Enter => if m.cursor < m.items@.len() {
                domain_picked(App { modal: None, ..o }, n, m.kind, m.items@[m.cursor as int]@)
            } else {
                n == o
            },
            Key::Up => dialog_changed(o, n) && (n.modal matches Some(Modal::Domain(m2)) && crate::ui::modal::domain::pick_cursor_up(m, m2)),
            Key::Down => dialog_changed(o, n) && (n.modal matches Some(Modal::Domain(m2)) && crate::ui::modal::domain::pick_cursor_down(m, m2)),
            _ => n == o,
        },
        _ => n == o,
    }
}

impl App {
    /// A key in the selection dialog.
    pub fn handle_selection_key(&mut self, key: Key, ctrl: bool)
        requires
            selection_ready(*old(self)),
        ensures
            selection_key_done(*old(self), *final(self), key, ctrl),
    {
        let is_open = match &self.modal {
            Some(Modal::Selection(_)) => true,
            _ => false,
        };
        if !is_open {
            return;
        }
        match key {
            Key::Esc => {
                self.spell_pick_rank = None;
                self.modal = None;
                return;
            },
            Key::Enter => {
                self.confirm_selection();
                return;
            },
            _ => {},
        }
        let taken = self.modal.take();
        match taken {
            Some(Modal::Selection(mut m)) => {
                match key {
                    Key::Up => m.move_up(),
                    Key::Down => m.move_down(),
                    Key::PageDown => m.scroll_detail_down(),
                    Key::PageUp => m.scroll_detail_up(),
                    Key::Backspace => m.backspace(),
                    Key::Char(c) => {
                        if !ctrl {
                            m.type_char(c);
                        }
                    },
                    _ => {},
                }
                self.modal = Some(Modal::Selection(m));
            },
            other => {
                self.modal = other;
            },
        }
    }

    /// A key in the boost dialog.
    pub fn handle_boost_key(&mut self, key: Key)
        requires
            old(self).modal matches Some(Modal::Boosts(m)) ==> m.ability_cursor < 6,
        ensures
            boost_key_done(*old(self), *final(self), key),
    {
        let complete = match &self.modal {
            Some(Modal::Boosts(m)) => m.is_complete(),
            _ => return,
        };
        match key {
            Key::Esc => {
                self.modal = None;
                return;
            },
            Key::Enter => {
                if complete {
                    self.apply_boosts();
                    self.modal = None;
                    return;
                }
            },
            _ => {},
        }
        let taken = self.modal.take();
        match taken {
            Some(Modal::Boosts(mut m)) => {
                match key {
                    Key::Up => m.move_up(),
                    Key::Down => m.move_down(),
                    Key::Left => m.prev_group(),
                    Key::Right | Key::Tab => m.next_group(),
                    Key::Char('a') => m.toggle_alternate(),
                    Key::Char(' ') | Key::Enter => {
                        if !complete {
                            m.toggle();
                        }
                    },
                    _ => {},
                }
                self.modal = Some(Modal::Boosts(m));
            },
            other => {
                self.modal = other;
            },
        }
    }

    /// A key in the text dialog.
    pub fn handle_text_input_key(&mut self, key: Key, ctrl: bool)
        ensures
            text_key_done(*old(self), *final(self), key, ctrl),
    {
        let taken = self.modal.take();
        match taken {
            Some(Modal::TextInput(mut m)) => match key {
                Key::Esc => {},
                Key::Enter => {
                    self.apply_text_input(m.field.as_str(), m.value.as_str());
                },
                Key::Backspace => {
                    m.backspace();
                    self.modal = Some(Modal::TextInput(m));
                },
                Key::Char(c) => {
                    if !ctrl {
                        m.type_char(c);
                    }
                    self.modal = Some(Modal::TextInput(m));
                },
                _ => {
                    self.modal = Some(Modal::TextInput(m));
                },
            },
            other => {
                self.modal = other;
            },
        }
    }

    /// A key in the document view.
    pub fn handle_info_key(&mut self, key: Key)
        ensures
            info_key_done(*old(self), *final(self), key),
    {
        let taken = self.modal.take();
        match taken {
            Some(Modal::Info(mut m)) => match key {
                Key::Esc | Key::Enter => {},
                Key::Down | Key::PageDown => {
                    m.scroll_down();
                    self.modal = Some(Modal::Info(m));
                },
                Key::Up | Key::PageUp => {
                    m.scroll_up();
                    self.modal = Some(Modal::Info(m));
                },
                _ => {
                    self.modal = Some(Modal::Info(m));
                },
            },
            other => {
                self.modal = other;
            },
        }
    }

    /// A key in the skill dialog.
    pub fn handle_skill_key(&mut self, key: Key)
        requires
            old(self).modal matches Some(Modal::Skill(m)) ==> m.skills@.len() + m.lores@.len() <= usize::MAX
                && m.cursor < usize::MAX,
        ensures
            skill_key_done(*old(self), *final(self), key),
    {
        match &self.modal {
            Some(Modal::Skill(_)) => {},
            _ => return,
        }
        match key {
            Key::Esc => {
                self.modal = None;
                return;
            },
            Key::Enter => {
                self.commit_skill();
                return;
            },
            _ => {},
        }
        let taken = self.modal.take();
        match taken {
            Some(Modal::Skill(mut m)) => {
                match key {
                    Key::Up => m.move_up(),
                    Key::Down => m.move_down(),
                    _ => {},
                }
                self.modal = Some(Modal::Skill(m));
            },
            other => {
                self.modal = other;
            },
        }
    }

    /// A key in the rune dialog.
    pub fn handle_rune_key(&mut self, key: Key)
        requires
            old(self).modal matches Some(Modal::Runes(m)) ==> m.cursor < m.fields@.len(),
        ensures
            rune_key_done(*old(self), *final(self), key),
    {
        match &self.modal {
            Some(Modal::Runes(_)) => {},
            _ => return,
        }
        match key {
            Key::Esc => {
                self.modal = None;
                return;
            },
            Key::Enter => {
                self.apply_runes();
                self.modal = None;
                return;
            },
            _ => {},
        }
        let taken = self.modal.take();
        match taken {
            Some(Modal::Runes(mut m)) => {
                match key {
                    Key::Up => m.move_up(),
                    Key::Down => m.move_down(),
                    Key::Left => m.cycle_left(),
                    Key::Right => m.cycle_right(),
                    _ => {},
                }
                self.modal = Some(Modal::Runes(m));
            },
            other => {
                self.modal = other;
            },
        }
    }

    /// A key in the list picker.
    pub fn handle_domain_key(&mut self, key: Key)
        ensures
            pick_key_done(*old(self), *final(self), key),
    {
        let taken = self.modal.take();
        match taken {
            Some(Modal::Domain(mut m)) => match key {
                Key::Esc => {},
                Key::Enter => {
                    match m.selected() {
                        Some(v) => {
                            let value = owned(v);
                            let kind = m.kind;
                            self.apply_domain_pick(kind, value.as_str());
                        },
                        None => {
                            self.modal = Some(Modal::Domain(m));
                        },
                    }
                },
                Key::Up => {
                    m.move_up();
                    self.modal = Some(Modal::Domain(m));
                },
                Key::Down => {
                    m.move_down();
                    self.modal = Some(Modal::Domain(m));
                },
                _ => {
                    self.modal = Some(Modal::Domain(m));
                },
            },
            other => {
                self.modal = other;
            },
        }
    }
}

// ---------------------------------------------------------------------------
// Keys
// ---------------------------------------------------------------------------

/// The counts a key can touch fit their machine types, and an open dialog is in a
/// state its keys work on.
pub open spec fn key_ready(a: App) -> bool {
    &&& a.build_cursor < usize::MAX
    &&& spell_rows(a) <= usize::MAX
    &&& rows_fit(a.choices.equipment)
    &&& selection_ready(a)
    &&& a.modal matches Some(Modal::Boosts(m)) ==> m.ability_cursor < 6
    &&& a.modal matches Some(Modal::Skill(m)) ==> m.skills@.len() + m.lores@.len() <= usize::MAX && m.cursor < usize::MAX
    &&& a.modal matches Some(Modal::Runes(m)) ==> m.cursor < m.fields@.len()
}

/// `n` and `r` are what `key` does on the builder screen of `o` with no dialog open.
pub open spec fn builder_key_done(o: App, n: App, key: Key, ctrl: bool, r: Effect) -> bool {
    let tabs = o.focus == Focus::DetailTabs;
    let spells = tabs && o.detail_tab == DetailTab::Spells;
    let equip = tabs && o.detail_tab == DetailTab::Equipment;
    let delete = key == Key::Backspace || key == Key::Delete;
    if key == Key::Char('q') || (key == Key::Char('c') && ctrl) {
        n == (App { quit: true, ..o }) && r is Nothing
    } else if key == Key::Char('s') && ctrl {
        n == o && r is Save
    } else if key == Key::Char('e') && ctrl {
        n == o && r is Export
    } else if key == Key::Tab {
        n == (App { focus: crate::ui::app::focus_next(o.focus), ..o }) && r is Nothing
    } else if key == Key::Up {
        r is Nothing && if spells {
            spell_moved_up(o, n)
        } else if equip {
            equipment_moved_up(o, n)
        } else {
            moved_up(o, n)
        }
    } else if key == Key::Down {
        r is Nothing && if spells {
            spell_moved_down(o, n)
        } else if equip {
            equipment_moved_down(o, n)
        } else {
            moved_down(o, n)
        }
    } else if key == Key::Left && tabs {
        n == (App { detail_tab: crate::ui::app::tab_prev(o.detail_tab), ..o }) && r is Nothing
    } else if key == Key::Right && tabs {
        n == (App { detail_tab: crate::ui::app::tab_next(o.detail_tab), ..o }) && r is Nothing
    } else if key == Key::Enter && spells {
        spell_picker_opened(o, n, r)
    } else if delete && spells {
        spell_slot_cleared(o, n) && r is Nothing
    } else if key == Key::Enter && equip {
        equipment_entered(o, n, r)
    } else if delete && equip {
        equipment_deleted(o, n) && r is Nothing
    } else if key == Key::Char('r') && equip {
        rune_dialog_opened(o, n) && r is Nothing
    } else if key == Key::Enter && o.focus == Focus::BuildSelector {
        slot_opened(o, n, r)
    } else if key == Key::Char('+') || key == Key::Char('=') {
        level_changed_by(o, n, 1i32) && r is Nothing
    } else if key == Key::Char('-') {
        level_changed_by(o, n, -1i32) && r is Nothing
    } else if delete && o.focus == Focus::BuildSelector {
        slot_cleared(o, n) && r is Nothing
    } else if key == Key::Char('?') {
        n == (App { show_help: true, ..o }) && r is Nothing
    } else if key == Key::Esc {
        n == (App { screen: Screen::CharacterSelect, ..o }) && r is RefreshSaved
    } else if key == Key::Char('n') {
        &&& n.modal matches Some(Modal::TextInput(m)) && m.title@ == "Rename Character"@ && m.field@ == "Name:"@
            && m.value@ == o.character.name@
        &&& dialog_changed(o, n)
        &&& r is Nothing
    } else {
        n == o && r is Nothing
    }
}

/// `n` and `r` are what `key` does to `o`: the select screen takes it there, a key
/// closes the help, an open dialog takes it, and the builder screen acts on it.
pub open spec fn key_done(o: App, n: App, key: Key, ctrl: bool, r: Effect) -> bool {
    if o.screen == Screen::CharacterSelect {
        select_key_done(o, n, key, r)
    } else if o.show_help {
        n == (App { show_help: false, ..o }) && r is Nothing
    } else {
        match o.modal {
            Some(Modal::Selection(_)) => selection_key_done(o, n, key, ctrl) && r is Nothing,
            Some(Modal::Boosts(_)) => boost_key_done(o, n, key) && r is Nothing,
            Some(Modal::Skill(_)) => skill_key_done(o, n, key) && r is Nothing,
            Some(Modal::TextInput(_)) => text_key_done(o, n, key, ctrl) && r is Nothing,
            Some(Modal::Info(_)) => info_key_done(o, n, key) && r is Nothing,
            Some(Modal::Runes(_)) => rune_key_done(o, n, key) && r is Nothing,
            Some(Modal::Domain(_)) => pick_key_done(o, n, key) && r is Nothing,
            None => builder_key_done(o, n, key, ctrl, r),
        }
    }
}

/// `key` quits the program in state `a`: 'q' on the select screen; 'q' or Ctrl-C on
/// the builder screen with the help hidden and no dialog open.
pub open spec fn quits(a: App, key: Key, ctrl: bool) -> bool {
    if a.screen == Screen::CharacterSelect {
        key == Key::Char('q')
    } else {
        !a.show_help && a.modal is None && (key == Key::Char('q') || (key == Key::Char('c') && ctrl))
    }
}

impl App {
    /// The number of prepared spell slots, when it fits a `usize`.
    pub fn checked_prepared_slots(&self) -> (r: Option<usize>)
        ensures
            r == (if prepared_slots(self.choices) <= usize::MAX {
                Some(prepared_slots(self.choices) as usize)
            } else {
                None::<usize>
            }),
    {
        let data = match &self.choices.class_data {
            Some(d) => d,
            None => return Some(0),
        };
        let idx: usize = if self.choices.level == 0 { 0 } else { (self.choices.level - 1) as usize };
        if idx >= data.spell_slots.len() {
            return Some(0);
        }
        let slots = &data.spell_slots[idx];
        let ghost cells = strs(slots@);
        let mut total: usize = 0;
        let mut i: usize = 0;
        while i < slots.len()
            invariant
                cells == strs(slots@),
                slot_row(self.choices) == Some(cells),
                i <= slots@.len(),
                total == row_total(cells.take(i as int)),
            decreases slots@.len() - i,
        {
            assert(cells.take(i + 1).drop_last() =~= cells.take(i as int));
            let n = crate::build::commands::cell_count_pub(&slots[i]);
            match total.checked_add(n) {
                Some(t) => total = t,
                None => {
                    proof {
                        lemma_row_total_prefix(cells, i + 1);
                    }
                    return None;
                },
            }
            i = i + 1;
        }
        assert(cells.take(slots@.len() as int) =~= cells);
        Some(total)
    }

    /// Whether `key` quits the program here (`quits`).
    pub fn quit_key(&self, key: Key, ctrl: bool) -> (r: bool)
        ensures
            r == quits(*self, key, ctrl),
    {
        let q = key == Key::Char('q');
        if self.screen == Screen::CharacterSelect {
            q
        } else {
            !self.show_help && self.modal.is_none() && (q || (key == Key::Char('c') && ctrl))
        }
    }

    /// Whether the counts and the open dialog are as `handle_key` needs them.
    pub fn key_ready_exec(&self) -> (r: bool)
        ensures
            r == key_ready(*self),
    {
        if self.build_cursor == usize::MAX {
            return false;
        }
        let prepared = match self.checked_prepared_slots() {
            Some(p) => p,
            None => return false,
        };
        if self.character.spell_caster.is_some() {
            let focus = match self.choices.focus_spells.len().checked_add(1) {
                Some(f) => f,
                None => return false,
            };
            if prepared.checked_add(focus).is_none() {
                return false;
            }
        }
        let eq = &self.choices.equipment;
        let rows = match eq.weapons.len().checked_add(eq.armor.len()) {
            Some(a) => match a.checked_add(eq.items.len()) {
                Some(b) => b.checked_add(if eq.shield.is_some() { 5 } else { 4 }),
                None => None,
            },
            None => None,
        };
        if rows.is_none() {
            return false;
        }
        match &self.modal {
            Some(Modal::Selection(m)) => {
                let mut i: usize = 0;
                while i < m.items.len()
                    invariant
                        i <= m.items@.len(),
                        self.modal matches Some(Modal::Selection(mm)) && mm.items@ == m.items@,
                        forall|j: int| 0 <= j < i ==> attributes_fit(#[trigger] m.items@[j]),
                    decreases m.items@.len() - i,
                {
                    if !attributes_fit_exec(&m.items[i]) {
                        assert(!selection_ready(*self));
                        return false;
                    }
                    i = i + 1;
                }
                true
            },
            Some(Modal::Boosts(m)) => m.ability_cursor < 6,
            Some(Modal::Skill(m)) => match m.skills.len().checked_add(m.lores.len()) {
                Some(_) => m.cursor < usize::MAX,
                None => false,
            },
            Some(Modal::Runes(m)) => m.cursor < m.fields.len(),
            _ => true,
        }
    }

    /// A key on the builder screen with no dialog open.
    fn handle_builder_key(&mut self, key: Key, ctrl: bool) -> (r: Effect)
        requires
            key_ready(*old(self)),
            old(self).modal is None,
        ensures
            builder_key_done(*old(self), *final(self), key, ctrl, r),
    {
        let tabs = self.focus == Focus::DetailTabs;
        let spells = tabs && self.detail_tab == DetailTab::Spells;
        let equip = tabs && self.detail_tab == DetailTab::Equipment;
        let delete = key == Key::Backspace || key == Key::Delete;
        if key == Key::Char('q') || (key == Key::Char('c') && ctrl) {
            self.quit = true;
            Effect::Nothing
        } else if key == Key::Char('s') && ctrl {
            Effect::Save
        } else if key == Key::Char('e') && ctrl {
            Effect::Export
        } else if key == Key::Tab {
            self.focus = self.focus.next();
            Effect::Nothing
        } else if key == Key::Up {
            if spells {
                self.spell_up();
            } else if equip {
                self.equipment_up();
            } else {
                self.handle_up();
            }
            Effect::Nothing
        } else if key == Key::Down {
            if spells {
                self.spell_down();
            } else if equip {
                self.equipment_down();
            } else {
                self.handle_down();
            }
            Effect::Nothing
        } else if key == Key::Left && tabs {
            self.detail_tab = self.detail_tab.prev();
            Effect::Nothing
        } else if key == Key::Right && tabs {
            self.detail_tab = self.detail_tab.next();
            Effect::Nothing
        } else if key == Key::Enter && spells {
            self.open_spell_picker()
        } else if delete && spells {
            self.clear_spell_slot();
            Effect::Nothing
        } else if key == Key::Enter && equip {
            self.equipment_enter()
        } else if delete && equip {
            self.equipment_delete();
            Effect::Nothing
        } else if key == Key::Char('r') && equip {
            self.open_equipment_rune_modal();
            Effect::Nothing
        } else if key == Key::Enter && self.focus == Focus::BuildSelector {
            self.open_modal_for_cursor()
        } else if key == Key::Char('+') || key == Key::Char('=') {
            self.level_change(1);
            Effect::Nothing
        } else if key == Key::Char('-') {
            self.level_change(-1);
            Effect::Nothing
        } else if delete && self.focus == Focus::BuildSelector {
            self.clear_slot();
            Effect::Nothing
        } else if key == Key::Char('?') {
            self.show_help = true;
            Effect::Nothing
        } else if key == Key::Esc {
            self.screen = Screen::CharacterSelect;
            Effect::RefreshSaved
        } else if key == Key::Char('n') {
            let modal = crate::ui::modal::text_input::TextInputModal::new(
                "Rename Character",
                "Name:",
                self.character.name.as_str(),
            );
            self.modal = Some(Modal::TextInput(modal));
            Effect::Nothing
        } else {
            Effect::Nothing
        }
    }

    /// A key press: on the select screen, with the help shown, in an open dialog, or
    /// on the builder screen. The caller then does what the returned effect asks.
    pub fn handle_key(&mut self, key: Key, ctrl: bool) -> (r: Effect)
        requires
            key_ready(*old(self)) || quits(*old(self), key, ctrl),
        ensures
            key_done(*old(self), *final(self), key, ctrl, r),
    {
        if self.quit_key(key, ctrl) {
            self.quit = true;
            return Effect::Nothing;
        }
        if self.screen == Screen::CharacterSelect {
            return self.handle_select_key(key);
        }
        if self.show_help {
            self.show_help = false;
            return Effect::Nothing;
        }
        let kind: u8 = match &self.modal {
            Some(Modal::Selection(_)) => 1,
            Some(Modal::Boosts(_)) => 2,
            Some(Modal::Skill(_)) => 3,
            Some(Modal::TextInput(_)) => 4,
            Some(Modal::Info(_)) => 5,
            Some(Modal::Runes(_)) => 6,
            Some(Modal::Domain(_)) => 7,
            None => 0,
        };
        if kind == 1 {
            self.handle_selection_key(key, ctrl);
        } else if kind == 2 {
            self.handle_boost_key(key);
        } else if kind == 3 {
            self.handle_skill_key(key);
        } else if kind == 4 {
            self.handle_text_input_key(key, ctrl);
        } else if kind == 5 {
            self.handle_info_key(key);
        } else if kind == 6 {
            self.handle_rune_key(key);
        } else if kind == 7 {
            self.handle_domain_key(key);
        } else {
            return self.handle_builder_key(key, ctrl);
        }
        Effect::Nothing
    }
}

// ---------------------------------------------------------------------------
// The character follows the build
// ---------------------------------------------------------------------------

/// The character shown is the one derived from the build, whenever the build's
/// numbers fit their machine types.
pub open spec fn character_derived(a: App) -> bool {
    recalc_fits(a.choices) ==> a.character@ == recalc_spec(a.choices)
}

proof fn lemma_font_offered_derived(mid: App, n: App)
    requires
        font_offered(mid, n),
        character_derived(mid),
    ensures
        character_derived(n),
{
    if n.choices != mid.choices {
        crate::build::recalculate::lemma_derivation_ignores_name_and_font(mid.choices, n.choices);
    }
}

proof fn lemma_slot_filled_derived(o: App, n: App, doc: Document)
    requires
        slot_filled(o, n, doc),
        character_derived(o),
    ensures
        character_derived(n),
{
    let v = entries_view(o.progression@);
    let c = o.build_cursor as int;
    if c < v.len() && v[c] is Slot && v[c]->Slot_0 == BuildSlot::Deity {
        let mid = choose|mid: App| {
            &&& crate::build::commands::selected(o.choices, mid.choices, v[c]->Slot_0, v[c]->Slot_1, doc)
            &&& mid == (App { choices: mid.choices, character: mid.character, progression: mid.progression, ..o })
            &&& refreshed(o, mid)
            &&& font_offered(mid, n)
        };
        lemma_font_offered_derived(mid, n);
    }
}

proof fn lemma_confirmed_derived(o: App, n: App)
    requires
        selection_confirmed(o, n),
        character_derived(o),
    ensures
        character_derived(n),
{
    match o.modal {
        Some(Modal::Selection(m)) => {
            let order = choose|ord: Seq<usize>| listing(m, ord);
            if m.cursor < order.len() {
                let doc = m.items@[order[m.cursor as int] as int];
                let base = App { modal: None, ..o };
                if o.spell_pick_rank is None && !has_prefix(m.title@, "Add "@) {
                    let mid = choose|mid: App| slot_filled(base, mid, doc) && n == (App { modal: None, ..mid });
                    lemma_slot_filled_derived(base, mid, doc);
                }
            }
        },
        _ => {},
    }
}

proof fn lemma_selection_key_derived(o: App, n: App, key: Key, ctrl: bool)
    requires
        selection_key_done(o, n, key, ctrl),
        character_derived(o),
    ensures
        character_derived(n),
{
    if key == Key::Enter {
        lemma_confirmed_derived(o, n);
    }
}

proof fn lemma_text_key_derived(o: App, n: App, key: Key, ctrl: bool)
    requires
        text_key_done(o, n, key, ctrl),
        character_derived(o),
    ensures
        character_derived(n),
{
    match o.modal {
        Some(Modal::TextInput(m)) => {
            if key == Key::Enter && m.field@ == "Name:"@ && m.value@.len() > 0 {
                crate::build::recalculate::lemma_derivation_ignores_name_and_font(o.choices, n.choices);
            }
        },
        _ => {},
    }
}

proof fn lemma_pick_key_derived(o: App, n: App, key: Key)
    requires
        pick_key_done(o, n, key),
        character_derived(o),
    ensures
        character_derived(n),
{
    match o.modal {
        Some(Modal::Domain(m)) => {
            if key == Key::Enter && m.cursor < m.items@.len() {
                let base = App { modal: None, ..o };
                let value = m.items@[m.cursor as int]@;
                let mid = choose|mid: App| {
                    &&& (if m.kind == PickKind::Domain {
                        &&& mid.choices == (BuildChoices { chosen_domains: mid.choices.chosen_domains, ..base.choices })
                        &&& strs(mid.choices.chosen_domains@) == strs(base.choices.chosen_domains@).push(value)
                    } else {
                        mid.choices == (BuildChoices { chosen_divine_font: font_from_lower(lowercase(value)), ..base.choices })
                    })
                    &&& refreshed(base, mid)
                    &&& mid == (App { choices: mid.choices, character: mid.character, progression: mid.progression, ..base })
                    &&& font_offered(mid, n)
                };
                lemma_font_offered_derived(mid, n);
            }
        },
        _ => {},
    }
}

#[verifier::rlimit(100)]
proof fn lemma_builder_key_derived(o: App, n: App, key: Key, ctrl: bool, r: Effect)
    requires
        builder_key_done(o, n, key, ctrl, r),
        character_derived(o),
    ensures
        character_derived(n),
{
}

/// Every key keeps the character derived from the build: a command that changes the
/// build recomputes the character, and one that does not leaves both alone.
#[verifier::spinoff_prover]
#[verifier::rlimit(80)]
pub proof fn law_keys_keep_character_derived(o: App, n: App, key: Key, ctrl: bool, r: Effect)
    requires
        key_done(o, n, key, ctrl, r),
        character_derived(o),
    ensures
        character_derived(n),
{
    if o.screen != Screen::CharacterSelect && !o.show_help {
        match o.modal {
            Some(Modal::Selection(_)) => lemma_selection_key_derived(o, n, key, ctrl),
            Some(Modal::TextInput(_)) => lemma_text_key_derived(o, n, key, ctrl),
            Some(Modal::Domain(_)) => lemma_pick_key_derived(o, n, key),
            None => lemma_builder_key_derived(o, n, key, ctrl, r),
            _ => {},
        }
    }
}

} // verus!
