//! Application-level state: screens, focus, tabs, and keeping the
//! progression in step with the build.
use vstd::prelude::*;
use vstd::string::StringExecFns;
use crate::build::choices::{BuildChoices, ClassFeatureEntry, features_view};
use crate::build::maps::{level_lookup, name_index, name_lookup};
use crate::build::progression::{
    EntryView, ProgressionEntry, build_progression_with_class, entries_view, entry_view,
    progression_spec,
};
use crate::build::slot::{BuildSlot, SlotState, slot_key};
use crate::build::recalculate::{recalc_fits, recalc_spec, try_recalculate};
use crate::build::validate::{validate_progression, validated};
use crate::data::loader::{LoadRequest, LoadResult};
use crate::model::character::{Character, CharacterView};
use crate::model::proficiencies::ProficienciesView;
use crate::text::{clone_opt, decimal, decimal_string, opt_str, owned, strs};
use crate::ui::modal::boosts::BoostModal;
use crate::ui::modal::domain::DomainModal;
use crate::ui::modal::info::InfoModal;
use crate::ui::modal::runes::RuneModal;
use crate::ui::modal::selection::SelectionModal;
use crate::ui::modal::skills::SkillModal;
use crate::ui::modal::text_input::TextInputModal;

verus! {

/// Which top-level screen is active.
#[derive(Debug, Clone, Copy, PartialEq, Eq, Structural)]
pub enum Screen {
    CharacterSelect,
    Builder,
}

/// Which panel has keyboard focus.
#[derive(Debug, Clone, Copy, PartialEq, Eq, Structural)]
pub enum Focus {
    BuildSelector,
    CharacterInfo,
    DetailTabs,
}

pub open spec fn focus_next(f: Focus) -> Focus {
    match f {
        Focus::BuildSelector => Focus::CharacterInfo,
        Focus::CharacterInfo => Focus::DetailTabs,
        Focus::DetailTabs => Focus::BuildSelector,
    }
}

impl Focus {
    pub fn next(self) -> (r: Self)
        ensures
            r == focus_next(self),
    {
        match self {
            Focus::BuildSelector => Focus::CharacterInfo,
            Focus::CharacterInfo => Focus::DetailTabs,
            Focus::DetailTabs => Focus::BuildSelector,
        }
    }
}

/// The tabs of the detail panel.
#[derive(Debug, Clone, Copy, PartialEq, Eq, Structural)]
pub enum DetailTab {
    Equipment,
    Spells,
    Skills,
    Feats,
}

pub open spec fn tab_label(t: DetailTab) -> Seq<char> {
    match t {
        DetailTab::Equipment => "Equipment"@,
        DetailTab::Spells => "Spells"@,
        DetailTab::Skills => "Skills"@,
        DetailTab::Feats => "Feats"@,
    }
}

pub open spec fn tab_next(t: DetailTab) -> DetailTab {
    match t {
        DetailTab::Equipment => DetailTab::Spells,
        DetailTab::Spells => DetailTab::Skills,
        DetailTab::Skills => DetailTab::Feats,
        DetailTab::Feats => DetailTab::Equipment,
    }
}

pub open spec fn tab_prev(t: DetailTab) -> DetailTab {
    match t {
        DetailTab::Equipment => DetailTab::Feats,
        DetailTab::Spells => DetailTab::Equipment,
        DetailTab::Skills => DetailTab::Spells,
        DetailTab::Feats => DetailTab::Skills,
    }
}

/// Tab cycles the focus through the three panels: three presses come back.
pub proof fn law_focus_cycle(f: Focus)
    ensures
        focus_next(focus_next(focus_next(f))) == f,
        focus_next(f) != f,
{
}

/// Left undoes Right on the detail tabs and Right undoes Left; four steps come back.
pub proof fn law_tab_round_trip(t: DetailTab)
    ensures
        tab_prev(tab_next(t)) == t,
        tab_next(tab_prev(t)) == t,
        tab_next(tab_next(tab_next(tab_next(t)))) == t,
{
}

impl DetailTab {
    /// The tab at position `i` (Equipment, Spells, Skills, Feats).
    pub fn from_index(i: usize) -> (r: DetailTab)
        requires
            i < 4,
        ensures
            i == 0 ==> r == DetailTab::Equipment,
            i == 1 ==> r == DetailTab::Spells,
            i == 2 ==> r == DetailTab::Skills,
            i == 3 ==> r == DetailTab::Feats,
    {
        match i {
            0 => DetailTab::Equipment,
            1 => DetailTab::Spells,
            2 => DetailTab::Skills,
            _ => DetailTab::Feats,
        }
    }

    pub fn label(&self) -> (r: &'static str)
        ensures
            r@ == tab_label(*self),
    {
        match self {
            DetailTab::Equipment => "Equipment",
            DetailTab::Spells => "Spells",
            DetailTab::Skills => "Skills",
            DetailTab::Feats => "Feats",
        }
    }

    pub fn next(self) -> (r: Self)
        ensures
            r == tab_next(self),
    {
        match self {
            DetailTab::Equipment => DetailTab::Spells,
            DetailTab::Spells => DetailTab::Skills,
            DetailTab::Skills => DetailTab::Feats,
            DetailTab::Feats => DetailTab::Equipment,
        }
    }

    pub fn prev(self) -> (r: Self)
        ensures
            r == tab_prev(self),
    {
        match self {
            DetailTab::Equipment => DetailTab::Feats,
            DetailTab::Spells => DetailTab::Equipment,
            DetailTab::Skills => DetailTab::Spells,
            DetailTab::Feats => DetailTab::Skills,
        }
    }
}

/// The class features of a build (none without class data).
pub open spec fn build_features(c: BuildChoices) -> Seq<(Seq<char>, u8, bool)> {
    match c.class_data {
        Some(d) => features_view(d.class_features@),
        None => Seq::empty(),
    }
}

/// Build progression from choices, using class-aware slots, up to level 20.
pub fn progression_for(choices: &BuildChoices) -> (r: Vec<ProgressionEntry>)
    ensures
        entries_view(r@) == progression_spec(20, Some(choices), build_features(*choices)),
{
    match &choices.class_data {
        Some(d) => build_progression_with_class(20, Some(choices), d.class_features.as_slice()),
        None => {
            let none: [ClassFeatureEntry; 0] = [];
            let r = build_progression_with_class(20, Some(choices), &none);
            assert(features_view(none@) =~= Seq::empty());
            r
        },
    }
}

/// Key of the ability-boost choice set for a level: "level_N".
pub open spec fn level_source(level: u8) -> Seq<char> {
    "level_"@ + decimal(level as nat)
}

/// "Done" when the level's boosts have been chosen.
pub open spec fn boosts_filled(level: u8, c: BuildChoices) -> Option<Seq<char>> {
    let ac = c.ability_choices.view();
    let has = if level == 1 {
        name_index(ac, "level_1"@) is Some || name_index(ac, "ancestry"@) is Some || name_index(ac, "background"@)
            is Some || name_index(ac, "class"@) is Some
    } else {
        name_index(ac, level_source(level)) is Some
    };
    if has {
        Some("Done"@)
    } else {
        None
    }
}

/// What a slot shows as filled, from the build (skill selections are filled separately).
pub open spec fn filled_from(slot: BuildSlot, level: u8, current: Option<Seq<char>>, c: BuildChoices) -> Option<Seq<char>> {
    match slot {
        BuildSlot::Ancestry => opt_str(c.ancestry),
        BuildSlot::Heritage => opt_str(c.heritage),
        BuildSlot::Background => opt_str(c.background),
        BuildSlot::Class => opt_str(c.class),
        BuildSlot::Deity => opt_str(c.deity),
        BuildSlot::Subclass => opt_str(c.subclass),
        BuildSlot::AbilityBoosts => boosts_filled(level, c),
        BuildSlot::AncestryFeat | BuildSlot::ClassFeat | BuildSlot::SkillFeat | BuildSlot::GeneralFeat => {
            match name_lookup(c.feats.view(), slot_key(slot, level)) {
                Some(sel) => Some(sel.name),
                None => None,
            }
        },
        BuildSlot::SkillIncrease => level_lookup(c.skill_increases.view(), level),
        BuildSlot::ClassFeature => current,
        BuildSlot::SkillSelection => None,
    }
}

/// Number of skill-selection slots among the first `j` entries.
pub open spec fn selections_before(v: Seq<EntryView>, j: int) -> nat
    decreases j,
{
    if j <= 0 {
        0
    } else {
        selections_before(v, j - 1) + match v[j - 1] {
            EntryView::Slot(s, _, _, _) => if s == BuildSlot::SkillSelection { 1nat } else { 0nat },
            EntryView::Header(_) => 0nat,
        }
    }
}

/// An entry with its filled name taken from the build; the `k`-th skill selection
/// slot shows the `k`-th initial skill.
pub open spec fn synced(v: Seq<EntryView>, j: int, c: BuildChoices) -> EntryView {
    match v[j] {
        EntryView::Header(l) => EntryView::Header(l),
        EntryView::Slot(s, l, f, valid) => {
            let filled = if s == BuildSlot::SkillSelection {
                let k = selections_before(v, j);
                if k < c.initial_skills@.len() {
                    Some(c.initial_skills@[k as int]@)
                } else {
                    None
                }
            } else {
                filled_from(s, l, f, c)
            };
            EntryView::Slot(s, l, filled, valid)
        },
    }
}

fn level_source_exec(level: u8) -> (r: String)
    ensures
        r@ == level_source(level),
{
    let mut s = owned("level_");
    let d = decimal_string(level as u64);
    s.append(d.as_str());
    s
}

fn boosts_filled_exec(level: u8, c: &BuildChoices) -> (r: Option<String>)
    ensures
        opt_str(r) == boosts_filled(level, *c),
{
    let has = if level == 1 {
        c.ability_choices.contains_key("level_1") || c.ability_choices.contains_key("ancestry")
            || c.ability_choices.contains_key("background") || c.ability_choices.contains_key("class")
    } else {
        let key = level_source_exec(level);
        c.ability_choices.contains_key(key.as_str())
    };
    if has {
        Some(owned("Done"))
    } else {
        None
    }
}

fn filled_from_exec(state: &SlotState, c: &BuildChoices) -> (r: Option<String>)
    ensures
        opt_str(r) == filled_from(state.slot, state.level, opt_str(state.filled), *c),
{
    match state.slot {
        BuildSlot::Ancestry => clone_opt(&c.ancestry),
        BuildSlot::Heritage => clone_opt(&c.heritage),
        BuildSlot::Background => clone_opt(&c.background),
        BuildSlot::Class => clone_opt(&c.class),
        BuildSlot::Deity => clone_opt(&c.deity),
        BuildSlot::Subclass => clone_opt(&c.subclass),
        BuildSlot::AbilityBoosts => boosts_filled_exec(state.level, c),
        BuildSlot::AncestryFeat | BuildSlot::ClassFeat | BuildSlot::SkillFeat | BuildSlot::GeneralFeat => {
            let key = state.slot.key_at(state.level);
            match c.feats.get(key.as_str()) {
                Some(f) => Some(f.name.clone()),
                None => None,
            }
        },
        BuildSlot::SkillIncrease => match c.skill_increases.get(state.level) {
            Some(s) => Some(s.clone()),
            None => None,
        },
        // ClassFeature slots are pre-filled by build_progression_with_class
        BuildSlot::ClassFeature => clone_opt(&state.filled),
        BuildSlot::SkillSelection => None,
    }
}

/// Populate progression slot `filled` fields from `BuildChoices`,
/// then validate each filled slot against current state.
pub fn sync_progression(progression: &mut Vec<ProgressionEntry>, choices: &BuildChoices, character: &Character)
    ensures
        entries_view(final(progression)@).len() == entries_view(old(progression)@).len(),
        forall|j: int|
            0 <= j < entries_view(old(progression)@).len() ==> entries_view(final(progression)@)[j]
                == validated(
                synced(entries_view(old(progression)@), j, *choices),
                *choices,
                character@.proficiencies,
            ),
{
    let ghost old_v = entries_view(progression@);
    let mut skill_idx: usize = 0;
    let mut i: usize = 0;
    while i < progression.len()
        invariant
            i <= progression.len(),
            progression@.len() == old_v.len(),
            skill_idx == selections_before(old_v, i as int),
            skill_idx <= i,
            forall|j: int| 0 <= j < i ==> entry_view(#[trigger] progression@[j]) == synced(old_v, j, *choices),
            forall|j: int| i <= j < progression@.len() ==> entry_view(#[trigger] progression@[j]) == old_v[j],
        decreases progression.len() - i,
    {
        assert(entry_view(progression@[i as int]) == old_v[i as int]);
        let updated = match &progression[i] {
            ProgressionEntry::LevelHeader(_) => None,
            ProgressionEntry::Slot(state) => {
                let filled = if state.slot == BuildSlot::SkillSelection {
                    let f = if skill_idx < choices.initial_skills.len() {
                        Some(choices.initial_skills[skill_idx].clone())
                    } else {
                        None
                    };
                    skill_idx = skill_idx + 1;
                    f
                } else {
                    filled_from_exec(state, choices)
                };
                Some(SlotState { slot: state.slot, level: state.level, filled, valid: state.valid })
            },
        };
        match updated {
            Some(st) => {
                progression.set(i, ProgressionEntry::Slot(st));
            },
            None => {},
        }
        i = i + 1;
    }
    let ghost mid = entries_view(progression@);
    validate_progression(progression, choices, character);
    proof {
        assert forall|j: int| 0 <= j < old_v.len() implies entries_view(progression@)[j] == validated(
            synced(old_v, j, *choices),
            *choices,
            character@.proficiencies,
        ) by {
            assert(mid[j] == synced(old_v, j, *choices));
        }
    }
}

/// Index of the first slot (not header) entry, or 0.
pub open spec fn first_slot_spec(v: Seq<EntryView>) -> int {
    if exists|i: int| 0 <= i < v.len() && v[i] is Slot {
        choose|i: int| 0 <= i < v.len() && v[i] is Slot && forall|j: int| 0 <= j < i ==> !(v[j] is Slot)
    } else {
        0
    }
}

/// Find the index of the first Slot entry in the progression.
pub fn first_slot_index(progression: &Vec<ProgressionEntry>) -> (r: usize)
    ensures
        r == first_slot_spec(entries_view(progression@)),
{
    let ghost v = entries_view(progression@);
    let mut i: usize = 0;
    while i < progression.len()
        invariant
            i <= progression.len(),
            v == entries_view(progression@),
            forall|j: int| 0 <= j < i ==> !(v[j] is Slot),
        decreases progression.len() - i,
    {
        match &progression[i] {
            ProgressionEntry::Slot(_) => {
                proof {
                    assert(v[i as int] is Slot);
                    let k = choose|k: int| 0 <= k < v.len() && v[k] is Slot && forall|j: int| 0 <= j < k ==> !(v[j] is Slot);
                    if k < i {
                        assert(!(v[k] is Slot));
                    } else if k > i {
                        assert(!(v[i as int] is Slot));
                    }
                }
                return i;
            },
            ProgressionEntry::LevelHeader(_) => {},
        }
        i = i + 1;
    }
    0
}


// ---------------------------------------------------------------------------
// The builder's state
// ---------------------------------------------------------------------------

/// The dialog in front of the builder, if any.
pub enum Modal {
    Selection(SelectionModal),
    Boosts(BoostModal),
    Skill(SkillModal),
    TextInput(TextInputModal),
    Info(Box<InfoModal>),
    Runes(RuneModal),
    Domain(DomainModal),
}

/// Everything the builder shows and edits. Talking to the document loader and to
/// the disk is left to the caller, which acts on what the commands return.
pub struct App {
    pub screen: Screen,
    pub choices: BuildChoices,
    pub character: Character,
    pub focus: Focus,
    pub detail_tab: DetailTab,
    pub progression: Vec<ProgressionEntry>,
    pub build_cursor: usize,
    pub quit: bool,
    pub show_help: bool,
    pub modal: Option<Modal>,
    pub status: Option<String>,
    pub tick: usize,
    /// Saved character files for the select screen, by path.
    pub saved_characters: Vec<String>,
    pub select_cursor: usize,
    pub spell_cursor: usize,
    /// Pending spell rank when a spell picker is open.
    pub spell_pick_rank: Option<u8>,
    /// Cursor of the Equipment tab (flat index across sections).
    pub equipment_cursor: usize,
}

/// Each entry of a progression with its filled name taken from the build and its
/// validity checked against the character's proficiencies.
pub open spec fn synced_all(v: Seq<EntryView>, c: BuildChoices, p: ProficienciesView) -> Seq<EntryView> {
    Seq::new(v.len(), |j: int| validated(synced(v, j, c), c, p))
}

/// The character derived from `c` when its numbers fit their machine types, else `prev`.
pub open spec fn recalculated(c: BuildChoices, prev: CharacterView) -> CharacterView {
    if recalc_fits(c) {
        recalc_spec(c)
    } else {
        prev
    }
}

/// `n` is `o` after its build changed to `n.choices`: the character recalculated and
/// the progression synced with the new build.
pub open spec fn refreshed(o: App, n: App) -> bool {
    &&& n.character@ == recalculated(n.choices, o.character@)
    &&& entries_view(n.progression@) == synced_all(entries_view(o.progression@), n.choices, n.character@.proficiencies)
}

/// `n` is `o` after its build changed to `n.choices` in a way that changes the
/// progression's shape: the character recalculated and the progression rebuilt.
pub open spec fn rebuilt(o: App, n: App) -> bool {
    &&& n.character@ == recalculated(n.choices, o.character@)
    &&& entries_view(n.progression@) == synced_all(
        progression_spec(20, Some(&n.choices), build_features(n.choices)),
        n.choices,
        n.character@.proficiencies,
    )
}

/// The progression of a build, synced with it.
pub open spec fn fresh_progression(c: BuildChoices, p: ProficienciesView) -> Seq<EntryView> {
    synced_all(progression_spec(20, Some(&c), build_features(c)), c, p)
}

/// A progression synced with a build.
pub fn synced_progression(choices: &BuildChoices, character: &Character) -> (r: Vec<ProgressionEntry>)
    ensures
        entries_view(r@) == fresh_progression(*choices, character@.proficiencies),
{
    let mut progression = progression_for(choices);
    let ghost v = entries_view(progression@);
    sync_progression(&mut progression, choices, character);
    assert(entries_view(progression@) =~= synced_all(v, *choices, character@.proficiencies));
    progression
}

impl App {
    /// Recompute the character from the build, keeping the old one when the numbers
    /// would not fit their machine types.
    pub fn recalc_character(&mut self)
        ensures
            final(self).character@ == recalculated(old(self).choices, old(self).character@),
            *final(self) == (App { character: final(self).character, ..*old(self) }),
    {
        match try_recalculate(&self.choices) {
            Some(ch) => {
                self.character = ch;
            },
            None => {},
        }
    }

    /// Recompute the character and sync the progression with the build.
    pub fn refresh(&mut self)
        ensures
            refreshed(*old(self), *final(self)),
            *final(self) == (App {
                character: final(self).character,
                progression: final(self).progression,
                ..*old(self)
            }),
    {
        self.recalc_character();
        let ghost v = entries_view(self.progression@);
        sync_progression(&mut self.progression, &self.choices, &self.character);
        assert(entries_view(self.progression@) =~= synced_all(v, self.choices, self.character@.proficiencies));
    }

    /// Recompute the character and rebuild the progression from the build.
    pub fn rebuild(&mut self)
        ensures
            rebuilt(*old(self), *final(self)),
            *final(self) == (App {
                character: final(self).character,
                progression: final(self).progression,
                ..*old(self)
            }),
    {
        self.recalc_character();
        self.progression = synced_progression(&self.choices, &self.character);
    }
}

} // verus!
