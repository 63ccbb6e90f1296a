//! Marking filled slots invalid when their prerequisites no longer hold.
use vstd::prelude::*;
use crate::build::choices::{BuildChoices, FeatSelectionView};
use crate::build::maps::{level_lookup, name_index, name_lookup};
use crate::build::progression::{EntryView, ProgressionEntry, entries_view, entry_view};
use crate::build::slot::{BuildSlot, SlotState, slot_key};
use crate::model::character::Character;
use crate::model::proficiencies::{ProficienciesView, Rank, rank_bonus};
use crate::text::{clone_opt, opt_str, str_eq};

verus! {

/// The selection stored for a feat slot was made for the current choice (or records none).
pub open spec fn context_ok(feats: Seq<(Seq<char>, FeatSelectionView)>, key: Seq<char>, current: Option<Seq<char>>) -> bool {
    match name_lookup(feats, key) {
        Some(sel) => match sel.source_context {
            Some(ctx) => current == Some(ctx),
            None => true,
        },
        None => true,
    }
}

/// Some entry named exactly `skill` is at least Trained.
pub open spec fn trained_in(s: Seq<(Seq<char>, Rank)>, skill: Seq<char>) -> bool {
    exists|i: int| 0 <= i < s.len() && #[trigger] s[i].0 == skill && rank_bonus(s[i].1) >= 2
}

/// The skill (or lore) is at least Trained on the character.
pub open spec fn skill_trained(p: ProficienciesView, skill: Seq<char>) -> bool {
    trained_in(p.skills, skill) || trained_in(p.lores, skill)
}

/// Whether a filled slot's prerequisites hold.
pub open spec fn slot_valid(slot: BuildSlot, level: u8, c: BuildChoices, p: ProficienciesView) -> bool {
    match slot {
        BuildSlot::Heritage => c.ancestry is Some,
        BuildSlot::AncestryFeat => context_ok(c.feats.view(), slot_key(slot, level), opt_str(c.ancestry)),
        BuildSlot::ClassFeat => context_ok(c.feats.view(), slot_key(slot, level), opt_str(c.class)),
        BuildSlot::SkillIncrease => match level_lookup(c.skill_increases.view(), level) {
            Some(skill) => skill_trained(p, skill),
            None => true,
        },
        BuildSlot::AbilityBoosts => if level == 1 {
            let ac = c.ability_choices.view();
            (name_index(ac, "ancestry"@) is None || c.ancestry_data is Some) && (name_index(ac, "background"@) is None
                || c.background_data is Some) && (name_index(ac, "class"@) is None || c.class_data is Some)
        } else {
            true
        },
        BuildSlot::Subclass => match c.class_data {
            Some(d) => d.subclass_category is Some,
            None => false,
        },
        _ => true,
    }
}

/// An entry after validation: empty slots are valid, filled ones per `slot_valid`.
pub open spec fn validated(e: EntryView, c: BuildChoices, p: ProficienciesView) -> EntryView {
    match e {
        EntryView::Header(l) => EntryView::Header(l),
        EntryView::Slot(s, l, f, v) => EntryView::Slot(s, l, f, if f is None { true } else { slot_valid(s, l, c, p) }),
    }
}

fn trained_in_exec(v: &Vec<(String, Rank)>, skill: &str) -> (r: bool)
    ensures
        r == trained_in(crate::model::proficiencies::named_ranks(v@), skill@),
{
    let ghost s = crate::model::proficiencies::named_ranks(v@);
    let mut i: usize = 0;
    while i < v.len()
        invariant
            i <= v.len(),
            s == crate::model::proficiencies::named_ranks(v@),
            forall|j: int| 0 <= j < i ==> !(#[trigger] s[j].0 == skill@ && rank_bonus(s[j].1) >= 2),
        decreases v.len() - i,
    {
        if str_eq(v[i].0.as_str(), skill) && v[i].1.bonus() >= 2 {
            assert(s[i as int].0 == skill@ && rank_bonus(s[i as int].1) >= 2);
            return true;
        }
        i = i + 1;
    }
    false
}

fn is_skill_trained(character: &Character, skill: &str) -> (r: bool)
    ensures
        r == skill_trained(character@.proficiencies, skill@),
{
    trained_in_exec(&character.proficiencies.skills, skill) || trained_in_exec(&character.proficiencies.lores, skill)
}

fn context_ok_exec(c: &BuildChoices, slot: BuildSlot, level: u8, current: &Option<String>) -> (r: bool)
    ensures
        r == context_ok(c.feats.view(), slot_key(slot, level), opt_str(*current)),
{
    let key = slot.key_at(level);
    match c.feats.get(key.as_str()) {
        Some(sel) => match &sel.source_context {
            Some(ctx) => match current {
                Some(cur) => str_eq(cur.as_str(), ctx.as_str()),
                None => false,
            },
            None => true,
        },
        None => true,
    }
}

fn slot_valid_exec(slot: BuildSlot, level: u8, c: &BuildChoices, character: &Character) -> (r: bool)
    ensures
        r == slot_valid(slot, level, *c, character@.proficiencies),
{
    match slot {
        BuildSlot::Heritage => c.ancestry.is_some(),
        BuildSlot::AncestryFeat => context_ok_exec(c, slot, level, &c.ancestry),
        BuildSlot::ClassFeat => context_ok_exec(c, slot, level, &c.class),
        BuildSlot::SkillIncrease => match c.skill_increases.get(level) {
            Some(skill) => is_skill_trained(character, skill.as_str()),
            None => true,
        },
        BuildSlot::AbilityBoosts => if level == 1 {
            let needs_ancestry = c.ability_choices.contains_key("ancestry");
            let needs_bg = c.ability_choices.contains_key("background");
            let needs_class = c.ability_choices.contains_key("class");
            (!needs_ancestry || c.ancestry_data.is_some()) && (!needs_bg || c.background_data.is_some())
                && (!needs_class || c.class_data.is_some())
        } else {
            true
        },
        BuildSlot::Subclass => match &c.class_data {
            Some(d) => d.subclass_category.is_some(),
            None => false,
        },
        _ => true,
    }
}

/// Mark filled slots as invalid when their prerequisites no longer hold.
pub fn validate_progression(
    progression: &mut Vec<ProgressionEntry>,
    choices: &BuildChoices,
    character: &Character,
)
    ensures
        entries_view(final(progression)@) == entries_view(old(progression)@).map_values(
            |e: EntryView| validated(e, *choices, character@.proficiencies),
        ),
{
    let ghost old_v = entries_view(progression@);
    let mut i: usize = 0;
    while i < progression.len()
        invariant
            i <= progression.len(),
            progression@.len() == old_v.len(),
            forall|j: int| 0 <= j < i ==> entry_view(#[trigger] progression@[j]) == validated(old_v[j], *choices, character@.proficiencies),
            forall|j: int| i <= j < progression@.len() ==> entry_view(#[trigger] progression@[j]) == old_v[j],
        decreases progression.len() - i,
    {
        let updated = match &progression[i] {
            ProgressionEntry::LevelHeader(_) => None,
            ProgressionEntry::Slot(state) => {
                let valid = if state.filled.is_none() {
                    true
                } else {
                    slot_valid_exec(state.slot, state.level, choices, character)
                };
                Some(SlotState { slot: state.slot, level: state.level, filled: clone_opt(&state.filled), valid })
            },
        };
        match updated {
            Some(st) => {
                progression.set(i, ProgressionEntry::Slot(st));
            },
            None => {},
        }
        i = i + 1;
    }
    assert(entries_view(progression@) =~= old_v.map_values(
        |e: EntryView| validated(e, *choices, character@.proficiencies),
    ));
}

} // verus!
