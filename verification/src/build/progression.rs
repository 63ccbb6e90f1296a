//! The level-by-level list of build slots.
use vstd::prelude::*;
use crate::build::choices::{BuildChoices, ClassFeatureEntry, features_view};
use crate::build::mechanics::subclass::{requires_deity, requires_deity_lower};
use crate::build::slot::{BuildSlot, SlotState, slot_view};
use crate::text::{lowercase, opt_str};

verus! {

/// A level header or a build slot entry in the progression list.
#[derive(Debug, Clone)]
pub enum ProgressionEntry {
    LevelHeader(u8),
    Slot(SlotState),
}

/// Abstract value of a progression entry.
pub enum EntryView {
    Header(u8),
    Slot(BuildSlot, u8, Option<Seq<char>>, bool),
}

pub open spec fn entry_view(e: ProgressionEntry) -> EntryView {
    match e {
        ProgressionEntry::LevelHeader(l) => EntryView::Header(l),
        ProgressionEntry::Slot(s) => EntryView::Slot(s.slot, s.level, opt_str(s.filled), s.valid),
    }
}

/// Views of a progression.
pub open spec fn entries_view(v: Seq<ProgressionEntry>) -> Seq<EntryView> {
    v.map_values(|e: ProgressionEntry| entry_view(e))
}

/// An empty, valid slot.
pub open spec fn open_slot(s: BuildSlot, level: u8) -> EntryView {
    EntryView::Slot(s, level, None, true)
}

/// The fixed level-1 slots.
pub open spec fn level_1_spec(has_subclass: bool, needs_deity: bool) -> Seq<EntryView> {
    seq![
        open_slot(BuildSlot::Ancestry, 1),
        open_slot(BuildSlot::Heritage, 1),
        open_slot(BuildSlot::Background, 1),
        open_slot(BuildSlot::Class, 1),
    ] + (if has_subclass {
        seq![open_slot(BuildSlot::Subclass, 1)]
    } else {
        Seq::empty()
    }) + (if needs_deity {
        seq![open_slot(BuildSlot::Deity, 1)]
    } else {
        Seq::empty()
    }) + seq![open_slot(BuildSlot::AbilityBoosts, 1), open_slot(BuildSlot::AncestryFeat, 1)]
}

/// Level-1 class features: feat slots become open class-feat slots, others filled features.
pub open spec fn level_1_features(fs: Seq<(Seq<char>, u8, bool)>) -> Seq<EntryView>
    decreases fs.len(),
{
    if fs.len() == 0 {
        Seq::empty()
    } else {
        let rest = level_1_features(fs.drop_last());
        let f = fs.last();
        if f.1 == 1 {
            rest.push(
                if f.2 {
                    open_slot(BuildSlot::ClassFeat, 1)
                } else {
                    EntryView::Slot(BuildSlot::ClassFeature, 1, Some(f.0), true)
                },
            )
        } else {
            rest
        }
    }
}

/// Filled class-feature slots for the non-feat features at `level`.
pub open spec fn level_n_features(fs: Seq<(Seq<char>, u8, bool)>, level: u8) -> Seq<EntryView>
    decreases fs.len(),
{
    if fs.len() == 0 {
        Seq::empty()
    } else {
        let rest = level_n_features(fs.drop_last(), level);
        let f = fs.last();
        if f.1 == level && !f.2 {
            rest.push(EntryView::Slot(BuildSlot::ClassFeature, level, Some(f.0), true))
        } else {
            rest
        }
    }
}

/// Some feature at `level` is a class-feat slot.
pub open spec fn has_feat_slot(fs: Seq<(Seq<char>, u8, bool)>, level: u8) -> bool {
    exists|i: int| 0 <= i < fs.len() && #[trigger] fs[i].1 == level && fs[i].2
}

/// The generic slots of a level of 2 or more.
pub open spec fn level_n_spec(level: u8, fs: Seq<(Seq<char>, u8, bool)>) -> Seq<EntryView> {
    (if level % 2 == 0 || has_feat_slot(fs, level) {
        seq![open_slot(BuildSlot::ClassFeat, level)]
    } else {
        Seq::empty()
    }) + (if level % 2 == 0 {
        seq![open_slot(BuildSlot::SkillFeat, level)]
    } else {
        Seq::empty()
    }) + (if level >= 3 && level % 2 == 1 {
        seq![open_slot(BuildSlot::GeneralFeat, level)]
    } else {
        Seq::empty()
    }) + seq![open_slot(BuildSlot::SkillIncrease, level)] + (if level % 5 == 0 {
        seq![open_slot(BuildSlot::AbilityBoosts, level)]
    } else {
        Seq::empty()
    }) + (if level == 5 || level == 9 || level == 13 || level == 17 {
        seq![open_slot(BuildSlot::AncestryFeat, level)]
    } else {
        Seq::empty()
    })
}

/// All entries of one level: its header, then its slots.
pub open spec fn level_entries(
    level: u8,
    has_subclass: bool,
    needs_deity: bool,
    skill_count: nat,
    fs: Seq<(Seq<char>, u8, bool)>,
) -> Seq<EntryView> {
    seq![EntryView::Header(level)] + if level == 1 {
        level_1_spec(has_subclass, needs_deity) + Seq::new(
            skill_count,
            |i: int| open_slot(BuildSlot::SkillSelection, 1),
        ) + level_1_features(fs)
    } else {
        level_n_spec(level, fs) + level_n_features(fs, level)
    }
}

/// Entries of levels 1 through `n`.
pub open spec fn levels_upto(
    n: nat,
    has_subclass: bool,
    needs_deity: bool,
    skill_count: nat,
    fs: Seq<(Seq<char>, u8, bool)>,
) -> Seq<EntryView>
    decreases n,
{
    if n == 0 {
        Seq::empty()
    } else {
        levels_upto((n - 1) as nat, has_subclass, needs_deity, skill_count, fs) + level_entries(
            n as u8,
            has_subclass,
            needs_deity,
            skill_count,
            fs,
        )
    }
}

/// The class data names a subclass category.
pub open spec fn has_subclass_spec(choices: Option<&BuildChoices>) -> bool {
    match choices {
        Some(c) => match c.class_data {
            Some(d) => d.subclass_category is Some,
            None => false,
        },
        None => false,
    }
}

/// The chosen class needs a deity.
pub open spec fn needs_deity_spec(choices: Option<&BuildChoices>) -> bool {
    match choices {
        Some(c) => match c.class {
            Some(n) => requires_deity_lower(lowercase(n@)),
            None => false,
        },
        None => false,
    }
}

/// Number of additional skill picks granted by the class.
pub open spec fn skill_count_spec(choices: Option<&BuildChoices>) -> nat {
    match choices {
        Some(c) => match c.class_data {
            Some(d) => d.additional_skill_count as nat,
            None => 0,
        },
        None => 0,
    }
}

/// The progression for `max_level` (at least one level).
pub open spec fn progression_spec(
    max_level: u8,
    choices: Option<&BuildChoices>,
    fs: Seq<(Seq<char>, u8, bool)>,
) -> Seq<EntryView> {
    levels_upto(
        if max_level < 1 { 1 } else { max_level as nat },
        has_subclass_spec(choices),
        needs_deity_spec(choices),
        skill_count_spec(choices),
        fs,
    )
}

fn push_slot(entries: &mut Vec<ProgressionEntry>, slot: BuildSlot, level: u8)
    ensures
        entries_view(final(entries)@) == entries_view(old(entries)@).push(open_slot(slot, level)),
{
    entries.push(ProgressionEntry::Slot(SlotState::new(slot, level)));
    assert(entries_view(entries@) =~= entries_view(old(entries)@).push(open_slot(slot, level)));
}

fn push_feature(entries: &mut Vec<ProgressionEntry>, f: &ClassFeatureEntry, level: u8)
    ensures
        entries_view(final(entries)@) == entries_view(old(entries)@).push(
            EntryView::Slot(BuildSlot::ClassFeature, level, Some(f.name@), true),
        ),
{
    let mut state = SlotState::new(BuildSlot::ClassFeature, level);
    state.filled = Some(f.name.clone());
    entries.push(ProgressionEntry::Slot(state));
    assert(entries_view(entries@) =~= entries_view(old(entries)@).push(
        EntryView::Slot(BuildSlot::ClassFeature, level, Some(f.name@), true),
    ));
}

fn level_1_slots(entries: &mut Vec<ProgressionEntry>, has_subclass: bool, needs_deity: bool)
    ensures
        entries_view(final(entries)@) == entries_view(old(entries)@) + level_1_spec(has_subclass, needs_deity),
{
    let ghost e0 = entries_view(entries@);
    push_slot(entries, BuildSlot::Ancestry, 1);
    push_slot(entries, BuildSlot::Heritage, 1);
    push_slot(entries, BuildSlot::Background, 1);
    push_slot(entries, BuildSlot::Class, 1);
    if has_subclass {
        push_slot(entries, BuildSlot::Subclass, 1);
    }
    if needs_deity {
        push_slot(entries, BuildSlot::Deity, 1);
    }
    push_slot(entries, BuildSlot::AbilityBoosts, 1);
    push_slot(entries, BuildSlot::AncestryFeat, 1);
    assert(entries_view(entries@) =~= e0 + level_1_spec(has_subclass, needs_deity));
}

fn skill_selection_slots(entries: &mut Vec<ProgressionEntry>, choices: Option<&BuildChoices>)
    ensures
        entries_view(final(entries)@) == entries_view(old(entries)@) + Seq::new(
            skill_count_spec(choices),
            |i: int| open_slot(BuildSlot::SkillSelection, 1),
        ),
{
    let count: u8 = match choices {
        Some(c) => match &c.class_data {
            Some(d) => d.additional_skill_count,
            None => 0,
        },
        None => 0,
    };
    let ghost e0 = entries_view(entries@);
    let mut i: u8 = 0;
    while i < count
        invariant
            i <= count,
            count == skill_count_spec(choices),
            entries_view(entries@) == e0 + Seq::new(i as nat, |k: int| open_slot(BuildSlot::SkillSelection, 1)),
        decreases count - i,
    {
        push_slot(entries, BuildSlot::SkillSelection, 1);
        i = i + 1;
        assert(entries_view(entries@) =~= e0 + Seq::new(i as nat, |k: int| open_slot(BuildSlot::SkillSelection, 1)));
    }
}

fn any_feat_slot_at(class_features: &[ClassFeatureEntry], level: u8) -> (r: bool)
    ensures
        r == has_feat_slot(features_view(class_features@), level),
{
    let ghost fs = features_view(class_features@);
    let mut i: usize = 0;
    while i < class_features.len()
        invariant
            i <= class_features@.len(),
            fs == features_view(class_features@),
            forall|j: int| 0 <= j < i ==> !(#[trigger] fs[j].1 == level && fs[j].2),
        decreases class_features.len() - i,
    {
        if class_features[i].level == level && class_features[i].is_feat_slot {
            assert(fs[i as int].1 == level && fs[i as int].2);
            return true;
        }
        i = i + 1;
    }
    false
}

fn level_n_slots(entries: &mut Vec<ProgressionEntry>, level: u8, class_features: &[ClassFeatureEntry])
    ensures
        entries_view(final(entries)@) == entries_view(old(entries)@) + level_n_spec(level, features_view(class_features@)),
{
    let ghost e0 = entries_view(entries@);
    // Class feat at even levels, or whenever the class table has a feat slot at this level
    let has_feat_slot = any_feat_slot_at(class_features, level);
    if level % 2 == 0 || has_feat_slot {
        push_slot(entries, BuildSlot::ClassFeat, level);
    }
    // Skill feat at even levels
    if level % 2 == 0 {
        push_slot(entries, BuildSlot::SkillFeat, level);
    }
    // General feat at odd levels >= 3
    if level >= 3 && level % 2 == 1 {
        push_slot(entries, BuildSlot::GeneralFeat, level);
    }
    // Skill increase every level >= 2
    push_slot(entries, BuildSlot::SkillIncrease, level);
    // Ability boosts at 5, 10, 15, 20
    if level % 5 == 0 {
        push_slot(entries, BuildSlot::AbilityBoosts, level);
    }
    // Ancestry feat at 5, 9, 13, 17
    if level == 5 || level == 9 || level == 13 || level == 17 {
        push_slot(entries, BuildSlot::AncestryFeat, level);
    }
    assert(entries_view(entries@) =~= e0 + level_n_spec(level, features_view(class_features@)));
}

fn level_1_feature_slots(entries: &mut Vec<ProgressionEntry>, class_features: &[ClassFeatureEntry])
    ensures
        entries_view(final(entries)@) == entries_view(old(entries)@) + level_1_features(features_view(class_features@)),
{
    let ghost e0 = entries_view(entries@);
    let ghost fs = features_view(class_features@);
    let mut i: usize = 0;
    while i < class_features.len()
        invariant
            i <= class_features@.len(),
            fs == features_view(class_features@),
            entries_view(entries@) == e0 + level_1_features(fs.take(i as int)),
        decreases class_features.len() - i,
    {
        assert(fs.take(i + 1).drop_last() =~= fs.take(i as int));
        let f = &class_features[i];
        if f.level == 1 {
            if f.is_feat_slot {
                push_slot(entries, BuildSlot::ClassFeat, 1);
            } else {
                push_feature(entries, f, 1);
            }
        }
        i = i + 1;
        assert(entries_view(entries@) =~= e0 + level_1_features(fs.take(i as int)));
    }
    assert(fs.take(i as int) =~= fs);
}

fn level_n_feature_slots(entries: &mut Vec<ProgressionEntry>, class_features: &[ClassFeatureEntry], level: u8)
    ensures
        entries_view(final(entries)@) == entries_view(old(entries)@) + level_n_features(features_view(class_features@), level),
{
    let ghost e0 = entries_view(entries@);
    let ghost fs = features_view(class_features@);
    let mut i: usize = 0;
    while i < class_features.len()
        invariant
            i <= class_features@.len(),
            fs == features_view(class_features@),
            entries_view(entries@) == e0 + level_n_features(fs.take(i as int), level),
        decreases class_features.len() - i,
    {
        assert(fs.take(i + 1).drop_last() =~= fs.take(i as int));
        let f = &class_features[i];
        if f.level == level && !f.is_feat_slot {
            push_feature(entries, f, level);
        }
        i = i + 1;
        assert(entries_view(entries@) =~= e0 + level_n_features(fs.take(i as int), level));
    }
    assert(fs.take(i as int) =~= fs);
}

/// Generate the full level-by-level progression for a character.
pub fn build_progression(max_level: u8) -> (r: Vec<ProgressionEntry>)
    ensures
        entries_view(r@) == progression_spec(max_level, None, Seq::empty()),
{
    let none: [ClassFeatureEntry; 0] = [];
    let r = build_progression_with_class(max_level, None, &none);
    assert(features_view(none@) =~= Seq::empty());
    r
}

/// Generate progression with class-aware slots (subclass, deity, class features).
pub fn build_progression_with_class(
    max_level: u8,
    choices: Option<&BuildChoices>,
    class_features: &[ClassFeatureEntry],
) -> (r: Vec<ProgressionEntry>)
    ensures
        entries_view(r@) == progression_spec(max_level, choices, features_view(class_features@)),
{
    let has_subclass = match choices {
        Some(c) => match &c.class_data {
            Some(d) => d.subclass_category.is_some(),
            None => false,
        },
        None => false,
    };
    let needs_deity = match choices {
        Some(c) => match &c.class {
            Some(name) => requires_deity(name.as_str()),
            None => false,
        },
        None => false,
    };
    let ghost fs = features_view(class_features@);
    let ghost count = skill_count_spec(choices);
    let top: u8 = if max_level < 1 { 1 } else { max_level };
    let mut entries: Vec<ProgressionEntry> = Vec::new();
    assert(entries_view(entries@) =~= levels_upto(0, has_subclass, needs_deity, count, fs));
    let mut lvl: u8 = 1;
    loop
        invariant_except_break
            entries_view(entries@) == levels_upto((lvl - 1) as nat, has_subclass, needs_deity, count, fs),
        invariant
            1 <= lvl <= top,
            has_subclass == has_subclass_spec(choices),
            needs_deity == needs_deity_spec(choices),
            count == skill_count_spec(choices),
            fs == features_view(class_features@),
        ensures
            entries_view(entries@) == levels_upto(top as nat, has_subclass, needs_deity, count, fs),
        decreases top - lvl,
    {
        let ghost before = entries_view(entries@);
        entries.push(ProgressionEntry::LevelHeader(lvl));
        assert(entries_view(entries@) =~= before + seq![EntryView::Header(lvl)]);
        if lvl == 1 {
            level_1_slots(&mut entries, has_subclass, needs_deity);
            skill_selection_slots(&mut entries, choices);
            // Class features at level 1
            level_1_feature_slots(&mut entries, class_features);
        } else {
            level_n_slots(&mut entries, lvl, class_features);
            // Class features at this level
            level_n_feature_slots(&mut entries, class_features, lvl);
        }
        assert(entries_view(entries@) =~= levels_upto(lvl as nat, has_subclass, needs_deity, count, fs));
        if lvl == top {
            break;
        }
        lvl = lvl + 1;
    }
    entries
}

/// An entry of one level's block is an entry of the progression through any later
/// level.
proof fn lemma_levels_contain(
    n: nat,
    has_subclass: bool,
    needs_deity: bool,
    skill_count: nat,
    fs: Seq<(Seq<char>, u8, bool)>,
    l: nat,
    x: EntryView,
)
    requires
        1 <= l <= n,
        n <= 255,
        level_entries(l as u8, has_subclass, needs_deity, skill_count, fs).contains(x),
    ensures
        levels_upto(n, has_subclass, needs_deity, skill_count, fs).contains(x),
    decreases n,
{
    let pre = levels_upto((n - 1) as nat, has_subclass, needs_deity, skill_count, fs);
    let e = level_entries(n as u8, has_subclass, needs_deity, skill_count, fs);
    assert(levels_upto(n, has_subclass, needs_deity, skill_count, fs) == pre + e);
    if l == n {
        let i = choose|i: int| 0 <= i < e.len() && e[i] == x;
        assert((pre + e)[pre.len() + i] == x);
    } else {
        lemma_levels_contain((n - 1) as nat, has_subclass, needs_deity, skill_count, fs, l, x);
        let i = choose|i: int| 0 <= i < pre.len() && pre[i] == x;
        assert((pre + e)[i] == x);
    }
}

/// Every fifth level (5, 10, 15, 20) up to the build's level has an open Ability
/// Boosts slot, whatever the class.
pub proof fn law_boosts_every_fifth_level(
    max_level: u8,
    choices: Option<&BuildChoices>,
    fs: Seq<(Seq<char>, u8, bool)>,
    l: u8,
)
    requires
        2 <= l <= max_level,
        l % 5 == 0,
    ensures
        progression_spec(max_level, choices, fs).contains(open_slot(BuildSlot::AbilityBoosts, l)),
{
    let hs = has_subclass_spec(choices);
    let nd = needs_deity_spec(choices);
    let sc = skill_count_spec(choices);
    let x = open_slot(BuildSlot::AbilityBoosts, l);
    let s = level_n_spec(l, fs);
    let tail: Seq<EntryView> = if l == 5 || l == 9 || l == 13 || l == 17 {
        seq![open_slot(BuildSlot::AncestryFeat, l)]
    } else {
        Seq::empty()
    };
    let k = s.len() - 1 - tail.len();
    assert(s[k] == x);
    let e = level_entries(l, hs, nd, sc, fs);
    assert(e == seq![EntryView::Header(l)] + (s + level_n_features(fs, l)));
    assert(e[k + 1] == x);
    assert(e.contains(x));
    lemma_levels_contain(max_level as nat, hs, nd, sc, fs, l as nat, x);
}

} // verus!
