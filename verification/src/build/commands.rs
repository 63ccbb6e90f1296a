//! What the builder's commands do to a build: clearing a slot, filling it from a
//! document, changing level, trimming prepared spells.
use vstd::prelude::*;
use vstd::string::StringExecFns;
use crate::build::choices::{
    AbilityChoiceSet, BuildChoices, FeatSelection, FeatSelectionView, SpellSlotChoice,
};
use crate::build::maps::{
    LevelMap, NameMap, kept, level_index, level_lookup, level_stored, name_index, name_lookup,
    name_stored,
};
use crate::build::mechanics::ancestry::{ancestry_data_of, extract_ancestry_data};
use crate::build::mechanics::background::{background_data_of, extract_background_data};
use crate::build::mechanics::boosts::free_count;
use crate::build::mechanics::class::{class_data_of, extract_class_data};
use crate::build::mechanics::deity::{deity_data_of, extract_deity_data};
use crate::build::mechanics::equipment::{
    armor_of, extract_armor, extract_shield, extract_weapon, shield_of, weapon_of,
};
use crate::build::slot::{BuildSlot, slot_key};
use crate::document::Document;
use crate::model::equipment::{
    Armor, Equipment, Item, ResilientRune, Shield, StrikingRune, Weapon,
};
use crate::model::feat::FeatType;
use crate::scan::{parse_u8_spec, parse_unsigned, parse_unsigned_chars, trim_bounds};
use crate::text::{
    chars_of, clone_opt, decimal, decimal_string, has_prefix, opt_str, owned, starts_with, strs,
    trim,
};

verus! {

// ---------------------------------------------------------------------------
// Map edits
// ---------------------------------------------------------------------------

/// `v` without the entry for `key`, if there is one.
pub open spec fn removed_name<V>(v: Seq<(Seq<char>, V)>, key: Seq<char>) -> Seq<(Seq<char>, V)> {
    match name_index(v, key) {
        Some(i) => v.remove(i),
        None => v,
    }
}

/// `v` without the entry for level `key`, if there is one.
pub open spec fn removed_level<V>(v: Seq<(u8, V)>, key: u8) -> Seq<(u8, V)> {
    match level_index(v, key) {
        Some(i) => v.remove(i),
        None => v,
    }
}

/// Marks keeping the feat selections whose type is not `t`.
pub open spec fn other_type_marks(v: Seq<(Seq<char>, FeatSelectionView)>, t: FeatType) -> Seq<bool> {
    v.map_values(|e: (Seq<char>, FeatSelectionView)| e.1.feat_type != t)
}

/// The feat selections whose type is not `t`.
pub open spec fn without_type(v: Seq<(Seq<char>, FeatSelectionView)>, t: FeatType) -> Seq<
    (Seq<char>, FeatSelectionView),
> {
    kept(v, other_type_marks(v, t))
}

/// Marks keeping the entries whose key is not `key`.
pub open spec fn other_key_marks<V>(v: Seq<(Seq<char>, V)>, key: Seq<char>) -> Seq<bool> {
    v.map_values(|e: (Seq<char>, V)| e.0 != key)
}

/// The feat selections not stored under `key`.
pub open spec fn without_key(v: Seq<(Seq<char>, FeatSelectionView)>, key: Seq<char>) -> Seq<
    (Seq<char>, FeatSelectionView),
> {
    kept(v, other_key_marks(v, key))
}

fn drop_feat_type(m: &mut NameMap<FeatSelection>, t: FeatType)
    ensures
        final(m).view() == without_type(old(m).view(), t),
{
    let ghost s = m.view();
    let n = m.len();
    let mut marks: Vec<bool> = Vec::new();
    let mut i: usize = 0;
    while i < n
        invariant
            n == s.len(),
            s == m.view(),
            i <= n,
            marks@ == other_type_marks(s, t).take(i as int),
        decreases n - i,
    {
        let (_k, sel) = m.entry(i);
        marks.push(sel.feat_type != t);
        i = i + 1;
        assert(marks@ =~= other_type_marks(s, t).take(i as int));
    }
    assert(marks@ =~= other_type_marks(s, t));
    m.retain_marked(&marks);
}

fn drop_feat_key(m: &mut NameMap<FeatSelection>, key: &str)
    ensures
        final(m).view() == without_key(old(m).view(), key@),
{
    let ghost s = m.view();
    let n = m.len();
    let mut marks: Vec<bool> = Vec::new();
    let mut i: usize = 0;
    while i < n
        invariant
            n == s.len(),
            s == m.view(),
            i <= n,
            marks@ == other_key_marks(s, key@).take(i as int),
        decreases n - i,
    {
        let (k, _sel) = m.entry(i);
        marks.push(!crate::text::str_eq(k, key));
        i = i + 1;
        assert(marks@ =~= other_key_marks(s, key@).take(i as int));
    }
    assert(marks@ =~= other_key_marks(s, key@));
    m.retain_marked(&marks);
}

/// The key "level_N" of the ability choices for a level.
pub fn level_source_key(level: u8) -> (r: String)
    ensures
        r@ == "level_"@ + decimal(level as nat),
{
    let mut s = owned("level_");
    let d = decimal_string(level as u64);
    s.append(d.as_str());
    s
}

// ---------------------------------------------------------------------------
// Clearing a slot
// ---------------------------------------------------------------------------

/// The ability choices cleared by the level-1 boost slot: those of the ancestry, the
/// background, the class and the level-1 free boosts.
pub open spec fn level_1_boosts_removed<V>(v: Seq<(Seq<char>, V)>) -> Seq<(Seq<char>, V)> {
    removed_name(
        removed_name(removed_name(removed_name(v, "ancestry"@), "background"@), "class"@),
        "level_1"@,
    )
}

/// What clearing `slot` at `level` leaves of the build `o` (`skill_index` is the
/// position of a skill selection slot among the skill selection slots).
pub open spec fn cleared(o: BuildChoices, n: BuildChoices, slot: BuildSlot, level: u8, skill_index: nat) -> bool {
    match slot {
        BuildSlot::Ancestry => {
            &&& n == BuildChoices {
                ancestry: None,
                ancestry_data: None,
                heritage: None,
                feats: n.feats,
                ability_choices: n.ability_choices,
                ..o
            }
            &&& n.feats.view() == without_type(o.feats.view(), FeatType::Ancestry)
            &&& n.ability_choices.view() == removed_name(o.ability_choices.view(), "ancestry"@)
        },
        BuildSlot::Heritage => n == BuildChoices { heritage: None, ..o },
        BuildSlot::Background => {
            &&& n == BuildChoices {
                background: None,
                background_data: None,
                feats: n.feats,
                ability_choices: n.ability_choices,
                ..o
            }
            &&& n.feats.view() == without_key(o.feats.view(), "background_feat"@)
            &&& n.ability_choices.view() == removed_name(o.ability_choices.view(), "background"@)
        },
        BuildSlot::Class => {
            &&& n == BuildChoices {
                class: None,
                class_data: None,
                subclass: None,
                feats: n.feats,
                ability_choices: n.ability_choices,
                initial_skills: n.initial_skills,
                prepared_spells: n.prepared_spells,
                focus_spells: n.focus_spells,
                ..o
            }
            &&& n.feats.view() == without_type(o.feats.view(), FeatType::Class)
            &&& n.ability_choices.view() == removed_name(o.ability_choices.view(), "class"@)
            &&& n.initial_skills@.len() == 0
            &&& n.prepared_spells.view().len() == 0
            &&& n.focus_spells@.len() == 0
        },
        BuildSlot::Deity => {
            &&& n == BuildChoices {
                deity: None,
                deity_data: None,
                chosen_domains: n.chosen_domains,
                chosen_divine_font: None,
                ..o
            }
            &&& n.chosen_domains@.len() == 0
        },
        BuildSlot::Subclass => n == BuildChoices { subclass: None, ..o },
        BuildSlot::AbilityBoosts => {
            &&& n == BuildChoices { ability_choices: n.ability_choices, ..o }
            &&& n.ability_choices.view() == if level == 1 {
                level_1_boosts_removed(o.ability_choices.view())
            } else {
                removed_name(o.ability_choices.view(), "level_"@ + decimal(level as nat))
            }
        },
        BuildSlot::AncestryFeat | BuildSlot::ClassFeat | BuildSlot::SkillFeat
        | BuildSlot::GeneralFeat => {
            &&& n == BuildChoices { feats: n.feats, ..o }
            &&& n.feats.view() == removed_name(o.feats.view(), slot_key(slot, level))
        },
        BuildSlot::SkillIncrease => {
            &&& n == BuildChoices { skill_increases: n.skill_increases, ..o }
            &&& n.skill_increases.view() == removed_level(o.skill_increases.view(), level)
        },
        BuildSlot::ClassFeature => n == o,
        BuildSlot::SkillSelection => {
            &&& n == BuildChoices { initial_skills: n.initial_skills, ..o }
            &&& n.initial_skills@ == if skill_index < o.initial_skills@.len() {
                o.initial_skills@.remove(skill_index as int)
            } else {
                o.initial_skills@
            }
        },
    }
}

/// Clear the choice behind a slot, with what depends on it: clearing the ancestry
/// clears the heritage, the ancestry feats and the ancestry boosts; the background
/// its boosts and feat; the class its subclass, boosts, feats, skills and spells; the
/// deity its domains and font.
pub fn clear_slot_choices(c: &mut BuildChoices, slot: BuildSlot, level: u8, skill_index: usize)
    ensures
        cleared(*old(c), *final(c), slot, level, skill_index as nat),
{
    match slot {
        BuildSlot::Ancestry => {
            c.ancestry = None;
            c.ancestry_data = None;
            // Cascade: heritage, ancestry feats, ancestry boosts
            c.heritage = None;
            drop_feat_type(&mut c.feats, FeatType::Ancestry);
            c.ability_choices.remove("ancestry");
        },
        BuildSlot::Heritage => {
            c.heritage = None;
        },
        BuildSlot::Background => {
            c.background = None;
            c.background_data = None;
            c.ability_choices.remove("background");
            drop_feat_key(&mut c.feats, "background_feat");
        },
        BuildSlot::Class => {
            c.class = None;
            c.class_data = None;
            c.subclass = None;
            c.ability_choices.remove("class");
            c.initial_skills = Vec::new();
            c.prepared_spells = LevelMap::new();
            c.focus_spells = Vec::new();
            drop_feat_type(&mut c.feats, FeatType::Class);
        },
        BuildSlot::Deity => {
            c.deity = None;
            c.deity_data = None;
            c.chosen_domains = Vec::new();
            c.chosen_divine_font = None;
        },
        BuildSlot::Subclass => {
            c.subclass = None;
        },
        BuildSlot::AbilityBoosts => {
            if level == 1 {
                c.ability_choices.remove("ancestry");
                c.ability_choices.remove("background");
                c.ability_choices.remove("class");
                c.ability_choices.remove("level_1");
            } else {
                let key = level_source_key(level);
                c.ability_choices.remove(key.as_str());
            }
        },
        BuildSlot::AncestryFeat | BuildSlot::ClassFeat | BuildSlot::SkillFeat
        | BuildSlot::GeneralFeat => {
            let key = slot.key_at(level);
            c.feats.remove(key.as_str());
        },
        BuildSlot::SkillIncrease => {
            c.skill_increases.remove(level);
        },
        BuildSlot::ClassFeature => {},
        BuildSlot::SkillSelection => {
            if skill_index < c.initial_skills.len() {
                c.initial_skills.remove(skill_index);
            }
        },
    }
}

// ---------------------------------------------------------------------------
// Filling a slot from a document
// ---------------------------------------------------------------------------

/// What the interface does after a slot is filled.
#[derive(Debug, Clone, Copy, PartialEq, Eq, Structural)]
pub enum FollowUp {
    /// Recompute the character and refresh the progression.
    Refresh,
    /// Recompute the character and rebuild the progression (the class changed).
    Rebuild,
    /// Recompute, refresh, then offer the deity's divine font if one must be picked.
    DeityChosen,
}

/// The name of a document, or empty.
pub open spec fn name_or_empty(doc: Document) -> Seq<char> {
    match opt_str(doc.name) {
        Some(n) => n,
        None => Seq::empty(),
    }
}

/// `n` is `v` with `val` stored under `key` (replacing, or inserted in order).
pub open spec fn stored_under<V>(v: Seq<(Seq<char>, V)>, n: Seq<(Seq<char>, V)>, key: Seq<char>, val: V) -> bool {
    n == name_stored(v, key, val)
}

/// `n` is `v` with `val` stored under level `key`.
pub open spec fn stored_at<V>(v: Seq<(u8, V)>, n: Seq<(u8, V)>, key: u8, val: V) -> bool {
    n == level_stored(v, key, val)
}

/// The feat type recorded for a feat slot.
pub open spec fn slot_feat_type(slot: BuildSlot) -> FeatType {
    match slot {
        BuildSlot::AncestryFeat => FeatType::Ancestry,
        BuildSlot::ClassFeat => FeatType::Class,
        BuildSlot::SkillFeat => FeatType::Skill,
        _ => FeatType::General,
    }
}

/// The context recorded with a feat: the ancestry for ancestry feats, the class for
/// class feats.
pub open spec fn slot_feat_context(slot: BuildSlot, o: BuildChoices) -> Option<Seq<char>> {
    match slot {
        BuildSlot::AncestryFeat => opt_str(o.ancestry),
        BuildSlot::ClassFeat => opt_str(o.class),
        _ => None,
    }
}

/// What filling `slot` at `level` with `doc` makes of the build `o`.
pub open spec fn selected(o: BuildChoices, n: BuildChoices, slot: BuildSlot, level: u8, doc: Document) -> bool {
    let name = name_or_empty(doc);
    match slot {
        BuildSlot::Ancestry => {
            let had = o.ancestry is Some;
            &&& n == BuildChoices {
                ancestry: n.ancestry,
                ancestry_data: n.ancestry_data,
                heritage: if had { None } else { o.heritage },
                feats: n.feats,
                ability_choices: n.ability_choices,
                ..o
            }
            &&& opt_str(n.ancestry) == Some(name)
            &&& n.ancestry_data matches Some(d) && ancestry_data_of(d, doc)
            &&& n.feats.view() == if had {
                without_type(o.feats.view(), FeatType::Ancestry)
            } else {
                o.feats.view()
            }
            &&& n.ability_choices.view() == if had {
                removed_name(o.ability_choices.view(), "ancestry"@)
            } else {
                o.ability_choices.view()
            }
        },
        BuildSlot::Heritage => {
            &&& n == BuildChoices { heritage: n.heritage, ..o }
            &&& opt_str(n.heritage) == Some(name)
        },
        BuildSlot::Background => {
            &&& n == BuildChoices {
                background: n.background,
                background_data: n.background_data,
                feats: n.feats,
                ability_choices: n.ability_choices,
                ..o
            }
            &&& opt_str(n.background) == Some(name)
            &&& n.background_data matches Some(d) && background_data_of(d, doc)
            &&& n.feats.view() == without_key(o.feats.view(), "background_feat"@)
            &&& n.ability_choices.view() == removed_name(o.ability_choices.view(), "background"@)
        },
        BuildSlot::Class => {
            let had = o.class is Some;
            &&& n == BuildChoices {
                class: n.class,
                class_data: n.class_data,
                subclass: if had { None } else { o.subclass },
                feats: n.feats,
                ability_choices: n.ability_choices,
                ..o
            }
            &&& opt_str(n.class) == Some(name)
            &&& n.class_data matches Some(d) && class_data_of(d, doc)
            &&& n.feats.view() == if had {
                without_type(o.feats.view(), FeatType::Class)
            } else {
                o.feats.view()
            }
            &&& n.ability_choices.view() == if had {
                removed_name(o.ability_choices.view(), "class"@)
            } else {
                o.ability_choices.view()
            }
        },
        BuildSlot::Subclass => {
            &&& n == BuildChoices { subclass: n.subclass, ..o }
            &&& opt_str(n.subclass) == Some(name)
        },
        BuildSlot::Deity => {
            &&& n == BuildChoices {
                deity: n.deity,
                deity_data: n.deity_data,
                chosen_domains: n.chosen_domains,
                chosen_divine_font: None,
                ..o
            }
            &&& opt_str(n.deity) == Some(name)
            &&& n.deity_data matches Some(d) && deity_data_of(d, doc)
            &&& n.chosen_domains@.len() == 0
        },
        BuildSlot::AncestryFeat | BuildSlot::ClassFeat | BuildSlot::SkillFeat
        | BuildSlot::GeneralFeat => {
            &&& n == BuildChoices { feats: n.feats, ..o }
            &&& stored_under(
                o.feats.view(),
                n.feats.view(),
                slot_key(slot, level),
                FeatSelectionView {
                    name,
                    feat_type: slot_feat_type(slot),
                    level,
                    source_id: opt_str(doc.id),
                    source_context: slot_feat_context(slot, o),
                },
            )
        },
        _ => n == o,
    }
}

/// What follows filling a slot.
pub open spec fn follow_up(slot: BuildSlot) -> FollowUp {
    match slot {
        BuildSlot::Class => FollowUp::Rebuild,
        BuildSlot::Deity => FollowUp::DeityChosen,
        _ => FollowUp::Refresh,
    }
}

fn doc_name_string(doc: &Document) -> (r: String)
    ensures
        r@ == name_or_empty(*doc),
{
    match &doc.name {
        Some(n) => owned(n.as_str()),
        None => String::new(),
    }
}

/// Fill `slot` at `level` with the chosen document, clearing what depended on the
/// choice it replaces.
pub fn apply_selection_choices(c: &mut BuildChoices, slot: BuildSlot, level: u8, doc: &Document) -> (r: FollowUp)
    requires
        free_count(strs(doc.attribute@)) <= 255,
    ensures
        selected(*old(c), *final(c), slot, level, *doc),
        r == follow_up(slot),
{
    let name = doc_name_string(doc);
    match slot {
        BuildSlot::Ancestry => {
            // Cascade: clear heritage, ancestry feats, ancestry boosts
            if c.ancestry.is_some() {
                c.heritage = None;
                drop_feat_type(&mut c.feats, FeatType::Ancestry);
                c.ability_choices.remove("ancestry");
            }
            c.ancestry = Some(name);
            c.ancestry_data = Some(extract_ancestry_data(doc));
            FollowUp::Refresh
        },
        BuildSlot::Heritage => {
            c.heritage = Some(name);
            FollowUp::Refresh
        },
        BuildSlot::Background => {
            c.ability_choices.remove("background");
            drop_feat_key(&mut c.feats, "background_feat");
            c.background = Some(name);
            c.background_data = Some(extract_background_data(doc));
            FollowUp::Refresh
        },
        BuildSlot::Class => {
            if c.class.is_some() {
                drop_feat_type(&mut c.feats, FeatType::Class);
                c.ability_choices.remove("class");
                c.subclass = None;
            }
            c.class = Some(name);
            c.class_data = Some(extract_class_data(doc));
            FollowUp::Rebuild
        },
        BuildSlot::Subclass => {
            c.subclass = Some(name);
            FollowUp::Refresh
        },
        BuildSlot::Deity => {
            c.deity = Some(name);
            c.deity_data = Some(extract_deity_data(doc));
            c.chosen_domains = Vec::new();
            c.chosen_divine_font = None;
            FollowUp::DeityChosen
        },
        BuildSlot::AncestryFeat | BuildSlot::ClassFeat | BuildSlot::SkillFeat
        | BuildSlot::GeneralFeat => {
            let key = slot.key_at(level);
            let feat_type = match slot {
                BuildSlot::AncestryFeat => FeatType::Ancestry,
                BuildSlot::ClassFeat => FeatType::Class,
                BuildSlot::SkillFeat => FeatType::Skill,
                _ => FeatType::General,
            };
            let source_context = match slot {
                BuildSlot::AncestryFeat => clone_opt(&c.ancestry),
                BuildSlot::ClassFeat => clone_opt(&c.class),
                _ => None,
            };
            let sel = FeatSelection {
                name,
                feat_type,
                level,
                source_id: clone_opt(&doc.id),
                source_context,
            };
            c.feats.insert(key, sel);
            FollowUp::Refresh
        },
        _ => FollowUp::Refresh,
    }
}

// ---------------------------------------------------------------------------
// Prepared spells
// ---------------------------------------------------------------------------

/// The number of slots a spell table cell gives: the trimmed cell as a number, or 0.
pub open spec fn cell_count(cell: Seq<char>) -> nat {
    match parse_unsigned(trim(cell), usize::MAX as nat) {
        Some(n) => n,
        None => 0,
    }
}

/// Slots of a rank in a level's row of the spell table (0 past the row's end).
pub open spec fn slot_max(slots: Seq<Seq<char>>, rank: u8) -> nat {
    if rank < slots.len() {
        cell_count(slots[rank as int])
    } else {
        0
    }
}

/// Prepared spell lists cut to the slots of the row: ranks without slots dropped,
/// lists longer than their slots truncated.
pub open spec fn trim_entries(
    v: Seq<(u8, Seq<(Seq<char>, u8, Option<Seq<char>>)>)>,
    slots: Seq<Seq<char>>,
) -> Seq<(u8, Seq<(Seq<char>, u8, Option<Seq<char>>)>)>
    decreases v.len(),
{
    if v.len() == 0 {
        Seq::empty()
    } else {
        let e = v.last();
        let m = slot_max(slots, e.0);
        trim_entries(v.drop_last(), slots) + if m == 0 {
            Seq::empty()
        } else {
            seq![(e.0, if m < e.1.len() { e.1.take(m as int) } else { e.1 })]
        }
    }
}

/// The prepared spells of a build after trimming to its level's slots: unchanged
/// without class data, cleared when the table has no row for the level.
pub open spec fn trimmed_prepared(c: BuildChoices) -> Seq<(u8, Seq<(Seq<char>, u8, Option<Seq<char>>)>)> {
    match c.class_data {
        None => c.prepared_spells.view(),
        Some(d) => {
            let idx: int = if c.level == 0 { 0 } else { c.level - 1 };
            if idx < d.spell_slots@.len() {
                trim_entries(c.prepared_spells.view(), strs(d.spell_slots@[idx]@))
            } else {
                Seq::empty()
            }
        },
    }
}

fn copy_spell(s: &SpellSlotChoice) -> (r: SpellSlotChoice)
    ensures
        r.deep_view() == s.deep_view(),
{
    SpellSlotChoice { name: owned(s.name.as_str()), rank: s.rank, source_id: clone_opt(&s.source_id) }
}

fn copy_spells(v: &Vec<SpellSlotChoice>, n: usize) -> (r: Vec<SpellSlotChoice>)
    requires
        n <= v@.len(),
    ensures
        r.deep_view() == v.deep_view().take(n as int),
{
    let mut out: Vec<SpellSlotChoice> = Vec::new();
    let mut i: usize = 0;
    while i < n
        invariant
            n <= v@.len(),
            i <= n,
            out@.len() == i,
            forall|j: int| 0 <= j < i ==> (#[trigger] out@[j]).deep_view() == v@[j].deep_view(),
        decreases n - i,
    {
        let e = copy_spell(&v[i]);
        out.push(e);
        i = i + 1;
    }
    assert(out.deep_view() =~= v.deep_view().take(n as int));
    out
}

/// The slot count of a spell table cell.
pub fn cell_count_pub(cell: &String) -> (r: usize)
    ensures
        r == cell_count(cell@),
{
    cell_count_exec(cell)
}

fn cell_count_exec(cell: &String) -> (r: usize)
    ensures
        r == cell_count(cell@),
{
    let v = chars_of(cell.as_str());
    let (lo, hi) = trim_bounds(&v, 0, v.len());
    assert(v@.subrange(0, v@.len() as int) =~= cell@);
    match parse_unsigned_chars(&v, lo, hi, usize::MAX as u64) {
        Some(n) => n as usize,
        None => 0,
    }
}

/// Trim prepared spells to the slots available at the current level.
pub fn trim_prepared_spells(c: &mut BuildChoices)
    ensures
        *final(c) == (BuildChoices { prepared_spells: final(c).prepared_spells, ..*old(c) }),
        final(c).prepared_spells.view() == trimmed_prepared(*old(c)),
{
    let slots = match &c.class_data {
        Some(d) => {
            let idx: usize = if c.level == 0 { 0 } else { (c.level - 1) as usize };
            if idx < d.spell_slots.len() {
                &d.spell_slots[idx]
            } else {
                c.prepared_spells = LevelMap::new();
                return;
            }
        },
        None => {
            return;
        },
    };
    let ghost sv = strs(slots@);
    let ghost old_view = c.prepared_spells.view();
    let mut out: LevelMap<Vec<SpellSlotChoice>> = LevelMap::new();
    let n = c.prepared_spells.len();
    let mut i: usize = 0;
    assert(out.view() =~= trim_entries(old_view.take(0), sv));
    while i < n
        invariant
            n == old_view.len(),
            old_view == c.prepared_spells.view(),
            sv == strs(slots@),
            i <= n,
            out.view() == trim_entries(old_view.take(i as int), sv),
            forall|j: int| 0 <= j < out.view().len() ==> exists|k: int| 0 <= k < i && #[trigger] out.view()[j].0 == old_view[k].0,
            crate::build::maps::levels_sorted(old_view),
        decreases n - i,
    {
        let (rank, spells) = c.prepared_spells.entry(i);
        assert(old_view.take(i + 1).drop_last() =~= old_view.take(i as int));
        assert(old_view.take(i + 1).last() == old_view[i as int]);
        let max: usize = if (rank as usize) < slots.len() {
            cell_count_exec(&slots[rank as usize])
        } else {
            0
        };
        if max > 0 {
            let keep = if max < spells.len() { max } else { spells.len() };
            let copy = copy_spells(spells, keep);
            proof {
                assert(spells.deep_view().take(spells.deep_view().len() as int) =~= spells.deep_view());
                assert forall|j: int| 0 <= j < out.view().len() implies #[trigger] out.view()[j].0 < rank by {
                    let k = choose|k: int| 0 <= k < i && out.view()[j].0 == old_view[k].0;
                    assert(old_view[k].0 < old_view[i as int].0);
                }
            }
            let ghost before = out.view();
            out.push_last(rank, copy);
            proof {
                assert forall|j: int| 0 <= j < out.view().len() implies exists|k: int| 0 <= k < i + 1 && #[trigger] out.view()[j].0 == old_view[k].0 by {
                    if j < before.len() {
                        assert(out.view()[j] == before[j]);
                        let k = choose|k: int| 0 <= k < i && before[j].0 == old_view[k].0;
                        assert(out.view()[j].0 == old_view[k].0);
                    } else {
                        assert(out.view()[j].0 == old_view[i as int].0);
                    }
                }
            }
        }
        i = i + 1;
    }
    assert(old_view.take(n as int) =~= old_view);
    c.prepared_spells = out;
}


// ---------------------------------------------------------------------------
// Level changes
// ---------------------------------------------------------------------------

/// The level after a change by `delta`, kept between 1 and 20.
pub open spec fn clamped_level(level: u8, delta: i32) -> u8 {
    let x = level + delta;
    if x < 1 {
        1
    } else if x > 20 {
        20
    } else {
        x as u8
    }
}

/// An ability choice source kept at level `nl`: "level_N" sources when N is a
/// level at most `nl`; other sources always.
pub open spec fn source_kept(src: Seq<char>, nl: u8) -> bool {
    if has_prefix(src, "level_"@) {
        match parse_u8_spec(src.subrange(6, src.len() as int)) {
            Some(l) => l <= nl,
            None => false,
        }
    } else {
        true
    }
}

/// Marks keeping the entries keyed by a level at most `nl`.
pub open spec fn level_marks<V>(v: Seq<(u8, V)>, nl: u8) -> Seq<bool> {
    v.map_values(|e: (u8, V)| e.0 <= nl)
}

/// Marks keeping the feats taken at a level at most `nl`.
pub open spec fn feat_level_marks(v: Seq<(Seq<char>, FeatSelectionView)>, nl: u8) -> Seq<bool> {
    v.map_values(|e: (Seq<char>, FeatSelectionView)| e.1.level <= nl)
}

/// Marks keeping the ability choices whose source is kept at `nl`.
pub open spec fn source_marks<V>(v: Seq<(Seq<char>, V)>, nl: u8) -> Seq<bool> {
    v.map_values(|e: (Seq<char>, V)| source_kept(e.0, nl))
}

/// What changing the level by `delta` makes of the build `o`: nothing when the
/// clamped level is the same; else the new level, without the skill increases,
/// feats and level boosts above it, and with the prepared spells trimmed.
pub open spec fn level_changed(o: BuildChoices, n: BuildChoices, delta: i32) -> bool {
    let nl = clamped_level(o.level, delta);
    if nl == o.level {
        n == o
    } else {
        let mid = BuildChoices {
            level: nl,
            skill_increases: n.skill_increases,
            feats: n.feats,
            ability_choices: n.ability_choices,
            ..o
        };
        &&& n == BuildChoices { prepared_spells: n.prepared_spells, ..mid }
        &&& n.skill_increases.view() == kept(o.skill_increases.view(), level_marks(o.skill_increases.view(), nl))
        &&& n.feats.view() == kept(o.feats.view(), feat_level_marks(o.feats.view(), nl))
        &&& n.ability_choices.view() == kept(o.ability_choices.view(), source_marks(o.ability_choices.view(), nl))
        &&& n.prepared_spells.view() == trimmed_prepared(mid)
    }
}

proof fn lemma_kept_levels<V>(s: Seq<(u8, V)>, nl: u8)
    ensures
        forall|i: int| 0 <= i < kept(s, level_marks(s, nl)).len() ==> #[trigger] kept(s, level_marks(s, nl))[i].0 <= nl,
    decreases s.len(),
{
    if s.len() > 0 {
        let m = level_marks(s, nl);
        assert(m.drop_last() =~= level_marks(s.drop_last(), nl));
        assert(m.last() == (s.last().0 <= nl));
        lemma_kept_levels(s.drop_last(), nl);
        let front = kept(s.drop_last(), m.drop_last());
        assert(kept(s, m) == if m.last() { front.push(s.last()) } else { front });
    }
}

proof fn lemma_kept_feat_levels(s: Seq<(Seq<char>, FeatSelectionView)>, nl: u8)
    ensures
        forall|i: int| 0 <= i < kept(s, feat_level_marks(s, nl)).len() ==> #[trigger] kept(s, feat_level_marks(s, nl))[i].1.level <= nl,
    decreases s.len(),
{
    if s.len() > 0 {
        assert(feat_level_marks(s, nl).drop_last() =~= feat_level_marks(s.drop_last(), nl));
        lemma_kept_feat_levels(s.drop_last(), nl);
    }
}

/// No skill increase and no feat of the build lies above its level.
pub open spec fn within_level(c: BuildChoices) -> bool {
    &&& forall|i: int| 0 <= i < c.skill_increases.view().len() ==> #[trigger] c.skill_increases.view()[i].0 <= c.level
    &&& forall|i: int| 0 <= i < c.feats.view().len() ==> #[trigger] c.feats.view()[i].1.level <= c.level
}

/// Changing the level keeps it between 1 and 20 and leaves no skill increase or feat
/// above the new level.
pub proof fn law_level_change_trims(o: BuildChoices, n: BuildChoices, delta: i32)
    requires
        level_changed(o, n, delta),
        1 <= o.level <= 20,
        within_level(o),
    ensures
        n.level == clamped_level(o.level, delta),
        1 <= n.level <= 20,
        within_level(n),
{
    let nl = clamped_level(o.level, delta);
    if nl != o.level {
        lemma_kept_levels(o.skill_increases.view(), nl);
        lemma_kept_feat_levels(o.feats.view(), nl);
    }
}

fn source_kept_exec(src: &str, nl: u8) -> (r: bool)
    ensures
        r == source_kept(src@, nl),
{
    if starts_with(src, "level_") {
        proof {
            reveal_strlit("level_");
        }
        let v = chars_of(src);
        match parse_unsigned_chars(&v, 6, v.len(), 255) {
            Some(l) => l <= nl as u64,
            None => false,
        }
    } else {
        true
    }
}

/// Change the level by `delta` (kept between 1 and 20), dropping what lies above
/// the new level. Returns the new level when it changed.
pub fn level_change_choices(c: &mut BuildChoices, delta: i32) -> (r: Option<u8>)
    requires
        i32::MIN <= old(c).level + delta <= i32::MAX,
    ensures
        level_changed(*old(c), *final(c), delta),
        r == (if clamped_level(old(c).level, delta) == old(c).level {
            None
        } else {
            Some(clamped_level(old(c).level, delta))
        }),
{
    let x: i32 = c.level as i32 + delta;
    let new_level: u8 = if x < 1 {
        1
    } else if x > 20 {
        20
    } else {
        x as u8
    };
    if new_level == c.level {
        return None;
    }
    c.level = new_level;
    // Trim choices above the new level
    let ghost si = c.skill_increases.view();
    let n = c.skill_increases.len();
    let mut marks: Vec<bool> = Vec::new();
    let mut i: usize = 0;
    while i < n
        invariant
            n == si.len(),
            si == c.skill_increases.view(),
            i <= n,
            marks@ == level_marks(si, new_level).take(i as int),
        decreases n - i,
    {
        let (lvl, _s) = c.skill_increases.entry(i);
        marks.push(lvl <= new_level);
        i = i + 1;
        assert(marks@ =~= level_marks(si, new_level).take(i as int));
    }
    assert(marks@ =~= level_marks(si, new_level));
    c.skill_increases.retain_marked(&marks);

    let ghost fv = c.feats.view();
    let n = c.feats.len();
    let mut marks: Vec<bool> = Vec::new();
    let mut i: usize = 0;
    while i < n
        invariant
            n == fv.len(),
            fv == c.feats.view(),
            i <= n,
            marks@ == feat_level_marks(fv, new_level).take(i as int),
        decreases n - i,
    {
        let (_k, sel) = c.feats.entry(i);
        marks.push(sel.level <= new_level);
        i = i + 1;
        assert(marks@ =~= feat_level_marks(fv, new_level).take(i as int));
    }
    assert(marks@ =~= feat_level_marks(fv, new_level));
    c.feats.retain_marked(&marks);

    let ghost av = c.ability_choices.view();
    let n = c.ability_choices.len();
    let mut marks: Vec<bool> = Vec::new();
    let mut i: usize = 0;
    while i < n
        invariant
            n == av.len(),
            av == c.ability_choices.view(),
            i <= n,
            marks@ == source_marks(av, new_level).take(i as int),
        decreases n - i,
    {
        let (k, _set) = c.ability_choices.entry(i);
        marks.push(source_kept_exec(k, new_level));
        i = i + 1;
        assert(marks@ =~= source_marks(av, new_level).take(i as int));
    }
    assert(marks@ =~= source_marks(av, new_level));
    c.ability_choices.retain_marked(&marks);
    // Trim prepared spells to match available slots at the new level
    trim_prepared_spells(c);
    Some(new_level)
}

// ---------------------------------------------------------------------------
// Spell picks
// ---------------------------------------------------------------------------

/// The rank that marks a focus spell pick.
pub const FOCUS_PICK: u8 = 255;

/// What picking a spell makes of the build: a focus spell (rank 0) for the focus
/// pick, else the spell appended to the list of its rank.
pub open spec fn spell_picked(o: BuildChoices, n: BuildChoices, name: Seq<char>, id: Option<Seq<char>>, rank: u8) -> bool {
    if rank == FOCUS_PICK {
        &&& n == BuildChoices { focus_spells: n.focus_spells, ..o }
        &&& n.focus_spells.deep_view() == o.focus_spells.deep_view().push((name, 0u8, id))
    } else {
        &&& n == BuildChoices { prepared_spells: n.prepared_spells, ..o }
        &&& stored_at(
            o.prepared_spells.view(),
            n.prepared_spells.view(),
            rank,
            match level_lookup(o.prepared_spells.view(), rank) {
                Some(v) => v,
                None => Seq::empty(),
            }.push((name, rank, id)),
        )
    }
}

/// Record a spell picked for `rank` (or a focus spell for `FOCUS_PICK`).
pub fn apply_spell_selection(c: &mut BuildChoices, name: &str, id: &Option<String>, rank: u8)
    ensures
        spell_picked(*old(c), *final(c), name@, opt_str(*id), rank),
{
    let choice = SpellSlotChoice {
        name: owned(name),
        rank: if rank == FOCUS_PICK { 0 } else { rank },
        source_id: clone_opt(id),
    };
    if rank == FOCUS_PICK {
        let ghost prev = c.focus_spells@;
        c.focus_spells.push(choice);
        assert(c.focus_spells.deep_view() =~= old(c).focus_spells.deep_view().push((name@, 0u8, opt_str(*id))));
        return;
    }
    let mut list = match c.prepared_spells.get(rank) {
        Some(v) => copy_spells(v, v.len()),
        None => {
            let e: Vec<SpellSlotChoice> = Vec::new();
            assert(e.deep_view() =~= Seq::<(Seq<char>, u8, Option<Seq<char>>)>::empty());
            e
        },
    };
    proof {
        if let Some(v) = level_lookup(old(c).prepared_spells.view(), rank) {
            assert(v.take(v.len() as int) =~= v);
        }
    }
    let ghost before = list.deep_view();
    assert(before == match level_lookup(old(c).prepared_spells.view(), rank) {
        Some(v) => v,
        None => Seq::empty(),
    });
    list.push(choice);
    assert(list.deep_view() =~= before.push((name@, rank, opt_str(*id))));
    c.prepared_spells.insert(rank, list);
}

/// What removing a prepared spell makes of the build: the `slot`-th spell of `rank`
/// removed when there is one.
pub open spec fn prepared_removed(o: BuildChoices, n: BuildChoices, rank: u8, slot: usize) -> bool {
    match level_index(o.prepared_spells.view(), rank) {
        Some(i) => if slot < o.prepared_spells.view()[i].1.len() {
            &&& n == BuildChoices { prepared_spells: n.prepared_spells, ..o }
            &&& n.prepared_spells.view() == o.prepared_spells.view().update(
                i,
                (rank, o.prepared_spells.view()[i].1.remove(slot as int)),
            )
        } else {
            n == o
        },
        None => n == o,
    }
}

/// Remove the `slot`-th prepared spell of `rank`, if there is one; says whether one was.
pub fn remove_prepared_spell(c: &mut BuildChoices, rank: u8, slot: usize) -> (r: bool)
    ensures
        prepared_removed(*old(c), *final(c), rank, slot),
        r == (match level_index(old(c).prepared_spells.view(), rank) {
            Some(i) => slot < old(c).prepared_spells.view()[i].1.len(),
            None => false,
        }),
{
    let i = match c.prepared_spells.index_of(rank) {
        Some(i) => i,
        None => return false,
    };
    let (_k, spells) = c.prepared_spells.entry(i);
    if slot >= spells.len() {
        return false;
    }
    let mut list = copy_spells(spells, spells.len());
    assert(spells.deep_view().take(spells.deep_view().len() as int) =~= spells.deep_view());
    let ghost before = list.deep_view();
    list.remove(slot);
    assert(list.deep_view() =~= before.remove(slot as int));
    c.prepared_spells.insert(rank, list);
    true
}

/// Remove the `idx`-th focus spell, if there is one; says whether one was.
pub fn remove_focus_spell(c: &mut BuildChoices, idx: usize) -> (r: bool)
    ensures
        r == (idx < old(c).focus_spells@.len()),
        r ==> *final(c) == (BuildChoices { focus_spells: final(c).focus_spells, ..*old(c) })
            && final(c).focus_spells@ == old(c).focus_spells@.remove(idx as int),
        !r ==> *final(c) == *old(c),
{
    if idx < c.focus_spells.len() {
        c.focus_spells.remove(idx);
        true
    } else {
        false
    }
}


// ---------------------------------------------------------------------------
// Equipment
// ---------------------------------------------------------------------------

/// Rows of the equipment list: the weapons then "Add Weapon", the armor then "Add
/// Armor", the shield if any then "Add Shield", the items then "Add Item".
pub open spec fn equipment_rows(eq: Equipment) -> nat {
    eq.weapons@.len() + 1 + eq.armor@.len() + 1 + (if eq.shield is Some { 1nat } else { 0nat }) + 1
        + eq.items@.len() + 1
}

/// The equipment rows fit a `usize`.
pub open spec fn rows_fit(eq: Equipment) -> bool {
    equipment_rows(eq) <= usize::MAX
}

/// Total number of selectable rows of the equipment list.
pub fn equipment_row_count(eq: &Equipment) -> (r: usize)
    requires
        rows_fit(*eq),
    ensures
        r == equipment_rows(*eq),
{
    let weapons = eq.weapons.len() + 1;
    let armor = eq.armor.len() + 1;
    let shield: usize = (if eq.shield.is_some() { 1 } else { 0 }) + 1;
    let items = eq.items.len() + 1;
    weapons + armor + shield + items
}

/// Section (0 weapons, 1 armor, 2 shield, 3 items), index within it, and whether the
/// row is the section's "Add" row, for a row of the equipment list.
pub open spec fn cursor_info(eq: Equipment, pos: int) -> (u8, int, bool) {
    let wc = eq.weapons@.len() as int;
    let ac = eq.armor@.len() as int;
    let sc: int = if eq.shield is Some { 1 } else { 0 };
    let ic = eq.items@.len() as int;
    if pos < wc {
        (0, pos, false)
    } else if pos == wc {
        (0, 0, true)
    } else if pos - (wc + 1) < ac {
        (1, pos - (wc + 1), false)
    } else if pos - (wc + 1) == ac {
        (1, 0, true)
    } else if pos - (wc + 1) - (ac + 1) < sc {
        (2, 0, false)
    } else if pos - (wc + 1) - (ac + 1) == sc {
        (2, 0, true)
    } else if pos - (wc + 1) - (ac + 1) - (sc + 1) < ic {
        (3, pos - (wc + 1) - (ac + 1) - (sc + 1), false)
    } else {
        (3, 0, true)
    }
}

/// Map an equipment cursor to its section, index and "Add" flag.
pub fn equipment_cursor_info(eq: &Equipment, cursor: usize) -> (r: (u8, usize, bool))
    ensures
        (r.0, r.1 as int, r.2) == cursor_info(*eq, cursor as int),
{
    let mut pos = cursor;
    // Weapons section
    let wc = eq.weapons.len();
    if pos < wc {
        return (0, pos, false);
    }
    if pos == wc {
        return (0, 0, true);
    }
    pos = pos - (wc + 1);
    // Armor section
    let ac = eq.armor.len();
    if pos < ac {
        return (1, pos, false);
    }
    if pos == ac {
        return (1, 0, true);
    }
    pos = pos - (ac + 1);
    // Shield section
    let sc: usize = if eq.shield.is_some() { 1 } else { 0 };
    if pos < sc {
        return (2, 0, false);
    }
    if pos == sc {
        return (2, 0, true);
    }
    pos = pos - (sc + 1);
    // Items section
    let ic = eq.items.len();
    if pos < ic {
        return (3, pos, false);
    }
    (3, 0, true)
}

/// Where runes are applied.
#[derive(Debug, Clone, Copy, PartialEq, Eq, Structural)]
pub enum RuneSlot {
    Weapon(usize),
    Armor(usize),
    Shield,
}

/// What setting runes makes of the equipment: the target's potency with its striking
/// (weapons) or resilient (armor, shields) rune; nothing when the target is missing.
pub open spec fn runes_applied(o: Equipment, n: Equipment, target: RuneSlot, potency: u8, striking: StrikingRune, resilient: ResilientRune) -> bool {
    match target {
        RuneSlot::Weapon(i) => if i < o.weapons@.len() {
            &&& n == Equipment { weapons: n.weapons, ..o }
            &&& n.weapons@ == o.weapons@.update(i as int, Weapon { potency, striking, ..o.weapons@[i as int] })
        } else {
            n == o
        },
        RuneSlot::Armor(i) => if i < o.armor@.len() {
            &&& n == Equipment { armor: n.armor, ..o }
            &&& n.armor@ == o.armor@.update(i as int, Armor { potency, resilient, ..o.armor@[i as int] })
        } else {
            n == o
        },
        RuneSlot::Shield => match o.shield {
            Some(s) => n == Equipment { shield: Some(Shield { potency, resilient, ..s }), ..o },
            None => n == o,
        },
    }
}

/// Set the runes of a weapon, armor or the shield.
pub fn apply_runes(eq: &mut Equipment, target: RuneSlot, potency: u8, striking: StrikingRune, resilient: ResilientRune)
    ensures
        runes_applied(*old(eq), *final(eq), target, potency, striking, resilient),
{
    match target {
        RuneSlot::Weapon(i) => {
            if i < eq.weapons.len() {
                let mut w = eq.weapons.remove(i);
                w.potency = potency;
                w.striking = striking;
                eq.weapons.insert(i, w);
                assert(eq.weapons@ =~= old(eq).weapons@.update(i as int, Weapon { potency, striking, ..old(eq).weapons@[i as int] }));
            }
        },
        RuneSlot::Armor(i) => {
            if i < eq.armor.len() {
                let mut a = eq.armor.remove(i);
                a.potency = potency;
                a.resilient = resilient;
                eq.armor.insert(i, a);
                assert(eq.armor@ =~= old(eq).armor@.update(i as int, Armor { potency, resilient, ..old(eq).armor@[i as int] }));
            }
        },
        RuneSlot::Shield => {
            match eq.shield.take() {
                Some(mut s) => {
                    s.potency = potency;
                    s.resilient = resilient;
                    eq.shield = Some(s);
                },
                None => {},
            }
        },
    }
}

/// What adding a document's item makes of the equipment: a weapon, armor (taking
/// off the armor worn so far), the shield, or a plain item of that name.
pub open spec fn item_added(o: Equipment, n: Equipment, doc: Document) -> bool {
    let cat = match opt_str(doc.category) {
        Some(c) => c,
        None => Seq::empty(),
    };
    if cat == "weapon"@ {
        &&& n == Equipment { weapons: n.weapons, ..o }
        &&& n.weapons@.len() == o.weapons@.len() + 1
        &&& n.weapons@.drop_last() == o.weapons@
        &&& weapon_of(n.weapons@.last(), doc)
    } else if cat == "armor"@ {
        &&& n == Equipment { armor: n.armor, ..o }
        &&& n.armor@.len() == o.armor@.len() + 1
        &&& n.armor@.drop_last() == o.armor@.map_values(|a: Armor| Armor { worn: false, ..a })
        &&& armor_of(n.armor@.last(), doc)
    } else if cat == "shield"@ {
        &&& n == Equipment { shield: n.shield, ..o }
        &&& n.shield matches Some(s) && shield_of(s, doc)
    } else {
        &&& n == Equipment { items: n.items, ..o }
        &&& n.items@.len() == o.items@.len() + 1
        &&& n.items@.drop_last() == o.items@
        &&& n.items@.last().name@ == name_or_empty(doc)
        &&& n.items@.last().quantity == 1
        &&& !n.items@.last().invested
        &&& !n.items@.last().worn
    }
}

/// Add the item a document describes, by its category.
pub fn add_equipment(eq: &mut Equipment, doc: &Document)
    ensures
        item_added(*old(eq), *final(eq), *doc),
{
    let name = doc_name_string(doc);
    let category: &str = match &doc.category {
        Some(c) => c.as_str(),
        None => {
            proof {
                reveal_strlit("");
            }
            ""
        },
    };
    assert(category@ == (match opt_str(doc.category) {
        Some(c) => c,
        None => Seq::<char>::empty(),
    }));
    if crate::text::str_eq(category, "weapon") {
        let w = extract_weapon(doc);
        eq.weapons.push(w);
        assert(eq.weapons@.drop_last() =~= old(eq).weapons@);
    } else if crate::text::str_eq(category, "armor") {
        let n = eq.armor.len();
        let mut i: usize = 0;
        while i < n
            invariant
                n == old(eq).armor@.len(),
                eq.armor@.len() == n,
                i <= n,
                *eq == (Equipment { armor: eq.armor, ..*old(eq) }),
                forall|j: int| 0 <= j < i ==> #[trigger] eq.armor@[j] == (Armor { worn: false, ..old(eq).armor@[j] }),
                forall|j: int| i <= j < n ==> #[trigger] eq.armor@[j] == old(eq).armor@[j],
            decreases n - i,
        {
            let mut a = eq.armor.remove(i);
            a.worn = false;
            eq.armor.insert(i, a);
            i = i + 1;
        }
        let a = extract_armor(doc);
        eq.armor.push(a);
        assert(eq.armor@.drop_last() =~= old(eq).armor@.map_values(|a: Armor| Armor { worn: false, ..a }));
    } else if crate::text::str_eq(category, "shield") {
        eq.shield = Some(extract_shield(doc));
    } else {
        eq.items.push(Item { name, quantity: 1, invested: false, worn: false });
        assert(eq.items@.drop_last() =~= old(eq).items@);
    }
}

/// What deleting an equipment row makes of the equipment: the weapon, armor, shield
/// or item at that row removed (nothing for an "Add" row or a missing index).
pub open spec fn row_deleted(o: Equipment, n: Equipment, section: u8, idx: usize, is_add: bool) -> bool {
    if is_add {
        n == o
    } else if section == 0 {
        if idx < o.weapons@.len() {
            n == Equipment { weapons: n.weapons, ..o } && n.weapons@ == o.weapons@.remove(idx as int)
        } else {
            n == o
        }
    } else if section == 1 {
        if idx < o.armor@.len() {
            n == Equipment { armor: n.armor, ..o } && n.armor@ == o.armor@.remove(idx as int)
        } else {
            n == o
        }
    } else if section == 2 {
        n == Equipment { shield: None, ..o }
    } else if section == 3 {
        if idx < o.items@.len() {
            n == Equipment { items: n.items, ..o } && n.items@ == o.items@.remove(idx as int)
        } else {
            n == o
        }
    } else {
        n == o
    }
}

/// Delete the equipment at a row of the equipment list.
pub fn delete_equipment(eq: &mut Equipment, section: u8, idx: usize, is_add: bool)
    ensures
        row_deleted(*old(eq), *final(eq), section, idx, is_add),
{
    if is_add {
        return;
    }
    if section == 0 {
        if idx < eq.weapons.len() {
            eq.weapons.remove(idx);
        }
    } else if section == 1 {
        if idx < eq.armor.len() {
            eq.armor.remove(idx);
        }
    } else if section == 2 {
        eq.shield = None;
    } else if section == 3 {
        if idx < eq.items.len() {
            eq.items.remove(idx);
        }
    }
}

/// Raise or lower the shield; says whether there is one.
pub fn toggle_shield(eq: &mut Equipment) -> (r: bool)
    ensures
        r == old(eq).shield is Some,
        match old(eq).shield {
            Some(s) => *final(eq) == (Equipment { shield: Some(Shield { raised: !s.raised, ..s }), ..*old(eq) }),
            None => *final(eq) == *old(eq),
        },
{
    match eq.shield.take() {
        Some(mut s) => {
            s.raised = !s.raised;
            eq.shield = Some(s);
            true
        },
        None => false,
    }
}

} // verus!
