//! Apply proficiency advances by level.
//!
//! Uses a static table for core PF2e classes. Unknown classes
//! get no advances.
use vstd::prelude::*;
use crate::build::mechanics::proficiency::{ProficiencyAdvance, advances_view};
use crate::model::character::{Character, CharacterView};
use crate::model::proficiencies::{Proficiencies, ProficienciesView, Rank, rank_max, train_spec};
use crate::text::{all_ascii, ascii_lower, lowercase, owned, str_eq, to_lowercase};

verus! {

/// What an advance target names.
#[derive(Debug, Clone, Copy, PartialEq, Eq, Structural)]
pub enum TargetKind {
    Perception,
    Fortitude,
    Reflex,
    Will,
    Unarmored,
    LightArmor,
    MediumArmor,
    HeavyArmor,
    SimpleWeapons,
    MartialWeapons,
    Unarmed,
    AllSaves,
    AllArmor,
    AllWeapons,
    Skill,
}

/// Classify a lower-cased advance target.
pub open spec fn target_kind(lower: Seq<char>) -> TargetKind {
    if lower == "perception"@ {
        TargetKind::Perception
    } else if lower == "fortitude"@ || lower == "fortitude saves"@ {
        TargetKind::Fortitude
    } else if lower == "reflex"@ || lower == "reflex saves"@ {
        TargetKind::Reflex
    } else if lower == "will"@ || lower == "will saves"@ {
        TargetKind::Will
    } else if lower == "unarmored"@ || lower == "unarmored defense"@ {
        TargetKind::Unarmored
    } else if lower == "light armor"@ {
        TargetKind::LightArmor
    } else if lower == "medium armor"@ {
        TargetKind::MediumArmor
    } else if lower == "heavy armor"@ {
        TargetKind::HeavyArmor
    } else if lower == "simple weapons"@ {
        TargetKind::SimpleWeapons
    } else if lower == "martial weapons"@ {
        TargetKind::MartialWeapons
    } else if lower == "unarmed"@ || lower == "unarmed attacks"@ {
        TargetKind::Unarmed
    } else if lower == "all saves"@ {
        TargetKind::AllSaves
    } else if lower == "all armor"@ || lower == "light armor and medium armor and unarmored defense"@ {
        TargetKind::AllArmor
    } else if lower == "all weapons"@ || lower == "simple weapons and martial weapons and unarmed attacks"@ {
        TargetKind::AllWeapons
    } else {
        TargetKind::Skill
    }
}

/// The effect of one advance of the given kind on proficiencies.
pub open spec fn apply_kind(p: ProficienciesView, kind: TargetKind, target: Seq<char>, rank: Rank) -> ProficienciesView {
    match kind {
        TargetKind::Perception => ProficienciesView { perception: rank_max(p.perception, rank), ..p },
        TargetKind::Fortitude => ProficienciesView { fortitude: rank_max(p.fortitude, rank), ..p },
        TargetKind::Reflex => ProficienciesView { reflex: rank_max(p.reflex, rank), ..p },
        TargetKind::Will => ProficienciesView { will: rank_max(p.will, rank), ..p },
        TargetKind::Unarmored => ProficienciesView { unarmored: rank_max(p.unarmored, rank), ..p },
        TargetKind::LightArmor => ProficienciesView { light_armor: rank_max(p.light_armor, rank), ..p },
        TargetKind::MediumArmor => ProficienciesView { medium_armor: rank_max(p.medium_armor, rank), ..p },
        TargetKind::HeavyArmor => ProficienciesView { heavy_armor: rank_max(p.heavy_armor, rank), ..p },
        TargetKind::SimpleWeapons => ProficienciesView { simple_weapons: rank_max(p.simple_weapons, rank), ..p },
        TargetKind::MartialWeapons => ProficienciesView { martial_weapons: rank_max(p.martial_weapons, rank), ..p },
        TargetKind::Unarmed => ProficienciesView { unarmed: rank_max(p.unarmed, rank), ..p },
        TargetKind::AllSaves => ProficienciesView {
            fortitude: rank_max(p.fortitude, rank),
            reflex: rank_max(p.reflex, rank),
            will: rank_max(p.will, rank),
            ..p
        },
        TargetKind::AllArmor => ProficienciesView {
            unarmored: rank_max(p.unarmored, rank),
            light_armor: rank_max(p.light_armor, rank),
            medium_armor: rank_max(p.medium_armor, rank),
            ..p
        },
        TargetKind::AllWeapons => ProficienciesView {
            simple_weapons: rank_max(p.simple_weapons, rank),
            martial_weapons: rank_max(p.martial_weapons, rank),
            unarmed: rank_max(p.unarmed, rank),
            ..p
        },
        TargetKind::Skill => ProficienciesView { skills: train_spec(p.skills, target, rank), ..p },
    }
}

/// The effect of one advance on proficiencies; `lower` is the lower-cased target.
pub open spec fn apply_target(p: ProficienciesView, lower: Seq<char>, target: Seq<char>, rank: Rank) -> ProficienciesView {
    apply_kind(p, target_kind(lower), target, rank)
}

/// The advances of `advs` at or below `level`, applied in order.
pub open spec fn advance_all(p: ProficienciesView, advs: Seq<(u8, Seq<char>, Rank)>, level: u8) -> ProficienciesView
    decreases advs.len(),
{
    if advs.len() == 0 {
        p
    } else {
        let q = advance_all(p, advs.drop_last(), level);
        let a = advs.last();
        if a.0 > level {
            q
        } else {
            apply_target(q, lowercase(a.1), a.1, a.2)
        }
    }
}

/// An advance whose target is "all saves" (in any ASCII case) raises each of
/// Fortitude, Reflex and Will to the higher of its old rank and the advance's rank,
/// and changes nothing else.
pub proof fn law_all_saves_advance(p: ProficienciesView, target: Seq<char>, rank: Rank)
    requires
        all_ascii(target),
        ascii_lower(target) == "all saves"@,
    ensures
        ({
            let q = apply_target(p, ascii_lower(target), target, rank);
            &&& q.fortitude == rank_max(p.fortitude, rank)
            &&& q.reflex == rank_max(p.reflex, rank)
            &&& q.will == rank_max(p.will, rank)
            &&& q == (ProficienciesView { fortitude: q.fortitude, reflex: q.reflex, will: q.will, ..p })
        }),
{
    reveal_strlit("all saves");
    reveal_strlit("perception");
    reveal_strlit("fortitude");
    reveal_strlit("fortitude saves");
    reveal_strlit("reflex");
    reveal_strlit("reflex saves");
    reveal_strlit("will");
    reveal_strlit("will saves");
    reveal_strlit("unarmored");
    reveal_strlit("unarmored defense");
    reveal_strlit("light armor");
    reveal_strlit("medium armor");
    reveal_strlit("heavy armor");
    reveal_strlit("simple weapons");
    reveal_strlit("martial weapons");
    reveal_strlit("unarmed");
    reveal_strlit("unarmed attacks");
    let l = "all saves"@;
    assert(l[0] != "perception"@[0]);
    assert(l[0] != "fortitude"@[0]);
    assert(l.len() != "fortitude saves"@.len());
    assert(l[0] != "reflex"@[0]);
    assert(l.len() != "reflex saves"@.len());
    assert(l[0] != "will"@[0]);
    assert(l[0] != "will saves"@[0]);
    assert(l[0] != "unarmored"@[0]);
    assert(l.len() != "unarmored defense"@.len());
    assert(l[0] != "light armor"@[0]);
    assert(l[0] != "medium armor"@[0]);
    assert(l[0] != "heavy armor"@[0]);
    assert(l[0] != "simple weapons"@[0]);
    assert(l[0] != "martial weapons"@[0]);
    assert(l[0] != "unarmed"@[0]);
    assert(l[0] != "unarmed attacks"@[0]);
    assert(target_kind(l) == TargetKind::AllSaves);
}

/// Raise `current` to `target` if `target` is higher.
fn upgrade(current: &mut Rank, target: Rank)
    ensures
        *final(current) == rank_max(*old(current), target),
{
    if target.above(*current) {
        *current = target;
    }
}

/// Classify a lower-cased advance target.
pub fn classify_target(lower: &str) -> (r: TargetKind)
    ensures
        r == target_kind(lower@),
{
    if str_eq(lower, "perception") {
        TargetKind::Perception
    } else if str_eq(lower, "fortitude") || str_eq(lower, "fortitude saves") {
        TargetKind::Fortitude
    } else if str_eq(lower, "reflex") || str_eq(lower, "reflex saves") {
        TargetKind::Reflex
    } else if str_eq(lower, "will") || str_eq(lower, "will saves") {
        TargetKind::Will
    } else if str_eq(lower, "unarmored") || str_eq(lower, "unarmored defense") {
        TargetKind::Unarmored
    } else if str_eq(lower, "light armor") {
        TargetKind::LightArmor
    } else if str_eq(lower, "medium armor") {
        TargetKind::MediumArmor
    } else if str_eq(lower, "heavy armor") {
        TargetKind::HeavyArmor
    } else if str_eq(lower, "simple weapons") {
        TargetKind::SimpleWeapons
    } else if str_eq(lower, "martial weapons") {
        TargetKind::MartialWeapons
    } else if str_eq(lower, "unarmed") || str_eq(lower, "unarmed attacks") {
        TargetKind::Unarmed
    } else if str_eq(lower, "all saves") {
        TargetKind::AllSaves
    } else if str_eq(lower, "all armor") || str_eq(lower, "light armor and medium armor and unarmored defense") {
        TargetKind::AllArmor
    } else if str_eq(lower, "all weapons") || str_eq(lower, "simple weapons and martial weapons and unarmed attacks") {
        TargetKind::AllWeapons
    } else {
        TargetKind::Skill
    }
}

/// Apply one advance of the given kind to proficiencies.
#[verifier::rlimit(60)]
pub fn apply_kind_exec(p: &mut Proficiencies, kind: TargetKind, target: &str, rank: Rank)
    ensures
        final(p)@ == apply_kind(old(p)@, kind, target@, rank),
{
    match kind {
        TargetKind::Perception => upgrade(&mut p.perception, rank),
        TargetKind::Fortitude => upgrade(&mut p.fortitude, rank),
        TargetKind::Reflex => upgrade(&mut p.reflex, rank),
        TargetKind::Will => upgrade(&mut p.will, rank),
        TargetKind::Unarmored => upgrade(&mut p.unarmored, rank),
        TargetKind::LightArmor => upgrade(&mut p.light_armor, rank),
        TargetKind::MediumArmor => upgrade(&mut p.medium_armor, rank),
        TargetKind::HeavyArmor => upgrade(&mut p.heavy_armor, rank),
        TargetKind::SimpleWeapons => upgrade(&mut p.simple_weapons, rank),
        TargetKind::MartialWeapons => upgrade(&mut p.martial_weapons, rank),
        TargetKind::Unarmed => upgrade(&mut p.unarmed, rank),
        TargetKind::AllSaves => {
            upgrade(&mut p.fortitude, rank);
            upgrade(&mut p.reflex, rank);
            upgrade(&mut p.will, rank);
        },
        TargetKind::AllArmor => {
            upgrade(&mut p.unarmored, rank);
            upgrade(&mut p.light_armor, rank);
            upgrade(&mut p.medium_armor, rank);
        },
        TargetKind::AllWeapons => {
            upgrade(&mut p.simple_weapons, rank);
            upgrade(&mut p.martial_weapons, rank);
            upgrade(&mut p.unarmed, rank);
        },
        TargetKind::Skill => {
            // Try as a skill
            p.train_skill(target, rank);
        },
    }
}

/// Apply one advance to a character's proficiencies (matching the target case-insensitively).
pub fn apply_one(ch: &mut Character, target: &str, rank: Rank)
    ensures
        final(ch)@ == (CharacterView {
            proficiencies: apply_target(old(ch)@.proficiencies, lowercase(target@), target@, rank),
            ..old(ch)@
        }),
{
    let lower = to_lowercase(target);
    let kind = classify_target(lower.as_str());
    apply_kind_exec(&mut ch.proficiencies, kind, target, rank);
}

/// Apply the advances at or below `level`, in order, to proficiencies.
pub fn advance_proficiencies(p: &mut Proficiencies, advances: &Vec<ProficiencyAdvance>, level: u8)
    ensures
        final(p)@ == advance_all(old(p)@, advances_view(advances@), level),
{
    let ghost advs = advances_view(advances@);
    let ghost p0 = p@;
    let mut i: usize = 0;
    while i < advances.len()
        invariant
            i <= advances.len(),
            advs == advances_view(advances@),
            p@ == advance_all(p0, advs.take(i as int), level),
        decreases advances.len() - i,
    {
        assert(advs.take(i + 1).drop_last() =~= advs.take(i as int));
        let a = &advances[i];
        if a.level <= level {
            let lower = to_lowercase(a.target.as_str());
            let kind = classify_target(lower.as_str());
            apply_kind_exec(p, kind, a.target.as_str(), a.rank);
        }
        i = i + 1;
    }
    assert(advs.take(i as int) =~= advs);
}

/// Apply all proficiency advances up to the character's level.
pub fn apply_proficiency_advances(ch: &mut Character, advances: &Vec<ProficiencyAdvance>)
    ensures
        final(ch)@ == (CharacterView {
            proficiencies: advance_all(old(ch)@.proficiencies, advances_view(advances@), old(ch).level),
            ..old(ch)@
        }),
{
    let level = ch.level;
    advance_proficiencies(&mut ch.proficiencies, advances, level);
}

// Helper to reduce boilerplate
fn adv(level: u8, target: &str, rank: Rank) -> (r: ProficiencyAdvance)
    ensures
        r@ == (level, target@, rank),
{
    ProficiencyAdvance { level, target: owned(target), rank }
}

/// The static advance table of the class named (lower-cased) `lower`; empty for unknown classes.
pub open spec fn class_table(lower: Seq<char>) -> Seq<(u8, Seq<char>, Rank)> {
    if lower == "fighter"@ {
        fighter_table()
    } else if lower == "rogue"@ {
        rogue_table()
    } else if lower == "wizard"@ {
        wizard_table()
    } else if lower == "cleric"@ {
        cleric_table()
    } else if lower == "ranger"@ {
        ranger_table()
    } else if lower == "barbarian"@ {
        barbarian_table()
    } else if lower == "bard"@ {
        bard_table()
    } else if lower == "champion"@ {
        champion_table()
    } else if lower == "druid"@ {
        druid_table()
    } else if lower == "monk"@ {
        monk_table()
    } else if lower == "sorcerer"@ {
        sorcerer_table()
    } else if lower == "witch"@ {
        witch_table()
    } else if lower == "oracle"@ {
        oracle_table()
    } else if lower == "investigator"@ {
        investigator_table()
    } else if lower == "swashbuckler"@ {
        swashbuckler_table()
    } else if lower == "magus"@ {
        magus_table()
    } else if lower == "summoner"@ {
        summoner_table()
    } else if lower == "psychic"@ {
        psychic_table()
    } else if lower == "thaumaturge"@ {
        thaumaturge_table()
    } else if lower == "kineticist"@ {
        kineticist_table()
    } else if lower == "gunslinger"@ {
        gunslinger_table()
    } else if lower == "inventor"@ {
        inventor_table()
    } else {
        Seq::empty()
    }
}

/// Get the static proficiency advance table for a known class.
/// Returns an empty vec for unknown classes.
pub fn class_proficiency_advances(class_name: &str) -> (r: Vec<ProficiencyAdvance>)
    ensures
        advances_view(r@) == class_table(lowercase(class_name@)),
        all_ascii(class_name@) ==> advances_view(r@) == class_table(ascii_lower(class_name@)),
{
    let lower = to_lowercase(class_name);
    class_advances_lower(lower.as_str())
}

/// The static advance table for an already lower-cased class name.
pub fn class_advances_lower(l: &str) -> (r: Vec<ProficiencyAdvance>)
    ensures
        advances_view(r@) == class_table(l@),
{
    let r = if str_eq(l, "fighter") {
            fighter_advances()
        } else if str_eq(l, "rogue") {
            rogue_advances()
        } else if str_eq(l, "wizard") {
            wizard_advances()
        } else if str_eq(l, "cleric") {
            cleric_advances()
        } else if str_eq(l, "ranger") {
            ranger_advances()
        } else if str_eq(l, "barbarian") {
            barbarian_advances()
        } else if str_eq(l, "bard") {
            bard_advances()
        } else if str_eq(l, "champion") {
            champion_advances()
        } else if str_eq(l, "druid") {
            druid_advances()
        } else if str_eq(l, "monk") {
            monk_advances()
        } else if str_eq(l, "sorcerer") {
            sorcerer_advances()
        } else if str_eq(l, "witch") {
            witch_advances()
        } else if str_eq(l, "oracle") {
            oracle_advances()
        } else if str_eq(l, "investigator") {
            investigator_advances()
        } else if str_eq(l, "swashbuckler") {
            swashbuckler_advances()
        } else if str_eq(l, "magus") {
            magus_advances()
        } else if str_eq(l, "summoner") {
            summoner_advances()
        } else if str_eq(l, "psychic") {
            psychic_advances()
        } else if str_eq(l, "thaumaturge") {
            thaumaturge_advances()
        } else if str_eq(l, "kineticist") {
            kineticist_advances()
        } else if str_eq(l, "gunslinger") {
            gunslinger_advances()
        } else if str_eq(l, "inventor") {
            inventor_advances()
        } else {
            Vec::new()
        };
    proof {
        if advances_view(r@).len() == 0 {
            assert(advances_view(r@) =~= Seq::empty());
        }
    }
    r
}

pub open spec fn fighter_table() -> Seq<(u8, Seq<char>, Rank)> {
    seq![
        (3u8, "all saves"@, Rank::Expert),
        (5u8, "all weapons"@, Rank::Expert),
        (7u8, "perception"@, Rank::Master),
        (9u8, "fortitude"@, Rank::Master),
        (9u8, "reflex"@, Rank::Master),
        (11u8, "all armor"@, Rank::Expert),
        (13u8, "all weapons"@, Rank::Master),
        (15u8, "will"@, Rank::Master),
        (17u8, "all armor"@, Rank::Master),
        (19u8, "all weapons"@, Rank::Legendary),
    ]
}

pub open spec fn rogue_table() -> Seq<(u8, Seq<char>, Rank)> {
    seq![
        (3u8, "perception"@, Rank::Expert),
        (3u8, "will"@, Rank::Expert),
        (5u8, "simple weapons"@, Rank::Expert),
        (5u8, "unarmed"@, Rank::Expert),
        (7u8, "perception"@, Rank::Master),
        (7u8, "reflex"@, Rank::Master),
        (9u8, "fortitude"@, Rank::Expert),
        (11u8, "light armor"@, Rank::Expert),
        (11u8, "unarmored"@, Rank::Expert),
        (13u8, "reflex"@, Rank::Legendary),
        (13u8, "will"@, Rank::Master),
        (15u8, "perception"@, Rank::Legendary),
        (17u8, "fortitude"@, Rank::Master),
        (19u8, "light armor"@, Rank::Master),
        (19u8, "unarmored"@, Rank::Master),
    ]
}

pub open spec fn wizard_table() -> Seq<(u8, Seq<char>, Rank)> {
    seq![
        (3u8, "fortitude"@, Rank::Expert),
        (5u8, "perception"@, Rank::Expert),
        (9u8, "will"@, Rank::Master),
        (11u8, "simple weapons"@, Rank::Expert),
        (11u8, "unarmed"@, Rank::Expert),
        (15u8, "perception"@, Rank::Master),
        (17u8, "will"@, Rank::Legendary),
    ]
}

pub open spec fn cleric_table() -> Seq<(u8, Seq<char>, Rank)> {
    seq![
        (3u8, "fortitude"@, Rank::Expert),
        (5u8, "perception"@, Rank::Expert),
        (9u8, "reflex"@, Rank::Expert),
        (11u8, "will"@, Rank::Master),
        (13u8, "unarmored"@, Rank::Expert),
        (15u8, "perception"@, Rank::Master),
        (17u8, "fortitude"@, Rank::Master),
        (19u8, "will"@, Rank::Legendary),
    ]
}

pub open spec fn ranger_table() -> Seq<(u8, Seq<char>, Rank)> {
    seq![
        (3u8, "perception"@, Rank::Expert),
        (3u8, "will"@, Rank::Expert),
        (5u8, "simple weapons"@, Rank::Expert),
        (5u8, "martial weapons"@, Rank::Expert),
        (5u8, "unarmed"@, Rank::Expert),
        (7u8, "perception"@, Rank::Master),
        (7u8, "reflex"@, Rank::Master),
        (9u8, "fortitude"@, Rank::Expert),
        (11u8, "medium armor"@, Rank::Expert),
        (11u8, "light armor"@, Rank::Expert),
        (11u8, "unarmored"@, Rank::Expert),
        (13u8, "simple weapons"@, Rank::Master),
        (13u8, "martial weapons"@, Rank::Master),
        (13u8, "unarmed"@, Rank::Master),
        (15u8, "will"@, Rank::Master),
        (17u8, "perception"@, Rank::Legendary),
        (17u8, "fortitude"@, Rank::Master),
        (19u8, "medium armor"@, Rank::Master),
        (19u8, "light armor"@, Rank::Master),
        (19u8, "unarmored"@, Rank::Master),
    ]
}

pub open spec fn barbarian_table() -> Seq<(u8, Seq<char>, Rank)> {
    seq![
        (3u8, "will"@, Rank::Expert),
        (5u8, "simple weapons"@, Rank::Expert),
        (5u8, "martial weapons"@, Rank::Expert),
        (5u8, "unarmed"@, Rank::Expert),
        (7u8, "perception"@, Rank::Expert),
        (7u8, "fortitude"@, Rank::Master),
        (9u8, "reflex"@, Rank::Expert),
        (11u8, "medium armor"@, Rank::Expert),
        (11u8, "light armor"@, Rank::Expert),
        (11u8, "unarmored"@, Rank::Expert),
        (13u8, "simple weapons"@, Rank::Master),
        (13u8, "martial weapons"@, Rank::Master),
        (13u8, "unarmed"@, Rank::Master),
        (15u8, "fortitude"@, Rank::Legendary),
        (17u8, "perception"@, Rank::Master),
        (17u8, "will"@, Rank::Master),
        (19u8, "medium armor"@, Rank::Master),
        (19u8, "light armor"@, Rank::Master),
        (19u8, "unarmored"@, Rank::Master),
    ]
}

pub open spec fn bard_table() -> Seq<(u8, Seq<char>, Rank)> {
    seq![
        (3u8, "will"@, Rank::Expert),
        (5u8, "perception"@, Rank::Expert),
        (7u8, "fortitude"@, Rank::Expert),
        (9u8, "reflex"@, Rank::Expert),
        (11u8, "simple weapons"@, Rank::Expert),
        (11u8, "unarmed"@, Rank::Expert),
        (11u8, "will"@, Rank::Master),
        (13u8, "light armor"@, Rank::Expert),
        (13u8, "unarmored"@, Rank::Expert),
        (15u8, "perception"@, Rank::Master),
        (17u8, "will"@, Rank::Legendary),
    ]
}

pub open spec fn champion_table() -> Seq<(u8, Seq<char>, Rank)> {
    seq![
        (3u8, "will"@, Rank::Expert),
        (5u8, "simple weapons"@, Rank::Expert),
        (5u8, "martial weapons"@, Rank::Expert),
        (5u8, "unarmed"@, Rank::Expert),
        (7u8, "perception"@, Rank::Expert),
        (7u8, "fortitude"@, Rank::Master),
        (9u8, "reflex"@, Rank::Expert),
        (11u8, "all armor"@, Rank::Expert),
        (11u8, "heavy armor"@, Rank::Expert),
        (13u8, "simple weapons"@, Rank::Master),
        (13u8, "martial weapons"@, Rank::Master),
        (13u8, "unarmed"@, Rank::Master),
        (15u8, "will"@, Rank::Master),
        (17u8, "all armor"@, Rank::Master),
        (17u8, "heavy armor"@, Rank::Master),
        (19u8, "fortitude"@, Rank::Legendary),
    ]
}

pub open spec fn druid_table() -> Seq<(u8, Seq<char>, Rank)> {
    seq![
        (3u8, "fortitude"@, Rank::Expert),
        (5u8, "perception"@, Rank::Expert),
        (7u8, "will"@, Rank::Expert),
        (9u8, "reflex"@, Rank::Expert),
        (11u8, "will"@, Rank::Master),
        (11u8, "simple weapons"@, Rank::Expert),
        (11u8, "unarmed"@, Rank::Expert),
        (13u8, "light armor"@, Rank::Expert),
        (13u8, "medium armor"@, Rank::Expert),
        (13u8, "unarmored"@, Rank::Expert),
        (15u8, "perception"@, Rank::Master),
        (17u8, "fortitude"@, Rank::Master),
        (19u8, "will"@, Rank::Legendary),
    ]
}

pub open spec fn monk_table() -> Seq<(u8, Seq<char>, Rank)> {
    seq![
        (3u8, "fortitude"@, Rank::Expert),
        (3u8, "reflex"@, Rank::Expert),
        (5u8, "unarmed"@, Rank::Expert),
        (7u8, "perception"@, Rank::Expert),
        (7u8, "will"@, Rank::Master),
        (9u8, "fortitude"@, Rank::Master),
        (11u8, "unarmored"@, Rank::Expert),
        (13u8, "unarmed"@, Rank::Master),
        (13u8, "reflex"@, Rank::Master),
        (15u8, "perception"@, Rank::Master),
        (17u8, "will"@, Rank::Legendary),
        (19u8, "unarmored"@, Rank::Master),
    ]
}

pub open spec fn sorcerer_table() -> Seq<(u8, Seq<char>, Rank)> {
    seq![
        (3u8, "will"@, Rank::Expert),
        (5u8, "perception"@, Rank::Expert),
        (7u8, "fortitude"@, Rank::Expert),
        (9u8, "reflex"@, Rank::Expert),
        (11u8, "simple weapons"@, Rank::Expert),
        (11u8, "unarmed"@, Rank::Expert),
        (13u8, "will"@, Rank::Master),
        (15u8, "perception"@, Rank::Master),
        (17u8, "will"@, Rank::Legendary),
    ]
}

pub open spec fn witch_table() -> Seq<(u8, Seq<char>, Rank)> {
    seq![
        (3u8, "fortitude"@, Rank::Expert),
        (5u8, "perception"@, Rank::Expert),
        (9u8, "will"@, Rank::Master),
        (11u8, "simple weapons"@, Rank::Expert),
        (11u8, "unarmed"@, Rank::Expert),
        (15u8, "perception"@, Rank::Master),
        (17u8, "will"@, Rank::Legendary),
    ]
}

pub open spec fn oracle_table() -> Seq<(u8, Seq<char>, Rank)> {
    seq![
        (3u8, "will"@, Rank::Expert),
        (5u8, "perception"@, Rank::Expert),
        (7u8, "fortitude"@, Rank::Expert),
        (9u8, "reflex"@, Rank::Expert),
        (11u8, "simple weapons"@, Rank::Expert),
        (11u8, "unarmed"@, Rank::Expert),
        (11u8, "will"@, Rank::Master),
        (13u8, "light armor"@, Rank::Expert),
        (13u8, "unarmored"@, Rank::Expert),
        (15u8, "perception"@, Rank::Master),
        (17u8, "will"@, Rank::Legendary),
    ]
}

pub open spec fn investigator_table() -> Seq<(u8, Seq<char>, Rank)> {
    seq![
        (3u8, "perception"@, Rank::Expert),
        (3u8, "will"@, Rank::Expert),
        (5u8, "simple weapons"@, Rank::Expert),
        (5u8, "martial weapons"@, Rank::Expert),
        (5u8, "unarmed"@, Rank::Expert),
        (7u8, "perception"@, Rank::Master),
        (7u8, "fortitude"@, Rank::Expert),
        (9u8, "reflex"@, Rank::Expert),
        (9u8, "will"@, Rank::Master),
        (11u8, "light armor"@, Rank::Expert),
        (11u8, "medium armor"@, Rank::Expert),
        (11u8, "unarmored"@, Rank::Expert),
        (13u8, "simple weapons"@, Rank::Master),
        (13u8, "martial weapons"@, Rank::Master),
        (13u8, "unarmed"@, Rank::Master),
        (15u8, "perception"@, Rank::Legendary),
        (17u8, "will"@, Rank::Legendary),
    ]
}

pub open spec fn swashbuckler_table() -> Seq<(u8, Seq<char>, Rank)> {
    seq![
        (3u8, "perception"@, Rank::Expert),
        (3u8, "reflex"@, Rank::Expert),
        (5u8, "simple weapons"@, Rank::Expert),
        (5u8, "martial weapons"@, Rank::Expert),
        (5u8, "unarmed"@, Rank::Expert),
        (7u8, "fortitude"@, Rank::Expert),
        (7u8, "reflex"@, Rank::Master),
        (9u8, "will"@, Rank::Expert),
        (11u8, "light armor"@, Rank::Expert),
        (11u8, "unarmored"@, Rank::Expert),
        (13u8, "simple weapons"@, Rank::Master),
        (13u8, "martial weapons"@, Rank::Master),
        (13u8, "unarmed"@, Rank::Master),
        (15u8, "perception"@, Rank::Master),
        (15u8, "reflex"@, Rank::Legendary),
        (17u8, "fortitude"@, Rank::Master),
        (19u8, "light armor"@, Rank::Master),
        (19u8, "unarmored"@, Rank::Master),
    ]
}

pub open spec fn magus_table() -> Seq<(u8, Seq<char>, Rank)> {
    seq![
        (3u8, "will"@, Rank::Expert),
        (5u8, "simple weapons"@, Rank::Expert),
        (5u8, "martial weapons"@, Rank::Expert),
        (5u8, "unarmed"@, Rank::Expert),
        (7u8, "perception"@, Rank::Expert),
        (7u8, "fortitude"@, Rank::Expert),
        (9u8, "reflex"@, Rank::Expert),
        (11u8, "medium armor"@, Rank::Expert),
        (11u8, "light armor"@, Rank::Expert),
        (11u8, "unarmored"@, Rank::Expert),
        (13u8, "simple weapons"@, Rank::Master),
        (13u8, "martial weapons"@, Rank::Master),
        (13u8, "unarmed"@, Rank::Master),
        (15u8, "will"@, Rank::Master),
        (17u8, "perception"@, Rank::Master),
    ]
}

pub open spec fn summoner_table() -> Seq<(u8, Seq<char>, Rank)> {
    seq![
        (3u8, "will"@, Rank::Expert),
        (5u8, "perception"@, Rank::Expert),
        (7u8, "fortitude"@, Rank::Expert),
        (9u8, "reflex"@, Rank::Expert),
        (11u8, "simple weapons"@, Rank::Expert),
        (11u8, "unarmed"@, Rank::Expert),
        (11u8, "will"@, Rank::Master),
        (13u8, "unarmored"@, Rank::Expert),
        (15u8, "perception"@, Rank::Master),
        (17u8, "will"@, Rank::Legendary),
    ]
}

pub open spec fn psychic_table() -> Seq<(u8, Seq<char>, Rank)> {
    seq![
        (3u8, "will"@, Rank::Expert),
        (5u8, "perception"@, Rank::Expert),
        (7u8, "fortitude"@, Rank::Expert),
        (9u8, "reflex"@, Rank::Expert),
        (11u8, "simple weapons"@, Rank::Expert),
        (11u8, "unarmed"@, Rank::Expert),
        (11u8, "will"@, Rank::Master),
        (15u8, "perception"@, Rank::Master),
        (17u8, "will"@, Rank::Legendary),
    ]
}

pub open spec fn thaumaturge_table() -> Seq<(u8, Seq<char>, Rank)> {
    seq![
        (3u8, "perception"@, Rank::Expert),
        (3u8, "will"@, Rank::Expert),
        (5u8, "simple weapons"@, Rank::Expert),
        (5u8, "martial weapons"@, Rank::Expert),
        (5u8, "unarmed"@, Rank::Expert),
        (7u8, "fortitude"@, Rank::Expert),
        (7u8, "reflex"@, Rank::Expert),
        (9u8, "perception"@, Rank::Master),
        (11u8, "light armor"@, Rank::Expert),
        (11u8, "medium armor"@, Rank::Expert),
        (11u8, "unarmored"@, Rank::Expert),
        (13u8, "simple weapons"@, Rank::Master),
        (13u8, "martial weapons"@, Rank::Master),
        (13u8, "unarmed"@, Rank::Master),
        (15u8, "will"@, Rank::Master),
        (17u8, "fortitude"@, Rank::Master),
    ]
}

pub open spec fn kineticist_table() -> Seq<(u8, Seq<char>, Rank)> {
    seq![
        (3u8, "will"@, Rank::Expert),
        (5u8, "perception"@, Rank::Expert),
        (7u8, "fortitude"@, Rank::Master),
        (9u8, "reflex"@, Rank::Expert),
        (11u8, "light armor"@, Rank::Expert),
        (11u8, "unarmored"@, Rank::Expert),
        (13u8, "will"@, Rank::Master),
        (15u8, "perception"@, Rank::Master),
        (17u8, "fortitude"@, Rank::Legendary),
    ]
}

pub open spec fn gunslinger_table() -> Seq<(u8, Seq<char>, Rank)> {
    seq![
        (3u8, "perception"@, Rank::Expert),
        (3u8, "reflex"@, Rank::Expert),
        (5u8, "simple weapons"@, Rank::Expert),
        (5u8, "martial weapons"@, Rank::Expert),
        (5u8, "unarmed"@, Rank::Expert),
        (7u8, "perception"@, Rank::Master),
        (7u8, "fortitude"@, Rank::Expert),
        (9u8, "reflex"@, Rank::Master),
        (9u8, "will"@, Rank::Expert),
        (11u8, "light armor"@, Rank::Expert),
        (11u8, "medium armor"@, Rank::Expert),
        (11u8, "unarmored"@, Rank::Expert),
        (13u8, "simple weapons"@, Rank::Master),
        (13u8, "martial weapons"@, Rank::Master),
        (13u8, "unarmed"@, Rank::Master),
        (15u8, "perception"@, Rank::Legendary),
        (17u8, "fortitude"@, Rank::Master),
        (19u8, "reflex"@, Rank::Legendary),
    ]
}

pub open spec fn inventor_table() -> Seq<(u8, Seq<char>, Rank)> {
    seq![
        (3u8, "will"@, Rank::Expert),
        (5u8, "simple weapons"@, Rank::Expert),
        (5u8, "martial weapons"@, Rank::Expert),
        (5u8, "unarmed"@, Rank::Expert),
        (7u8, "perception"@, Rank::Expert),
        (7u8, "fortitude"@, Rank::Master),
        (9u8, "reflex"@, Rank::Expert),
        (11u8, "medium armor"@, Rank::Expert),
        (11u8, "light armor"@, Rank::Expert),
        (11u8, "unarmored"@, Rank::Expert),
        (13u8, "simple weapons"@, Rank::Master),
        (13u8, "martial weapons"@, Rank::Master),
        (13u8, "unarmed"@, Rank::Master),
        (15u8, "perception"@, Rank::Master),
        (17u8, "will"@, Rank::Master),
    ]
}

fn fighter_advances() -> (r: Vec<ProficiencyAdvance>)
    ensures
        advances_view(r@) == fighter_table(),
{
    let mut v: Vec<ProficiencyAdvance> = Vec::new();
    v.push(adv(3, "all saves", Rank::Expert));
    v.push(adv(5, "all weapons", Rank::Expert));
    v.push(adv(7, "perception", Rank::Master));
    v.push(adv(9, "fortitude", Rank::Master));
    v.push(adv(9, "reflex", Rank::Master));
    v.push(adv(11, "all armor", Rank::Expert));
    v.push(adv(13, "all weapons", Rank::Master));
    v.push(adv(15, "will", Rank::Master));
    v.push(adv(17, "all armor", Rank::Master));
    v.push(adv(19, "all weapons", Rank::Legendary));
    assert(advances_view(v@) =~= fighter_table());
    v
}

fn rogue_advances() -> (r: Vec<ProficiencyAdvance>)
    ensures
        advances_view(r@) == rogue_table(),
{
    let mut v: Vec<ProficiencyAdvance> = Vec::new();
    v.push(adv(3, "perception", Rank::Expert));
    v.push(adv(3, "will", Rank::Expert));
    v.push(adv(5, "simple weapons", Rank::Expert));
    v.push(adv(5, "unarmed", Rank::Expert));
    v.push(adv(7, "perception", Rank::Master));
    v.push(adv(7, "reflex", Rank::Master));
    v.push(adv(9, "fortitude", Rank::Expert));
    v.push(adv(11, "light armor", Rank::Expert));
    v.push(adv(11, "unarmored", Rank::Expert));
    v.push(adv(13, "reflex", Rank::Legendary));
    v.push(adv(13, "will", Rank::Master));
    v.push(adv(15, "perception", Rank::Legendary));
    v.push(adv(17, "fortitude", Rank::Master));
    v.push(adv(19, "light armor", Rank::Master));
    v.push(adv(19, "unarmored", Rank::Master));
    assert(advances_view(v@) =~= rogue_table());
    v
}

fn wizard_advances() -> (r: Vec<ProficiencyAdvance>)
    ensures
        advances_view(r@) == wizard_table(),
{
    let mut v: Vec<ProficiencyAdvance> = Vec::new();
    v.push(adv(3, "fortitude", Rank::Expert));
    v.push(adv(5, "perception", Rank::Expert));
    v.push(adv(9, "will", Rank::Master));
    v.push(adv(11, "simple weapons", Rank::Expert));
    v.push(adv(11, "unarmed", Rank::Expert));
    v.push(adv(15, "perception", Rank::Master));
    v.push(adv(17, "will", Rank::Legendary));
    assert(advances_view(v@) =~= wizard_table());
    v
}

fn cleric_advances() -> (r: Vec<ProficiencyAdvance>)
    ensures
        advances_view(r@) == cleric_table(),
{
    let mut v: Vec<ProficiencyAdvance> = Vec::new();
    v.push(adv(3, "fortitude", Rank::Expert));
    v.push(adv(5, "perception", Rank::Expert));
    v.push(adv(9, "reflex", Rank::Expert));
    v.push(adv(11, "will", Rank::Master));
    v.push(adv(13, "unarmored", Rank::Expert));
    v.push(adv(15, "perception", Rank::Master));
    v.push(adv(17, "fortitude", Rank::Master));
    v.push(adv(19, "will", Rank::Legendary));
    assert(advances_view(v@) =~= cleric_table());
    v
}

fn ranger_advances() -> (r: Vec<ProficiencyAdvance>)
    ensures
        advances_view(r@) == ranger_table(),
{
    let mut v: Vec<ProficiencyAdvance> = Vec::new();
    v.push(adv(3, "perception", Rank::Expert));
    v.push(adv(3, "will", Rank::Expert));
    v.push(adv(5, "simple weapons", Rank::Expert));
    v.push(adv(5, "martial weapons", Rank::Expert));
    v.push(adv(5, "unarmed", Rank::Expert));
    v.push(adv(7, "perception", Rank::Master));
    v.push(adv(7, "reflex", Rank::Master));
    v.push(adv(9, "fortitude", Rank::Expert));
    v.push(adv(11, "medium armor", Rank::Expert));
    v.push(adv(11, "light armor", Rank::Expert));
    v.push(adv(11, "unarmored", Rank::Expert));
    v.push(adv(13, "simple weapons", Rank::Master));
    v.push(adv(13, "martial weapons", Rank::Master));
    v.push(adv(13, "unarmed", Rank::Master));
    v.push(adv(15, "will", Rank::Master));
    v.push(adv(17, "perception", Rank::Legendary));
    v.push(adv(17, "fortitude", Rank::Master));
    v.push(adv(19, "medium armor", Rank::Master));
    v.push(adv(19, "light armor", Rank::Master));
    v.push(adv(19, "unarmored", Rank::Master));
    assert(advances_view(v@) =~= ranger_table());
    v
}

fn barbarian_advances() -> (r: Vec<ProficiencyAdvance>)
    ensures
        advances_view(r@) == barbarian_table(),
{
    let mut v: Vec<ProficiencyAdvance> = Vec::new();
    v.push(adv(3, "will", Rank::Expert));
    v.push(adv(5, "simple weapons", Rank::Expert));
    v.push(adv(5, "martial weapons", Rank::Expert));
    v.push(adv(5, "unarmed", Rank::Expert));
    v.push(adv(7, "perception", Rank::Expert));
    v.push(adv(7, "fortitude", Rank::Master));
    v.push(adv(9, "reflex", Rank::Expert));
    v.push(adv(11, "medium armor", Rank::Expert));
    v.push(adv(11, "light armor", Rank::Expert));
    v.push(adv(11, "unarmored", Rank::Expert));
    v.push(adv(13, "simple weapons", Rank::Master));
    v.push(adv(13, "martial weapons", Rank::Master));
    v.push(adv(13, "unarmed", Rank::Master));
    v.push(adv(15, "fortitude", Rank::Legendary));
    v.push(adv(17, "perception", Rank::Master));
    v.push(adv(17, "will", Rank::Master));
    v.push(adv(19, "medium armor", Rank::Master));
    v.push(adv(19, "light armor", Rank::Master));
    v.push(adv(19, "unarmored", Rank::Master));
    assert(advances_view(v@) =~= barbarian_table());
    v
}

fn bard_advances() -> (r: Vec<ProficiencyAdvance>)
    ensures
        advances_view(r@) == bard_table(),
{
    let mut v: Vec<ProficiencyAdvance> = Vec::new();
    v.push(adv(3, "will", Rank::Expert));
    v.push(adv(5, "perception", Rank::Expert));
    v.push(adv(7, "fortitude", Rank::Expert));
    v.push(adv(9, "reflex", Rank::Expert));
    v.push(adv(11, "simple weapons", Rank::Expert));
    v.push(adv(11, "unarmed", Rank::Expert));
    v.push(adv(11, "will", Rank::Master));
    v.push(adv(13, "light armor", Rank::Expert));
    v.push(adv(13, "unarmored", Rank::Expert));
    v.push(adv(15, "perception", Rank::Master));
    v.push(adv(17, "will", Rank::Legendary));
    assert(advances_view(v@) =~= bard_table());
    v
}

fn champion_advances() -> (r: Vec<ProficiencyAdvance>)
    ensures
        advances_view(r@) == champion_table(),
{
    let mut v: Vec<ProficiencyAdvance> = Vec::new();
    v.push(adv(3, "will", Rank::Expert));
    v.push(adv(5, "simple weapons", Rank::Expert));
    v.push(adv(5, "martial weapons", Rank::Expert));
    v.push(adv(5, "unarmed", Rank::Expert));
    v.push(adv(7, "perception", Rank::Expert));
    v.push(adv(7, "fortitude", Rank::Master));
    v.push(adv(9, "reflex", Rank::Expert));
    v.push(adv(11, "all armor", Rank::Expert));
    v.push(adv(11, "heavy armor", Rank::Expert));
    v.push(adv(13, "simple weapons", Rank::Master));
    v.push(adv(13, "martial weapons", Rank::Master));
    v.push(adv(13, "unarmed", Rank::Master));
    v.push(adv(15, "will", Rank::Master));
    v.push(adv(17, "all armor", Rank::Master));
    v.push(adv(17, "heavy armor", Rank::Master));
    v.push(adv(19, "fortitude", Rank::Legendary));
    assert(advances_view(v@) =~= champion_table());
    v
}

fn druid_advances() -> (r: Vec<ProficiencyAdvance>)
    ensures
        advances_view(r@) == druid_table(),
{
    let mut v: Vec<ProficiencyAdvance> = Vec::new();
    v.push(adv(3, "fortitude", Rank::Expert));
    v.push(adv(5, "perception", Rank::Expert));
    v.push(adv(7, "will", Rank::Expert));
    v.push(adv(9, "reflex", Rank::Expert));
    v.push(adv(11, "will", Rank::Master));
    v.push(adv(11, "simple weapons", Rank::Expert));
    v.push(adv(11, "unarmed", Rank::Expert));
    v.push(adv(13, "light armor", Rank::Expert));
    v.push(adv(13, "medium armor", Rank::Expert));
    v.push(adv(13, "unarmored", Rank::Expert));
    v.push(adv(15, "perception", Rank::Master));
    v.push(adv(17, "fortitude", Rank::Master));
    v.push(adv(19, "will", Rank::Legendary));
    assert(advances_view(v@) =~= druid_table());
    v
}

fn monk_advances() -> (r: Vec<ProficiencyAdvance>)
    ensures
        advances_view(r@) == monk_table(),
{
    let mut v: Vec<ProficiencyAdvance> = Vec::new();
    v.push(adv(3, "fortitude", Rank::Expert));
    v.push(adv(3, "reflex", Rank::Expert));
    v.push(adv(5, "unarmed", Rank::Expert));
    v.push(adv(7, "perception", Rank::Expert));
    v.push(adv(7, "will", Rank::Master));
    v.push(adv(9, "fortitude", Rank::Master));
    v.push(adv(11, "unarmored", Rank::Expert));
    v.push(adv(13, "unarmed", Rank::Master));
    v.push(adv(13, "reflex", Rank::Master));
    v.push(adv(15, "perception", Rank::Master));
    v.push(adv(17, "will", Rank::Legendary));
    v.push(adv(19, "unarmored", Rank::Master));
    assert(advances_view(v@) =~= monk_table());
    v
}

fn sorcerer_advances() -> (r: Vec<ProficiencyAdvance>)
    ensures
        advances_view(r@) == sorcerer_table(),
{
    let mut v: Vec<ProficiencyAdvance> = Vec::new();
    v.push(adv(3, "will", Rank::Expert));
    v.push(adv(5, "perception", Rank::Expert));
    v.push(adv(7, "fortitude", Rank::Expert));
    v.push(adv(9, "reflex", Rank::Expert));
    v.push(adv(11, "simple weapons", Rank::Expert));
    v.push(adv(11, "unarmed", Rank::Expert));
    v.push(adv(13, "will", Rank::Master));
    v.push(adv(15, "perception", Rank::Master));
    v.push(adv(17, "will", Rank::Legendary));
    assert(advances_view(v@) =~= sorcerer_table());
    v
}

fn witch_advances() -> (r: Vec<ProficiencyAdvance>)
    ensures
        advances_view(r@) == witch_table(),
{
    let mut v: Vec<ProficiencyAdvance> = Vec::new();
    v.push(adv(3, "fortitude", Rank::Expert));
    v.push(adv(5, "perception", Rank::Expert));
    v.push(adv(9, "will", Rank::Master));
    v.push(adv(11, "simple weapons", Rank::Expert));
    v.push(adv(11, "unarmed", Rank::Expert));
    v.push(adv(15, "perception", Rank::Master));
    v.push(adv(17, "will", Rank::Legendary));
    assert(advances_view(v@) =~= witch_table());
    v
}

fn oracle_advances() -> (r: Vec<ProficiencyAdvance>)
    ensures
        advances_view(r@) == oracle_table(),
{
    let mut v: Vec<ProficiencyAdvance> = Vec::new();
    v.push(adv(3, "will", Rank::Expert));
    v.push(adv(5, "perception", Rank::Expert));
    v.push(adv(7, "fortitude", Rank::Expert));
    v.push(adv(9, "reflex", Rank::Expert));
    v.push(adv(11, "simple weapons", Rank::Expert));
    v.push(adv(11, "unarmed", Rank::Expert));
    v.push(adv(11, "will", Rank::Master));
    v.push(adv(13, "light armor", Rank::Expert));
    v.push(adv(13, "unarmored", Rank::Expert));
    v.push(adv(15, "perception", Rank::Master));
    v.push(adv(17, "will", Rank::Legendary));
    assert(advances_view(v@) =~= oracle_table());
    v
}

fn investigator_advances() -> (r: Vec<ProficiencyAdvance>)
    ensures
        advances_view(r@) == investigator_table(),
{
    let mut v: Vec<ProficiencyAdvance> = Vec::new();
    v.push(adv(3, "perception", Rank::Expert));
    v.push(adv(3, "will", Rank::Expert));
    v.push(adv(5, "simple weapons", Rank::Expert));
    v.push(adv(5, "martial weapons", Rank::Expert));
    v.push(adv(5, "unarmed", Rank::Expert));
    v.push(adv(7, "perception", Rank::Master));
    v.push(adv(7, "fortitude", Rank::Expert));
    v.push(adv(9, "reflex", Rank::Expert));
    v.push(adv(9, "will", Rank::Master));
    v.push(adv(11, "light armor", Rank::Expert));
    v.push(adv(11, "medium armor", Rank::Expert));
    v.push(adv(11, "unarmored", Rank::Expert));
    v.push(adv(13, "simple weapons", Rank::Master));
    v.push(adv(13, "martial weapons", Rank::Master));
    v.push(adv(13, "unarmed", Rank::Master));
    v.push(adv(15, "perception", Rank::Legendary));
    v.push(adv(17, "will", Rank::Legendary));
    assert(advances_view(v@) =~= investigator_table());
    v
}

fn swashbuckler_advances() -> (r: Vec<ProficiencyAdvance>)
    ensures
        advances_view(r@) == swashbuckler_table(),
{
    let mut v: Vec<ProficiencyAdvance> = Vec::new();
    v.push(adv(3, "perception", Rank::Expert));
    v.push(adv(3, "reflex", Rank::Expert));
    v.push(adv(5, "simple weapons", Rank::Expert));
    v.push(adv(5, "martial weapons", Rank::Expert));
    v.push(adv(5, "unarmed", Rank::Expert));
    v.push(adv(7, "fortitude", Rank::Expert));
    v.push(adv(7, "reflex", Rank::Master));
    v.push(adv(9, "will", Rank::Expert));
    v.push(adv(11, "light armor", Rank::Expert));
    v.push(adv(11, "unarmored", Rank::Expert));
    v.push(adv(13, "simple weapons", Rank::Master));
    v.push(adv(13, "martial weapons", Rank::Master));
    v.push(adv(13, "unarmed", Rank::Master));
    v.push(adv(15, "perception", Rank::Master));
    v.push(adv(15, "reflex", Rank::Legendary));
    v.push(adv(17, "fortitude", Rank::Master));
    v.push(adv(19, "light armor", Rank::Master));
    v.push(adv(19, "unarmored", Rank::Master));
    assert(advances_view(v@) =~= swashbuckler_table());
    v
}

fn magus_advances() -> (r: Vec<ProficiencyAdvance>)
    ensures
        advances_view(r@) == magus_table(),
{
    let mut v: Vec<ProficiencyAdvance> = Vec::new();
    v.push(adv(3, "will", Rank::Expert));
    v.push(adv(5, "simple weapons", Rank::Expert));
    v.push(adv(5, "martial weapons", Rank::Expert));
    v.push(adv(5, "unarmed", Rank::Expert));
    v.push(adv(7, "perception", Rank::Expert));
    v.push(adv(7, "fortitude", Rank::Expert));
    v.push(adv(9, "reflex", Rank::Expert));
    v.push(adv(11, "medium armor", Rank::Expert));
    v.push(adv(11, "light armor", Rank::Expert));
    v.push(adv(11, "unarmored", Rank::Expert));
    v.push(adv(13, "simple weapons", Rank::Master));
    v.push(adv(13, "martial weapons", Rank::Master));
    v.push(adv(13, "unarmed", Rank::Master));
    v.push(adv(15, "will", Rank::Master));
    v.push(adv(17, "perception", Rank::Master));
    assert(advances_view(v@) =~= magus_table());
    v
}

fn summoner_advances() -> (r: Vec<ProficiencyAdvance>)
    ensures
        advances_view(r@) == summoner_table(),
{
    let mut v: Vec<ProficiencyAdvance> = Vec::new();
    v.push(adv(3, "will", Rank::Expert));
    v.push(adv(5, "perception", Rank::Expert));
    v.push(adv(7, "fortitude", Rank::Expert));
    v.push(adv(9, "reflex", Rank::Expert));
    v.push(adv(11, "simple weapons", Rank::Expert));
    v.push(adv(11, "unarmed", Rank::Expert));
    v.push(adv(11, "will", Rank::Master));
    v.push(adv(13, "unarmored", Rank::Expert));
    v.push(adv(15, "perception", Rank::Master));
    v.push(adv(17, "will", Rank::Legendary));
    assert(advances_view(v@) =~= summoner_table());
    v
}

fn psychic_advances() -> (r: Vec<ProficiencyAdvance>)
    ensures
        advances_view(r@) == psychic_table(),
{
    let mut v: Vec<ProficiencyAdvance> = Vec::new();
    v.push(adv(3, "will", Rank::Expert));
    v.push(adv(5, "perception", Rank::Expert));
    v.push(adv(7, "fortitude", Rank::Expert));
    v.push(adv(9, "reflex", Rank::Expert));
    v.push(adv(11, "simple weapons", Rank::Expert));
    v.push(adv(11, "unarmed", Rank::Expert));
    v.push(adv(11, "will", Rank::Master));
    v.push(adv(15, "perception", Rank::Master));
    v.push(adv(17, "will", Rank::Legendary));
    assert(advances_view(v@) =~= psychic_table());
    v
}

fn thaumaturge_advances() -> (r: Vec<ProficiencyAdvance>)
    ensures
        advances_view(r@) == thaumaturge_table(),
{
    let mut v: Vec<ProficiencyAdvance> = Vec::new();
    v.push(adv(3, "perception", Rank::Expert));
    v.push(adv(3, "will", Rank::Expert));
    v.push(adv(5, "simple weapons", Rank::Expert));
    v.push(adv(5, "martial weapons", Rank::Expert));
    v.push(adv(5, "unarmed", Rank::Expert));
    v.push(adv(7, "fortitude", Rank::Expert));
    v.push(adv(7, "reflex", Rank::Expert));
    v.push(adv(9, "perception", Rank::Master));
    v.push(adv(11, "light armor", Rank::Expert));
    v.push(adv(11, "medium armor", Rank::Expert));
    v.push(adv(11, "unarmored", Rank::Expert));
    v.push(adv(13, "simple weapons", Rank::Master));
    v.push(adv(13, "martial weapons", Rank::Master));
    v.push(adv(13, "unarmed", Rank::Master));
    v.push(adv(15, "will", Rank::Master));
    v.push(adv(17, "fortitude", Rank::Master));
    assert(advances_view(v@) =~= thaumaturge_table());
    v
}

fn kineticist_advances() -> (r: Vec<ProficiencyAdvance>)
    ensures
        advances_view(r@) == kineticist_table(),
{
    let mut v: Vec<ProficiencyAdvance> = Vec::new();
    v.push(adv(3, "will", Rank::Expert));
    v.push(adv(5, "perception", Rank::Expert));
    v.push(adv(7, "fortitude", Rank::Master));
    v.push(adv(9, "reflex", Rank::Expert));
    v.push(adv(11, "light armor", Rank::Expert));
    v.push(adv(11, "unarmored", Rank::Expert));
    v.push(adv(13, "will", Rank::Master));
    v.push(adv(15, "perception", Rank::Master));
    v.push(adv(17, "fortitude", Rank::Legendary));
    assert(advances_view(v@) =~= kineticist_table());
    v
}

fn gunslinger_advances() -> (r: Vec<ProficiencyAdvance>)
    ensures
        advances_view(r@) == gunslinger_table(),
{
    let mut v: Vec<ProficiencyAdvance> = Vec::new();
    v.push(adv(3, "perception", Rank::Expert));
    v.push(adv(3, "reflex", Rank::Expert));
    v.push(adv(5, "simple weapons", Rank::Expert));
    v.push(adv(5, "martial weapons", Rank::Expert));
    v.push(adv(5, "unarmed", Rank::Expert));
    v.push(adv(7, "perception", Rank::Master));
    v.push(adv(7, "fortitude", Rank::Expert));
    v.push(adv(9, "reflex", Rank::Master));
    v.push(adv(9, "will", Rank::Expert));
    v.push(adv(11, "light armor", Rank::Expert));
    v.push(adv(11, "medium armor", Rank::Expert));
    v.push(adv(11, "unarmored", Rank::Expert));
    v.push(adv(13, "simple weapons", Rank::Master));
    v.push(adv(13, "martial weapons", Rank::Master));
    v.push(adv(13, "unarmed", Rank::Master));
    v.push(adv(15, "perception", Rank::Legendary));
    v.push(adv(17, "fortitude", Rank::Master));
    v.push(adv(19, "reflex", Rank::Legendary));
    assert(advances_view(v@) =~= gunslinger_table());
    v
}

fn inventor_advances() -> (r: Vec<ProficiencyAdvance>)
    ensures
        advances_view(r@) == inventor_table(),
{
    let mut v: Vec<ProficiencyAdvance> = Vec::new();
    v.push(adv(3, "will", Rank::Expert));
    v.push(adv(5, "simple weapons", Rank::Expert));
    v.push(adv(5, "martial weapons", Rank::Expert));
    v.push(adv(5, "unarmed", Rank::Expert));
    v.push(adv(7, "perception", Rank::Expert));
    v.push(adv(7, "fortitude", Rank::Master));
    v.push(adv(9, "reflex", Rank::Expert));
    v.push(adv(11, "medium armor", Rank::Expert));
    v.push(adv(11, "light armor", Rank::Expert));
    v.push(adv(11, "unarmored", Rank::Expert));
    v.push(adv(13, "simple weapons", Rank::Master));
    v.push(adv(13, "martial weapons", Rank::Master));
    v.push(adv(13, "unarmed", Rank::Master));
    v.push(adv(15, "perception", Rank::Master));
    v.push(adv(17, "will", Rank::Master));
    assert(advances_view(v@) =~= inventor_table());
    v
}

} // verus!
