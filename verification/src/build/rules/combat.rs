//! Derived combat stats: AC, saves, attacks, class DC.
//!
//! Formula: ability_mod + proficiency_rank.bonus() + level.
//! AC adds +10 base. DCs add +10 base.
use vstd::prelude::*;
use crate::model::abilities::{Abilities, Ability, MAX_ENTRIES, lemma_modifier_bounds};
use crate::model::proficiencies::{Rank, rank_bonus};

verus! {

/// The Dexterity modifier limited by the armor's cap, if any.
pub open spec fn capped(dex: int, cap: Option<i32>) -> int {
    match cap {
        Some(c) => if dex < c {
            dex
        } else {
            c as int
        },
        None => dex,
    }
}

pub open spec fn fits_i32(x: int) -> bool {
    i32::MIN <= x <= i32::MAX
}

/// Every partial sum of the AC formula, in evaluation order, fits in an `i32`.
pub open spec fn ac_fits(capped_dex: int, rank: Rank, level: u8, ac_bonus: i32, potency: u8) -> bool {
    &&& fits_i32(10 + capped_dex)
    &&& fits_i32(10 + capped_dex + rank_bonus(rank))
    &&& fits_i32(10 + capped_dex + rank_bonus(rank) + level)
    &&& fits_i32(10 + capped_dex + rank_bonus(rank) + level + ac_bonus)
    &&& fits_i32(10 + capped_dex + rank_bonus(rank) + level + ac_bonus + potency)
}

/// AC = 10 + min(DEX_mod, dex_cap) + armor_rank.bonus() + level + ac_bonus + potency.
pub open spec fn ac_spec(dex: int, rank: Rank, level: u8, ac_bonus: i32, cap: Option<i32>, potency: u8) -> int {
    10 + capped(dex, cap) + rank_bonus(rank) + level + ac_bonus + potency
}

/// Compute Armor Class from equipped armor.
pub fn compute_ac(
    abilities: &Abilities,
    armor_rank: Rank,
    level: u8,
    ac_bonus: i32,
    dex_cap: Option<i32>,
    potency: u8,
) -> (r: i32)
    requires
        abilities@.bounded(),
        ac_fits(capped(abilities@.modifier(Ability::Dexterity), dex_cap), armor_rank, level, ac_bonus, potency),
    ensures
        r == ac_spec(abilities@.modifier(Ability::Dexterity), armor_rank, level, ac_bonus, dex_cap, potency),
{
    let dex = abilities.modifier(Ability::Dexterity);
    let capped_dex = match dex_cap {
        Some(cap) => if dex < cap {
            dex
        } else {
            cap
        },
        None => dex,
    };
    10 + capped_dex + armor_rank.bonus() + level as i32 + ac_bonus + potency as i32
}

/// ability modifier + rank bonus + level.
pub open spec fn check_spec(modifier: int, rank: Rank, level: u8) -> int {
    modifier + rank_bonus(rank) + level
}

/// Compute a saving throw bonus: ability_mod + rank.bonus() + level.
pub fn compute_save(abilities: &Abilities, ability: Ability, rank: Rank, level: u8) -> (r: i32)
    requires
        abilities@.bounded(),
    ensures
        r == check_spec(abilities@.modifier(ability), rank, level),
{
    proof {
        lemma_modifier_bounds(abilities@, ability);
    }
    abilities.modifier(ability) + rank.bonus() + level as i32
}

/// Compute perception bonus: WIS mod + rank.bonus() + level.
pub fn compute_perception(abilities: &Abilities, rank: Rank, level: u8) -> (r: i32)
    requires
        abilities@.bounded(),
    ensures
        r == check_spec(abilities@.modifier(Ability::Wisdom), rank, level),
{
    proof {
        lemma_modifier_bounds(abilities@, Ability::Wisdom);
    }
    abilities.modifier(Ability::Wisdom) + rank.bonus() + level as i32
}

/// Compute class DC: 10 + key ability mod + rank.bonus() + level.
pub fn compute_class_dc(abilities: &Abilities, key_ability: Ability, rank: Rank, level: u8) -> (r: i32)
    requires
        abilities@.bounded(),
    ensures
        r == 10 + check_spec(abilities@.modifier(key_ability), rank, level),
{
    proof {
        lemma_modifier_bounds(abilities@, key_ability);
    }
    10 + abilities.modifier(key_ability) + rank.bonus() + level as i32
}

/// Compute melee attack bonus: STR mod + rank.bonus() + level.
pub fn compute_melee_attack(abilities: &Abilities, rank: Rank, level: u8) -> (r: i32)
    requires
        abilities@.bounded(),
    ensures
        r == check_spec(abilities@.modifier(Ability::Strength), rank, level),
{
    proof {
        lemma_modifier_bounds(abilities@, Ability::Strength);
    }
    abilities.modifier(Ability::Strength) + rank.bonus() + level as i32
}

/// Compute ranged attack bonus: DEX mod + rank.bonus() + level.
pub fn compute_ranged_attack(abilities: &Abilities, rank: Rank, level: u8) -> (r: i32)
    requires
        abilities@.bounded(),
    ensures
        r == check_spec(abilities@.modifier(Ability::Dexterity), rank, level),
{
    proof {
        lemma_modifier_bounds(abilities@, Ability::Dexterity);
    }
    abilities.modifier(Ability::Dexterity) + rank.bonus() + level as i32
}

} // verus!
