//! Maximum hit points.
//!
//! Two formulas stand here. `calculate_hp` computes max HP as its documentation
//! states it: ancestry HP + (class HP + CON modifier) * level. The derived character
//! (`recalculate`) computes its `hp_max` with at least 1 HP per level:
//! ancestry HP + max(1, class HP + CON modifier) * level. The character sheet shows
//! the derived `hp_max`; the two agree whenever class HP + CON modifier is at least 1.
use vstd::prelude::*;
use crate::model::abilities::Ability;
use crate::model::character::Character;

verus! {

/// Ancestry HP + (class HP + CON modifier) * level, as a mathematical integer.
pub open spec fn hp_total(ancestry_hp: u32, class_hp: u32, con_mod: int, level: u8) -> int {
    ancestry_hp + (class_hp + con_mod) * level
}

/// Max HP: `hp_total`, and 0 where that total is negative (an unsigned count of hit
/// points has no negative value).
pub open spec fn hp_spec(ancestry_hp: u32, class_hp: u32, con_mod: int, level: u8) -> int {
    let t = hp_total(ancestry_hp, class_hp, con_mod, level);
    if t < 0 {
        0
    } else {
        t
    }
}

/// The total fits the result type.
pub open spec fn hp_fits(ancestry_hp: u32, class_hp: u32, con_mod: int, level: u8) -> bool {
    hp_total(ancestry_hp, class_hp, con_mod, level) <= u32::MAX
}

/// HP gained per level in the derived character: class HP (read as an `i32`) + CON
/// modifier, at least 1.
pub open spec fn per_level_hp(class_hp: u32, con_mod: int) -> int {
    let x = (class_hp as i32) + con_mod;
    if x < 1 {
        1
    } else {
        x
    }
}

/// The derived character's max HP: ancestry HP + per-level HP * level.
pub open spec fn derived_hp_spec(ancestry_hp: u32, class_hp: u32, con_mod: int, level: u8) -> int {
    ancestry_hp + per_level_hp(class_hp, con_mod) * level
}

/// The derived HP arithmetic stays within its machine types: the per-level sum and
/// product in `i32`, the total in `u32`.
pub open spec fn derived_hp_fits(ancestry_hp: u32, class_hp: u32, con_mod: int, level: u8) -> bool {
    &&& i32::MIN <= (class_hp as i32) + con_mod <= i32::MAX
    &&& per_level_hp(class_hp, con_mod) * level <= i32::MAX
    &&& derived_hp_spec(ancestry_hp, class_hp, con_mod, level) <= u32::MAX
}

/// Computes `derived_hp_spec` from its parts.
pub fn derived_hp_from(ancestry_hp: u32, class_hp: u32, con_mod: i32, level: u8) -> (r: u32)
    requires
        derived_hp_fits(ancestry_hp, class_hp, con_mod as int, level),
    ensures
        r == derived_hp_spec(ancestry_hp, class_hp, con_mod as int, level),
{
    let base: i32 = #[verifier::truncate] (class_hp as i32);
    let sum = base + con_mod;
    let per_level: i32 = if sum < 1 {
        1
    } else {
        sum
    };
    assert(per_level * level >= 0) by (nonlinear_arith)
        requires
            per_level >= 1,
    ;
    let prod: i32 = per_level * level as i32;
    ancestry_hp + prod as u32
}

/// Computes `hp_spec` from its parts.
pub fn hp_from(ancestry_hp: u32, class_hp: u32, con_mod: i32, level: u8) -> (r: u32)
    requires
        hp_fits(ancestry_hp, class_hp, con_mod as int, level),
    ensures
        r == hp_spec(ancestry_hp, class_hp, con_mod as int, level),
{
    let per: i64 = class_hp as i64 + con_mod as i64;
    assert(-0x1_0000_0000 * 255 <= per * level <= 0x2_0000_0000 * 255) by (nonlinear_arith)
        requires
            -0x8000_0000 <= per <= 0x1_8000_0000,
            0 <= level <= 255,
    ;
    let prod: i64 = per * level as i64;
    let total: i64 = ancestry_hp as i64 + prod;
    if total < 0 {
        0
    } else {
        total as u32
    }
}

/// Calculate max HP: ancestry HP + (class HP + CON modifier) * level; 0 when that
/// total is negative. This is the documented formula, with no minimum per level; the
/// derived character's `hp_max` uses `derived_hp_spec`, which gives at least 1 HP per
/// level.
pub fn calculate_hp(character: &Character) -> (r: u32)
    requires
        character@.abilities.bounded(),
        hp_fits(
            character.ancestry_hp,
            character.class_hp,
            character@.abilities.modifier(Ability::Constitution),
            character.level,
        ),
    ensures
        r == hp_spec(
            character.ancestry_hp,
            character.class_hp,
            character@.abilities.modifier(Ability::Constitution),
            character.level,
        ),
        hp_total(
            character.ancestry_hp,
            character.class_hp,
            character@.abilities.modifier(Ability::Constitution),
            character.level,
        ) >= 0 ==> r == hp_total(
            character.ancestry_hp,
            character.class_hp,
            character@.abilities.modifier(Ability::Constitution),
            character.level,
        ),
{
    let con_mod = character.abilities.modifier(Ability::Constitution);
    hp_from(character.ancestry_hp, character.class_hp, con_mod, character.level)
}

} // verus!
