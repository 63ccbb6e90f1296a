//! Weapons, armor, shields, runes, items and money.
use vstd::prelude::*;
use vstd::string::StringExecFns;
use crate::text::{
    all_ascii, decimal, decimal_string, eq_ci, eq_ignore_ascii_case, has_prefix, lowercase, owned,
    starts_with, to_lowercase,
};

verus! {

/// Striking rune: extra weapon damage dice.
#[derive(Debug, Clone, Copy, PartialEq, Eq, Structural)]
pub enum StrikingRune {
    NoRune,
    Striking,
    Greater,
    Major,
}

impl Default for StrikingRune {
    fn default() -> (r: StrikingRune)
        ensures
            r == StrikingRune::NoRune,
    {
        StrikingRune::NoRune
    }
}

pub open spec fn striking_dice(r: StrikingRune) -> int {
    match r {
        StrikingRune::NoRune => 0,
        StrikingRune::Striking => 1,
        StrikingRune::Greater => 2,
        StrikingRune::Major => 3,
    }
}

pub open spec fn striking_label(r: StrikingRune) -> Seq<char> {
    match r {
        StrikingRune::NoRune => ""@,
        StrikingRune::Striking => "Striking"@,
        StrikingRune::Greater => "Greater Striking"@,
        StrikingRune::Major => "Major Striking"@,
    }
}

pub open spec fn striking_next(r: StrikingRune) -> StrikingRune {
    match r {
        StrikingRune::NoRune => StrikingRune::Striking,
        StrikingRune::Striking => StrikingRune::Greater,
        StrikingRune::Greater => StrikingRune::Major,
        StrikingRune::Major => StrikingRune::NoRune,
    }
}

pub open spec fn striking_prev(r: StrikingRune) -> StrikingRune {
    match r {
        StrikingRune::NoRune => StrikingRune::Major,
        StrikingRune::Striking => StrikingRune::NoRune,
        StrikingRune::Greater => StrikingRune::Striking,
        StrikingRune::Major => StrikingRune::Greater,
    }
}

impl StrikingRune {
    /// Extra damage dice from striking rune (0/1/2/3).
    pub fn extra_dice(self) -> (r: u8)
        ensures
            r == striking_dice(self),
    {
        match self {
            Self::NoRune => 0,
            Self::Striking => 1,
            Self::Greater => 2,
            Self::Major => 3,
        }
    }

    pub fn label(self) -> (r: &'static str)
        ensures
            r@ == striking_label(self),
    {
        match self {
            Self::NoRune => "",
            Self::Striking => "Striking",
            Self::Greater => "Greater Striking",
            Self::Major => "Major Striking",
        }
    }

    pub fn next(self) -> (r: Self)
        ensures
            r == striking_next(self),
    {
        match self {
            Self::NoRune => Self::Striking,
            Self::Striking => Self::Greater,
            Self::Greater => Self::Major,
            Self::Major => Self::NoRune,
        }
    }

    pub fn prev(self) -> (r: Self)
        ensures
            r == striking_prev(self),
    {
        match self {
            Self::NoRune => Self::Major,
            Self::Striking => Self::NoRune,
            Self::Greater => Self::Striking,
            Self::Major => Self::Greater,
        }
    }
}

/// Resilient rune: item bonus to saving throws.
#[derive(Debug, Clone, Copy, PartialEq, Eq, Structural)]
pub enum ResilientRune {
    NoRune,
    Resilient,
    Greater,
    Major,
}

impl Default for ResilientRune {
    fn default() -> (r: ResilientRune)
        ensures
            r == ResilientRune::NoRune,
    {
        ResilientRune::NoRune
    }
}

pub open spec fn resilient_bonus(r: ResilientRune) -> int {
    match r {
        ResilientRune::NoRune => 0,
        ResilientRune::Resilient => 1,
        ResilientRune::Greater => 2,
        ResilientRune::Major => 3,
    }
}

pub open spec fn resilient_label(r: ResilientRune) -> Seq<char> {
    match r {
        ResilientRune::NoRune => ""@,
        ResilientRune::Resilient => "Resilient"@,
        ResilientRune::Greater => "Greater Resilient"@,
        ResilientRune::Major => "Major Resilient"@,
    }
}

pub open spec fn resilient_next(r: ResilientRune) -> ResilientRune {
    match r {
        ResilientRune::NoRune => ResilientRune::Resilient,
        ResilientRune::Resilient => ResilientRune::Greater,
        ResilientRune::Greater => ResilientRune::Major,
        ResilientRune::Major => ResilientRune::NoRune,
    }
}

pub open spec fn resilient_prev(r: ResilientRune) -> ResilientRune {
    match r {
        ResilientRune::NoRune => ResilientRune::Major,
        ResilientRune::Resilient => ResilientRune::NoRune,
        ResilientRune::Greater => ResilientRune::Resilient,
        ResilientRune::Major => ResilientRune::Greater,
    }
}

impl ResilientRune {
    /// Save bonus from resilient rune (0/1/2/3).
    pub fn bonus(self) -> (r: i32)
        ensures
            r == resilient_bonus(self),
    {
        match self {
            Self::NoRune => 0,
            Self::Resilient => 1,
            Self::Greater => 2,
            Self::Major => 3,
        }
    }

    pub fn label(self) -> (r: &'static str)
        ensures
            r@ == resilient_label(self),
    {
        match self {
            Self::NoRune => "",
            Self::Resilient => "Resilient",
            Self::Greater => "Greater Resilient",
            Self::Major => "Major Resilient",
        }
    }

    pub fn next(self) -> (r: Self)
        ensures
            r == resilient_next(self),
    {
        match self {
            Self::NoRune => Self::Resilient,
            Self::Resilient => Self::Greater,
            Self::Greater => Self::Major,
            Self::Major => Self::NoRune,
        }
    }

    pub fn prev(self) -> (r: Self)
        ensures
            r == resilient_prev(self),
    {
        match self {
            Self::NoRune => Self::Major,
            Self::Resilient => Self::NoRune,
            Self::Greater => Self::Resilient,
            Self::Major => Self::Greater,
        }
    }
}

/// "+N " for a potency rune above 0, else nothing.
pub open spec fn potency_part(potency: u8) -> Seq<char> {
    if potency > 0 {
        seq!['+'] + decimal(potency as nat) + seq![' ']
    } else {
        Seq::empty()
    }
}

/// "LABEL " for a non-empty rune label, else nothing.
pub open spec fn label_part(label: Seq<char>) -> Seq<char> {
    if label.len() > 0 {
        label + seq![' ']
    } else {
        Seq::empty()
    }
}

/// Display name: potency, rune label and base name joined by single spaces.
pub open spec fn item_display(potency: u8, label: Seq<char>, name: Seq<char>) -> Seq<char> {
    potency_part(potency) + label_part(label) + name
}

/// Build the display name of a runed item.
fn build_display(potency: u8, label: &str, name: &str) -> (r: String)
    ensures
        r@ == item_display(potency, label@, name@),
{
    let mut s = String::new();
    if potency > 0 {
        s.append("+");
        let d = decimal_string(potency as u64);
        s.append(d.as_str());
        s.append(" ");
        proof {
            reveal_strlit("+");
            reveal_strlit(" ");
        }
    }
    assert(s@ =~= potency_part(potency));
    if label.unicode_len() > 0 {
        s.append(label);
        s.append(" ");
        proof {
            reveal_strlit(" ");
        }
    }
    assert(s@ =~= potency_part(potency) + label_part(label@));
    s.append(name);
    s
}

/// A weapon with its runes and base statistics.
#[derive(Debug, Clone)]
pub struct Weapon {
    pub name: String,
    pub potency: u8,
    pub striking: StrikingRune,
    pub property_runes: Vec<String>,
    pub material: Option<String>,
    pub damage_die: u8,
    pub damage_type: String,
    pub weapon_category: String,
    pub weapon_group: String,
    pub weapon_type: String,
    pub hands: String,
    pub traits: Vec<String>,
    pub range: u32,
}

/// Trait entry `t` matches the trait name `name`.
pub open spec fn trait_matches(t: Seq<char>, name: Seq<char>) -> bool {
    eq_ci(t, name) || has_prefix(lowercase(t), lowercase(name))
}

/// The damage die as text: "dN", or "d6" when no die is recorded.
pub open spec fn die_text(die: u8) -> Seq<char> {
    if die > 0 {
        seq!['d'] + decimal(die as nat)
    } else {
        "d6"@
    }
}

impl Weapon {
    pub fn display_name(&self) -> (r: String)
        ensures
            r@ == item_display(self.potency, striking_label(self.striking), self.name@),
    {
        build_display(self.potency, self.striking.label(), self.name.as_str())
    }

    pub fn is_ranged(&self) -> (r: bool)
        ensures
            r == eq_ci(self.weapon_type@, "Ranged"@),
    {
        eq_ignore_ascii_case(self.weapon_type.as_str(), "Ranged")
    }

    /// Some trait equals `name` (ASCII case-insensitively) or starts with it (lower-cased).
    pub fn has_trait(&self, name: &str) -> (r: bool)
        ensures
            r == exists|i: int|
                0 <= i < self.traits@.len() && trait_matches(#[trigger] self.traits@[i]@, name@),
    {
        let lname = to_lowercase(name);
        let mut i: usize = 0;
        while i < self.traits.len()
            invariant
                i <= self.traits.len(),
                lname@ == lowercase(name@),
                forall|j: int| 0 <= j < i ==> !trait_matches(#[trigger] self.traits@[j]@, name@),
            decreases self.traits.len() - i,
        {
            let t = &self.traits[i];
            if eq_ignore_ascii_case(t.as_str(), name) {
                assert(trait_matches(self.traits@[i as int]@, name@));
                return true;
            }
            let lt = to_lowercase(t.as_str());
            if starts_with(lt.as_str(), lname.as_str()) {
                assert(trait_matches(self.traits@[i as int]@, name@));
                return true;
            }
            i = i + 1;
        }
        false
    }

    pub fn damage_die_str(&self) -> (r: String)
        ensures
            r@ == die_text(self.damage_die),
    {
        if self.damage_die > 0 {
            let mut s = owned("d");
            let d = decimal_string(self.damage_die as u64);
            s.append(d.as_str());
            proof {
                reveal_strlit("d");
            }
            assert(s@ =~= seq!['d'] + decimal(self.damage_die as nat));
            s
        } else {
            owned("d6")
        }
    }
}

/// Armor with its runes and base statistics.
#[derive(Debug, Clone)]
pub struct Armor {
    pub name: String,
    pub potency: u8,
    pub resilient: ResilientRune,
    pub property_runes: Vec<String>,
    pub material: Option<String>,
    pub worn: bool,
    pub ac_bonus: i32,
    pub dex_cap: Option<i32>,
    pub armor_category: String,
    pub armor_group: String,
    pub check_penalty: i32,
    pub speed_penalty: i32,
    pub strength: u32,
}

impl Armor {
    pub fn display_name(&self) -> (r: String)
        ensures
            r@ == item_display(self.potency, resilient_label(self.resilient), self.name@),
    {
        build_display(self.potency, self.resilient.label(), self.name.as_str())
    }
}

/// A shield with its runes and base statistics.
#[derive(Debug, Clone)]
pub struct Shield {
    pub name: String,
    pub potency: u8,
    pub resilient: ResilientRune,
    pub property_runes: Vec<String>,
    pub raised: bool,
    pub ac_bonus: i32,
    pub hardness: i32,
    pub hp: i32,
}

impl Shield {
    /// Potency and name (a shield's resilient rune is not part of its name).
    pub fn display_name(&self) -> (r: String)
        ensures
            r@ == item_display(self.potency, ""@, self.name@),
    {
        build_display(self.potency, "", self.name.as_str())
    }
}

#[derive(Debug, Clone, Copy, PartialEq, Eq, Structural)]
pub struct Money {
    pub cp: u32,
    pub sp: u32,
    pub gp: u32,
    pub pp: u32,
}

impl Money {
    pub fn zero() -> (r: Money)
        ensures
            r == (Money { cp: 0, sp: 0, gp: 0, pp: 0 }),
    {
        Money { cp: 0, sp: 0, gp: 0, pp: 0 }
    }
}

#[derive(Debug, Clone)]
pub struct Item {
    pub name: String,
    pub quantity: u32,
    pub invested: bool,
    pub worn: bool,
}

/// Everything a character carries.
#[derive(Debug, Clone)]
pub struct Equipment {
    pub weapons: Vec<Weapon>,
    pub armor: Vec<Armor>,
    pub shield: Option<Shield>,
    pub items: Vec<Item>,
    pub money: Money,
}

impl Equipment {
    /// Nothing carried, no money.
    pub fn empty() -> (r: Equipment)
        ensures
            r.weapons@.len() == 0,
            r.armor@.len() == 0,
            r.shield is None,
            r.items@.len() == 0,
            r.money == Money::zero_spec(),
    {
        Equipment {
            weapons: Vec::new(),
            armor: Vec::new(),
            shield: None,
            items: Vec::new(),
            money: Money::zero(),
        }
    }
}

impl Money {
    pub open spec fn zero_spec() -> Money {
        Money { cp: 0, sp: 0, gp: 0, pp: 0 }
    }
}

} // verus!
