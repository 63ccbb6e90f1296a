//! The six abilities, boosts and flaws, and the scores they yield.
use vstd::prelude::*;

verus! {

/// One of the six PF2e abilities.
#[derive(Debug, Clone, Copy, PartialEq, Eq, Hash, Structural)]
pub enum Ability {
    Strength,
    Dexterity,
    Constitution,
    Intelligence,
    Wisdom,
    Charisma,
}

/// Three-letter abbreviation of an ability.
pub open spec fn abbr_spec(a: Ability) -> Seq<char> {
    match a {
        Ability::Strength => "STR"@,
        Ability::Dexterity => "DEX"@,
        Ability::Constitution => "CON"@,
        Ability::Intelligence => "INT"@,
        Ability::Wisdom => "WIS"@,
        Ability::Charisma => "CHA"@,
    }
}

/// The ability at position `i` of the canonical order STR, DEX, CON, INT, WIS, CHA.
pub open spec fn ability_at(i: int) -> Ability {
    if i == 0 {
        Ability::Strength
    } else if i == 1 {
        Ability::Dexterity
    } else if i == 2 {
        Ability::Constitution
    } else if i == 3 {
        Ability::Intelligence
    } else if i == 4 {
        Ability::Wisdom
    } else {
        Ability::Charisma
    }
}

impl Ability {
    /// Number of abilities.
    pub const COUNT: usize = 6;

    /// The ability at position `i` of the canonical order (STR, DEX, CON, INT, WIS, CHA).
    pub fn from_index(i: usize) -> (r: Ability)
        requires
            i < 6,
        ensures
            r == ability_at(i as int),
    {
        match i {
            0 => Ability::Strength,
            1 => Ability::Dexterity,
            2 => Ability::Constitution,
            3 => Ability::Intelligence,
            4 => Ability::Wisdom,
            _ => Ability::Charisma,
        }
    }

    /// Three-letter abbreviation ("STR", "DEX", ...).
    pub fn abbr(&self) -> (r: &'static str)
        ensures
            r@ == abbr_spec(*self),
    {
        match self {
            Ability::Strength => "STR",
            Ability::Dexterity => "DEX",
            Ability::Constitution => "CON",
            Ability::Intelligence => "INT",
            Ability::Wisdom => "WIS",
            Ability::Charisma => "CHA",
        }
    }
}

/// A boost (or flaw) together with the source that granted it.
#[derive(Debug, Clone)]
pub struct BoostSource {
    pub source: String,
    pub ability: Ability,
}

impl View for BoostSource {
    type V = (Seq<char>, Ability);

    open spec fn view(&self) -> (Seq<char>, Ability) {
        (self.source@, self.ability)
    }
}

/// Views of a sequence of boost sources.
pub open spec fn sources_view(s: Seq<BoostSource>) -> Seq<(Seq<char>, Ability)> {
    s.map_values(|b: BoostSource| b@)
}

/// Abstract value of `Abilities`.
pub struct AbilitiesView {
    pub boosts: Seq<(Seq<char>, Ability)>,
    pub flaws: Seq<(Seq<char>, Ability)>,
}

/// All boosts and flaws of a character.
#[derive(Debug, Clone)]
pub struct Abilities {
    pub boosts: Vec<BoostSource>,
    pub flaws: Vec<BoostSource>,
}

impl View for Abilities {
    type V = AbilitiesView;

    open spec fn view(&self) -> AbilitiesView {
        AbilitiesView { boosts: sources_view(self.boosts@), flaws: sources_view(self.flaws@) }
    }
}

/// Number of entries of `s` for ability `a`.
pub open spec fn count_ability(s: Seq<(Seq<char>, Ability)>, a: Ability) -> nat
    decreases s.len(),
{
    if s.len() == 0 {
        0
    } else {
        count_ability(s.drop_last(), a) + if s.last().1 == a {
            1nat
        } else {
            0nat
        }
    }
}

/// Largest number of boosts or of flaws for which the score arithmetic stays in range.
pub const MAX_ENTRIES: usize = 0x3fff_fff0;

impl AbilitiesView {
    /// Score = 10 + 2 per boost - 2 per flaw.
    pub open spec fn score(self, a: Ability) -> int {
        10 + 2 * count_ability(self.boosts, a) - 2 * count_ability(self.flaws, a)
    }

    /// Modifier = (score - 10) / 2, which is boosts - flaws.
    pub open spec fn modifier(self, a: Ability) -> int {
        count_ability(self.boosts, a) - count_ability(self.flaws, a)
    }

    /// The lists are short enough for the score arithmetic.
    pub open spec fn bounded(self) -> bool {
        self.boosts.len() <= MAX_ENTRIES && self.flaws.len() <= MAX_ENTRIES
    }
}

/// `count_ability` never exceeds the length.
pub proof fn lemma_count_le_len(s: Seq<(Seq<char>, Ability)>, a: Ability)
    ensures
        count_ability(s, a) <= s.len(),
    decreases s.len(),
{
    if s.len() > 0 {
        lemma_count_le_len(s.drop_last(), a);
    }
}

/// The modifier of a bounded ability list lies within the entry bound.
pub proof fn lemma_modifier_bounds(v: AbilitiesView, a: Ability)
    requires
        v.bounded(),
    ensures
        -(MAX_ENTRIES as int) <= v.modifier(a) <= MAX_ENTRIES as int,
{
    lemma_count_le_len(v.boosts, a);
    lemma_count_le_len(v.flaws, a);
}

/// Count the entries of `v` that are for ability `a`.
fn count_in(v: &Vec<BoostSource>, a: Ability) -> (r: usize)
    ensures
        r == count_ability(sources_view(v@), a),
{
    let mut n: usize = 0;
    let mut i: usize = 0;
    while i < v.len()
        invariant
            i <= v.len(),
            n == count_ability(sources_view(v@).take(i as int), a),
            n <= i,
        decreases v.len() - i,
    {
        let ghost s = sources_view(v@);
        assert(s.take(i + 1).drop_last() =~= s.take(i as int));
        if v[i].ability == a {
            n = n + 1;
        }
        i = i + 1;
    }
    assert(sources_view(v@).take(i as int) =~= sources_view(v@));
    n
}

impl Abilities {
    /// No boosts and no flaws.
    pub fn new() -> (r: Abilities)
        ensures
            r@.boosts.len() == 0,
            r@.flaws.len() == 0,
    {
        Abilities { boosts: Vec::new(), flaws: Vec::new() }
    }

    /// Ability score: 10, +2 per boost, -2 per flaw.
    pub fn score(&self, ability: Ability) -> (r: i32)
        requires
            self@.bounded(),
        ensures
            r == self@.score(ability),
    {
        let b = count_in(&self.boosts, ability);
        let f = count_in(&self.flaws, ability);
        proof {
            lemma_count_le_len(self@.boosts, ability);
            lemma_count_le_len(self@.flaws, ability);
        }
        let base: i32 = 10;
        base + (b as i32) * 2 - (f as i32) * 2
    }

    /// Ability modifier: (score - 10) / 2.
    pub fn modifier(&self, ability: Ability) -> (r: i32)
        requires
            self@.bounded(),
        ensures
            r == self@.modifier(ability),
    {
        proof {
            lemma_count_le_len(self@.boosts, ability);
            lemma_count_le_len(self@.flaws, ability);
        }
        let s = self.score(ability);
        let d = s - 10;
        let r = d / 2;
        assert(d == 2 * self@.modifier(ability));
        assert(r == self@.modifier(ability)) by (nonlinear_arith)
            requires
                d == 2 * self@.modifier(ability),
                r == d / 2,
        ;
        r
    }
}

/// Describes what boosts a source (ancestry/background/class) offers.
#[derive(Debug, Clone, PartialEq, Eq)]
pub struct BoostSpec {
    /// Fixed ability boosts.
    pub fixed: Vec<Ability>,
    /// Number of free boosts the user can assign.
    pub free: u8,
    /// Ability flaws (ancestry only).
    pub flaws: Vec<Ability>,
}

impl BoostSpec {
    /// No fixed boosts, no free boosts, no flaws.
    pub fn empty() -> (r: BoostSpec)
        ensures
            r.fixed@.len() == 0,
            r.free == 0,
            r.flaws@.len() == 0,
    {
        BoostSpec { fixed: Vec::new(), free: 0, flaws: Vec::new() }
    }

    /// A copy with the same contents.
    pub fn copy(&self) -> (r: BoostSpec)
        ensures
            r.fixed@ == self.fixed@,
            r.free == self.free,
            r.flaws@ == self.flaws@,
    {
        BoostSpec { fixed: copy_abilities(&self.fixed), free: self.free, flaws: copy_abilities(&self.flaws) }
    }
}

/// A copy of a list of abilities.
pub fn copy_abilities(v: &Vec<Ability>) -> (r: Vec<Ability>)
    ensures
        r@ == v@,
{
    let mut out: Vec<Ability> = Vec::new();
    let mut i: usize = 0;
    while i < v.len()
        invariant
            i <= v.len(),
            out@ == v@.take(i as int),
        decreases v.len() - i,
    {
        out.push(v[i]);
        i = i + 1;
        assert(out@ =~= v@.take(i as int));
    }
    assert(out@ =~= v@);
    out
}

} // verus!
