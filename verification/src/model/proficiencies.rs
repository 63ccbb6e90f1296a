//! Proficiency ranks and a character's proficiencies.
use vstd::prelude::*;
use crate::text::{eq_ci, eq_ignore_ascii_case, owned};

verus! {

/// Proficiency rank, ordered Untrained < Trained < Expert < Master < Legendary.
#[derive(Debug, Clone, Copy, PartialEq, Eq, PartialOrd, Ord, Hash, Structural)]
pub enum Rank {
    Untrained,
    Trained,
    Expert,
    Master,
    Legendary,
}

/// Numeric bonus of a rank: 0, 2, 4, 6, 8.
pub open spec fn rank_bonus(r: Rank) -> int {
    match r {
        Rank::Untrained => 0,
        Rank::Trained => 2,
        Rank::Expert => 4,
        Rank::Master => 6,
        Rank::Legendary => 8,
    }
}

/// The next rank up, if any.
pub open spec fn rank_next(r: Rank) -> Option<Rank> {
    match r {
        Rank::Untrained => Some(Rank::Trained),
        Rank::Trained => Some(Rank::Expert),
        Rank::Expert => Some(Rank::Master),
        Rank::Master => Some(Rank::Legendary),
        Rank::Legendary => None,
    }
}

/// Display label of a rank.
pub open spec fn rank_label(r: Rank) -> Seq<char> {
    match r {
        Rank::Untrained => "Untrained"@,
        Rank::Trained => "Trained"@,
        Rank::Expert => "Expert"@,
        Rank::Master => "Master"@,
        Rank::Legendary => "Legendary"@,
    }
}

/// The greater of two ranks.
pub open spec fn rank_max(a: Rank, b: Rank) -> Rank {
    if rank_bonus(b) > rank_bonus(a) {
        b
    } else {
        a
    }
}

impl Default for Rank {
    fn default() -> (r: Rank)
        ensures
            r == Rank::Untrained,
    {
        Rank::Untrained
    }
}

impl Rank {
    pub fn label(&self) -> (r: &'static str)
        ensures
            r@ == rank_label(*self),
    {
        match self {
            Rank::Untrained => "Untrained",
            Rank::Trained => "Trained",
            Rank::Expert => "Expert",
            Rank::Master => "Master",
            Rank::Legendary => "Legendary",
        }
    }

    /// Proficiency bonus of this rank (before adding the level).
    pub fn bonus(&self) -> (r: i32)
        ensures
            r == rank_bonus(*self),
    {
        match self {
            Rank::Untrained => 0,
            Rank::Trained => 2,
            Rank::Expert => 4,
            Rank::Master => 6,
            Rank::Legendary => 8,
        }
    }

    pub fn next(self) -> (r: Option<Rank>)
        ensures
            r == rank_next(self),
    {
        match self {
            Rank::Untrained => Some(Rank::Trained),
            Rank::Trained => Some(Rank::Expert),
            Rank::Expert => Some(Rank::Master),
            Rank::Master => Some(Rank::Legendary),
            Rank::Legendary => None,
        }
    }

    /// `self` is strictly above `other` in the rank order.
    pub fn above(self, other: Rank) -> (r: bool)
        ensures
            r == (rank_bonus(self) > rank_bonus(other)),
    {
        self.bonus() > other.bonus()
    }
}

/// Number of standard skills.
pub const SKILL_COUNT: usize = 16;

/// The standard PF2e skill names, in alphabetical order.
pub open spec fn skill_name_spec(i: int) -> Seq<char> {
    if i == 0 {
        "Acrobatics"@
    } else if i == 1 {
        "Arcana"@
    } else if i == 2 {
        "Athletics"@
    } else if i == 3 {
        "Crafting"@
    } else if i == 4 {
        "Deception"@
    } else if i == 5 {
        "Diplomacy"@
    } else if i == 6 {
        "Intimidation"@
    } else if i == 7 {
        "Medicine"@
    } else if i == 8 {
        "Nature"@
    } else if i == 9 {
        "Occultism"@
    } else if i == 10 {
        "Performance"@
    } else if i == 11 {
        "Religion"@
    } else if i == 12 {
        "Society"@
    } else if i == 13 {
        "Stealth"@
    } else if i == 14 {
        "Survival"@
    } else {
        "Thievery"@
    }
}

/// The `i`-th standard skill name.
pub fn skill_name(i: usize) -> (r: &'static str)
    requires
        i < SKILL_COUNT,
    ensures
        r@ == skill_name_spec(i as int),
{
    match i {
        0 => "Acrobatics",
        1 => "Arcana",
        2 => "Athletics",
        3 => "Crafting",
        4 => "Deception",
        5 => "Diplomacy",
        6 => "Intimidation",
        7 => "Medicine",
        8 => "Nature",
        9 => "Occultism",
        10 => "Performance",
        11 => "Religion",
        12 => "Society",
        13 => "Stealth",
        14 => "Survival",
        _ => "Thievery",
    }
}

/// A named rank list as abstract pairs.
pub open spec fn named_ranks(v: Seq<(String, Rank)>) -> Seq<(Seq<char>, Rank)> {
    v.map_values(|p: (String, Rank)| (p.0@, p.1))
}

/// Entry `i` is the first whose name matches `name` case-insensitively.
pub open spec fn is_first_ci(s: Seq<(Seq<char>, Rank)>, name: Seq<char>, i: int) -> bool {
    0 <= i < s.len() && eq_ci(s[i].0, name) && forall|j: int|
        0 <= j < i ==> !eq_ci(#[trigger] s[j].0, name)
}

/// Some entry's name matches `name` case-insensitively.
pub open spec fn has_ci(s: Seq<(Seq<char>, Rank)>, name: Seq<char>) -> bool {
    exists|i: int| 0 <= i < s.len() && eq_ci(#[trigger] s[i].0, name)
}

/// Index of the first case-insensitive match.
pub open spec fn first_ci(s: Seq<(Seq<char>, Rank)>, name: Seq<char>) -> int {
    choose|i: int| is_first_ci(s, name, i)
}

/// The rank recorded for `name` (first case-insensitive match), else Untrained.
pub open spec fn rank_of(s: Seq<(Seq<char>, Rank)>, name: Seq<char>) -> Rank {
    if has_ci(s, name) {
        s[first_ci(s, name)].1
    } else {
        Rank::Untrained
    }
}

/// Raise the rank of `name` to at least `rank`, adding it when absent.
pub open spec fn train_spec(s: Seq<(Seq<char>, Rank)>, name: Seq<char>, rank: Rank) -> Seq<
    (Seq<char>, Rank),
> {
    if has_ci(s, name) {
        let i = first_ci(s, name);
        s.update(i, (s[i].0, rank_max(s[i].1, rank)))
    } else {
        s.push((name, rank))
    }
}

/// Whether `increase_spec` changes anything.
pub open spec fn can_increase(s: Seq<(Seq<char>, Rank)>, name: Seq<char>) -> bool {
    has_ci(s, name) && rank_next(s[first_ci(s, name)].1) is Some
}

/// Increase the rank of `name` by one step if it is present and not Legendary.
pub open spec fn increase_spec(s: Seq<(Seq<char>, Rank)>, name: Seq<char>) -> Seq<
    (Seq<char>, Rank),
> {
    if can_increase(s, name) {
        let i = first_ci(s, name);
        s.update(i, (s[i].0, rank_next(s[i].1).unwrap()))
    } else {
        s
    }
}

/// Add a lore at Trained unless one with that name (case-insensitively) exists.
pub open spec fn add_lore_spec(s: Seq<(Seq<char>, Rank)>, name: Seq<char>) -> Seq<
    (Seq<char>, Rank),
> {
    if has_ci(s, name) {
        s
    } else {
        s.push((name, Rank::Trained))
    }
}

/// The first matching entry is the unique one satisfying `is_first_ci`.
pub proof fn lemma_first_ci(s: Seq<(Seq<char>, Rank)>, name: Seq<char>, i: int)
    requires
        is_first_ci(s, name, i),
    ensures
        has_ci(s, name),
        first_ci(s, name) == i,
{
    assert(exists|k: int| is_first_ci(s, name, k));
    let k = first_ci(s, name);
    if k < i {
        assert(!eq_ci(s[k].0, name));
    } else if k > i {
        assert(!eq_ci(s[i].0, name));
    }
}

/// Some entry matching `name` makes a first match exist.
proof fn lemma_first_exists(s: Seq<(Seq<char>, Rank)>, name: Seq<char>, j: int)
    requires
        0 <= j < s.len(),
        eq_ci(s[j].0, name),
    ensures
        is_first_ci(s, name, first_ci(s, name)),
    decreases j,
{
    if exists|k: int| 0 <= k < j && eq_ci(#[trigger] s[k].0, name) {
        let k = choose|k: int| 0 <= k < j && eq_ci(#[trigger] s[k].0, name);
        lemma_first_exists(s, name, k);
    } else {
        assert(is_first_ci(s, name, j));
    }
}

/// When some entry matches `name`, `first_ci` is the index of the first match, within
/// the sequence.
pub proof fn lemma_has_first(s: Seq<(Seq<char>, Rank)>, name: Seq<char>)
    requires
        has_ci(s, name),
    ensures
        is_first_ci(s, name, first_ci(s, name)),
{
    let j = choose|j: int| 0 <= j < s.len() && eq_ci(#[trigger] s[j].0, name);
    lemma_first_exists(s, name, j);
}

/// Training never lowers a rank: the entry ends at the higher of its old rank and the
/// one given; training again to the same rank changes nothing.
pub proof fn law_train_never_downgrades(s: Seq<(Seq<char>, Rank)>, name: Seq<char>, rank: Rank)
    ensures
        rank_of(train_spec(s, name, rank), name) == rank_max(rank_of(s, name), rank),
        rank_bonus(rank_of(train_spec(s, name, rank), name)) >= rank_bonus(rank_of(s, name)),
        rank_bonus(rank_of(train_spec(s, name, rank), name)) >= rank_bonus(rank),
        train_spec(train_spec(s, name, rank), name, rank) == train_spec(s, name, rank),
{
    let t = train_spec(s, name, rank);
    if has_ci(s, name) {
        lemma_has_first(s, name);
        let i = first_ci(s, name);
        assert(is_first_ci(t, name, i));
        lemma_first_ci(t, name, i);
        assert(t.update(i, (t[i].0, rank_max(t[i].1, rank))) =~= t);
    } else {
        let n = s.len() as int;
        assert(t[n] == (name, rank));
        assert(is_first_ci(t, name, n));
        lemma_first_ci(t, name, n);
        assert(t.update(n, (t[n].0, rank_max(t[n].1, rank))) =~= t);
    }
}

/// Increasing a skill that can be increased raises it exactly one rank; otherwise
/// nothing changes.
pub proof fn law_increase_one_rank(s: Seq<(Seq<char>, Rank)>, name: Seq<char>)
    ensures
        can_increase(s, name) ==> rank_of(increase_spec(s, name), name) == rank_next(rank_of(s, name)).unwrap(),
        can_increase(s, name) ==> rank_bonus(rank_of(increase_spec(s, name), name)) == rank_bonus(rank_of(s, name)) + 2,
        !can_increase(s, name) ==> increase_spec(s, name) == s,
{
    if can_increase(s, name) {
        lemma_has_first(s, name);
        let i = first_ci(s, name);
        let t = increase_spec(s, name);
        assert(is_first_ci(t, name, i));
        lemma_first_ci(t, name, i);
    }
}

/// Abstract value of `Proficiencies`.
pub struct ProficienciesView {
    pub perception: Rank,
    pub fortitude: Rank,
    pub reflex: Rank,
    pub will: Rank,
    pub unarmored: Rank,
    pub light_armor: Rank,
    pub medium_armor: Rank,
    pub heavy_armor: Rank,
    pub simple_weapons: Rank,
    pub martial_weapons: Rank,
    pub unarmed: Rank,
    pub skills: Seq<(Seq<char>, Rank)>,
    pub lores: Seq<(Seq<char>, Rank)>,
}

/// A character's proficiency ranks.
#[derive(Debug, Clone)]
pub struct Proficiencies {
    pub perception: Rank,
    pub fortitude: Rank,
    pub reflex: Rank,
    pub will: Rank,
    pub unarmored: Rank,
    pub light_armor: Rank,
    pub medium_armor: Rank,
    pub heavy_armor: Rank,
    pub simple_weapons: Rank,
    pub martial_weapons: Rank,
    pub unarmed: Rank,
    /// Standard skill proficiencies: (skill_name, rank).
    pub skills: Vec<(String, Rank)>,
    /// Lore skill proficiencies: (lore_name, rank).
    pub lores: Vec<(String, Rank)>,
}

impl View for Proficiencies {
    type V = ProficienciesView;

    open spec fn view(&self) -> ProficienciesView {
        ProficienciesView {
            perception: self.perception,
            fortitude: self.fortitude,
            reflex: self.reflex,
            will: self.will,
            unarmored: self.unarmored,
            light_armor: self.light_armor,
            medium_armor: self.medium_armor,
            heavy_armor: self.heavy_armor,
            simple_weapons: self.simple_weapons,
            martial_weapons: self.martial_weapons,
            unarmed: self.unarmed,
            skills: named_ranks(self.skills@),
            lores: named_ranks(self.lores@),
        }
    }
}

/// The proficiencies of a fresh character: everything Untrained, no skills, no lores.
pub open spec fn untrained_profs() -> ProficienciesView {
    ProficienciesView {
        perception: Rank::Untrained,
        fortitude: Rank::Untrained,
        reflex: Rank::Untrained,
        will: Rank::Untrained,
        unarmored: Rank::Untrained,
        light_armor: Rank::Untrained,
        medium_armor: Rank::Untrained,
        heavy_armor: Rank::Untrained,
        simple_weapons: Rank::Untrained,
        martial_weapons: Rank::Untrained,
        unarmed: Rank::Untrained,
        skills: Seq::empty(),
        lores: Seq::empty(),
    }
}

/// Index of the first entry of `v` whose name matches `name` case-insensitively.
pub fn find_ci(v: &Vec<(String, Rank)>, name: &str) -> (r: Option<usize>)
    ensures
        match r {
            Some(i) => is_first_ci(named_ranks(v@), name@, i as int),
            None => !has_ci(named_ranks(v@), name@),
        },
{
    let ghost s = named_ranks(v@);
    let mut i: usize = 0;
    while i < v.len()
        invariant
            i <= v.len(),
            s == named_ranks(v@),
            forall|j: int| 0 <= j < i ==> !eq_ci(#[trigger] s[j].0, name@),
        decreases v.len() - i,
    {
        if eq_ignore_ascii_case(v[i].0.as_str(), name) {
            return Some(i);
        }
        i = i + 1;
    }
    None
}

impl Proficiencies {
    /// Everything Untrained, no skills, no lores.
    pub fn new() -> (r: Proficiencies)
        ensures
            r@ == untrained_profs(),
    {
        let r = Proficiencies {
            perception: Rank::Untrained,
            fortitude: Rank::Untrained,
            reflex: Rank::Untrained,
            will: Rank::Untrained,
            unarmored: Rank::Untrained,
            light_armor: Rank::Untrained,
            medium_armor: Rank::Untrained,
            heavy_armor: Rank::Untrained,
            simple_weapons: Rank::Untrained,
            martial_weapons: Rank::Untrained,
            unarmed: Rank::Untrained,
            skills: Vec::new(),
            lores: Vec::new(),
        };
        assert(r@.skills =~= Seq::empty());
        assert(r@.lores =~= Seq::empty());
        r
    }

    /// Get skill rank, defaulting to Untrained.
    pub fn skill_rank(&self, skill: &str) -> (r: Rank)
        ensures
            r == rank_of(self@.skills, skill@),
    {
        match find_ci(&self.skills, skill) {
            Some(i) => {
                proof {
                    lemma_first_ci(self@.skills, skill@, i as int);
                }
                self.skills[i].1
            },
            None => Rank::Untrained,
        }
    }

    /// Set skill to at least the given rank (never downgrades).
    pub fn train_skill(&mut self, skill: &str, rank: Rank)
        ensures
            final(self)@ == (ProficienciesView {
                skills: train_spec(old(self)@.skills, skill@, rank),
                ..old(self)@
            }),
    {
        match find_ci(&self.skills, skill) {
            Some(i) => {
                proof {
                    lemma_first_ci(self@.skills, skill@, i as int);
                }
                if rank.above(self.skills[i].1) {
                    let name = self.skills[i].0.clone();
                    self.skills.set(i, (name, rank));
                }
                proof {
                    let s = train_spec(old(self)@.skills, skill@, rank);
                    assert(named_ranks(self.skills@) =~= s);
                }
            },
            None => {
                self.skills.push((owned(skill), rank));
                proof {
                    let s = train_spec(old(self)@.skills, skill@, rank);
                    assert(named_ranks(self.skills@) =~= s);
                }
            },
        }
    }

    /// Increase a skill by one rank. Returns true if successful.
    pub fn increase_skill(&mut self, skill: &str) -> (r: bool)
        ensures
            r == can_increase(old(self)@.skills, skill@),
            final(self)@ == (ProficienciesView {
                skills: increase_spec(old(self)@.skills, skill@),
                ..old(self)@
            }),
    {
        match find_ci(&self.skills, skill) {
            Some(i) => {
                proof {
                    lemma_first_ci(self@.skills, skill@, i as int);
                }
                match self.skills[i].1.next() {
                    Some(next) => {
                        let name = self.skills[i].0.clone();
                        self.skills.set(i, (name, next));
                        proof {
                            let s = increase_spec(old(self)@.skills, skill@);
                            assert(named_ranks(self.skills@) =~= s);
                        }
                        true
                    },
                    None => false,
                }
            },
            None => false,
        }
    }

    /// Add a lore skill at Trained.
    pub fn add_lore(&mut self, lore: &str)
        ensures
            final(self)@ == (ProficienciesView {
                lores: add_lore_spec(old(self)@.lores, lore@),
                ..old(self)@
            }),
    {
        match find_ci(&self.lores, lore) {
            Some(i) => {
                proof {
                    lemma_first_ci(self@.lores, lore@, i as int);
                }
            },
            None => {
                self.lores.push((owned(lore), Rank::Trained));
                proof {
                    assert(named_ranks(self.lores@) =~= add_lore_spec(old(self)@.lores, lore@));
                }
            },
        }
    }
}

} // verus!
