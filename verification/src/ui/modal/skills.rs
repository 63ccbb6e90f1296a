//! The skill increase and skill pick dialog.
use vstd::prelude::*;
use crate::model::proficiencies::{
    Rank, SKILL_COUNT, find_ci, lemma_first_ci, named_ranks, rank_bonus, rank_next, rank_of,
    skill_name, skill_name_spec,
};
use crate::text::{any_eq_ci, contains_ci, owned, strs};

verus! {

/// Abstract entries: (name, current rank, can be picked).
pub open spec fn entries_view(v: Seq<(String, Rank, bool)>) -> Seq<(Seq<char>, Rank, bool)> {
    v.map_values(|e: (String, Rank, bool)| (e.0@, e.1, e.2))
}

/// Dialog for picking a skill: the standard skills, then lores.
pub struct SkillModal {
    pub cursor: usize,
    /// (skill_name, current_rank, can_increase).
    pub skills: Vec<(String, Rank, bool)>,
    /// Lore skills at the end.
    pub lores: Vec<(String, Rank, bool)>,
}

/// Entry `i` of a first-level pick: the skill can be picked when it is untrained and
/// not already picked (names compared up to ASCII case).
pub open spec fn selection_entry(
    skills: Seq<(Seq<char>, Rank)>,
    already: Seq<Seq<char>>,
    i: int,
) -> (Seq<char>, Rank, bool) {
    let name = skill_name_spec(i);
    let rank = rank_of(skills, name);
    (name, rank, rank == Rank::Untrained && !any_eq_ci(already, name))
}

/// An entry of an increase: it can be raised when at least trained, below `max_rank`
/// and not yet at the top rank.
pub open spec fn increase_entry(name: Seq<char>, rank: Rank, max_rank: Rank) -> (Seq<char>, Rank, bool) {
    (name, rank, rank_bonus(rank) >= 2 && rank_bonus(rank) < rank_bonus(max_rank) && rank_next(rank) is Some)
}

/// All entries in display order.
pub open spec fn all_entries(m: SkillModal) -> Seq<(Seq<char>, Rank, bool)> {
    entries_view(m.skills@) + entries_view(m.lores@)
}

fn can_raise(rank: Rank, max_rank: Rank) -> (r: bool)
    ensures
        r == increase_entry(Seq::empty(), rank, max_rank).2,
{
    rank.bonus() >= 2 && rank.bonus() < max_rank.bonus() && rank.next().is_some()
}

fn recorded_rank(skills: &Vec<(String, Rank)>, name: &str) -> (r: Rank)
    ensures
        r == rank_of(named_ranks(skills@), name@),
{
    match find_ci(skills, name) {
        Some(i) => {
            proof {
                lemma_first_ci(named_ranks(skills@), name@, i as int);
            }
            skills[i].1
        },
        None => Rank::Untrained,
    }
}

/// `m` is the first-level skill pick for these skill ranks and earlier picks.
pub open spec fn skill_pick_modal(m: SkillModal, skills: Seq<(String, Rank)>, already: Seq<String>) -> bool {
    &&& m.cursor == 0
    &&& entries_view(m.skills@) == Seq::new(
        SKILL_COUNT as nat,
        |i: int| selection_entry(named_ranks(skills), strs(already), i),
    )
    &&& m.lores@.len() == 0
}

/// `m` is the skill increase for these skill and lore ranks up to `max_rank`.
pub open spec fn skill_increase_modal(m: SkillModal, skills: Seq<(String, Rank)>, lores: Seq<(String, Rank)>, max_rank: Rank) -> bool {
    &&& m.cursor == 0
    &&& entries_view(m.skills@) == Seq::new(
        SKILL_COUNT as nat,
        |i: int| increase_entry(skill_name_spec(i), rank_of(named_ranks(skills), skill_name_spec(i)), max_rank),
    )
    &&& entries_view(m.lores@) == named_ranks(lores).map_values(
        |p: (Seq<char>, Rank)| increase_entry(p.0, p.1, max_rank),
    )
}

/// `n` is the skill dialog `o` after Up.
pub open spec fn skill_cursor_up(o: SkillModal, n: SkillModal) -> bool {
    &&& n.cursor == (if o.cursor > 0 { o.cursor - 1 } else { 0 })
    &&& all_entries(n) == all_entries(o)
}

/// `n` is the skill dialog `o` after Down.
pub open spec fn skill_cursor_down(o: SkillModal, n: SkillModal) -> bool {
    &&& n.cursor == (if o.cursor + 1 < all_entries(o).len() {
            o.cursor + 1
        } else {
            o.cursor as int
        })
    &&& all_entries(n) == all_entries(o)
}

impl SkillModal {
    /// A dialog for the first-level skill picks: untrained skills not yet picked.
    pub fn new_selection(skills: &Vec<(String, Rank)>, already_selected: &Vec<String>) -> (r: Self)
        ensures
            skill_pick_modal(r, skills@, already_selected@),
    {
        let ghost target = Seq::new(
            SKILL_COUNT as nat,
            |i: int| selection_entry(named_ranks(skills@), strs(already_selected@), i),
        );
        let mut entries: Vec<(String, Rank, bool)> = Vec::new();
        let mut i: usize = 0;
        while i < SKILL_COUNT
            invariant
                i <= SKILL_COUNT,
                entries@.len() == i,
                forall|j: int| 0 <= j < i ==> #[trigger] entries_view(entries@)[j] == target[j],
                target == Seq::new(
                    SKILL_COUNT as nat,
                    |i: int| selection_entry(named_ranks(skills@), strs(already_selected@), i),
                ),
            decreases SKILL_COUNT - i,
        {
            let s = skill_name(i);
            let rank = recorded_rank(skills, s);
            let already = contains_ci(already_selected, s);
            // Can select if untrained and not already selected
            let can = rank == Rank::Untrained && !already;
            let ghost prev = entries@;
            entries.push((owned(s), rank, can));
            proof {
                assert(entries_view(entries@)[i as int] == target[i as int]);
                assert forall|j: int| 0 <= j < i implies #[trigger] entries_view(entries@)[j] == target[j] by {
                    assert(entries@[j] == prev[j]);
                    assert(entries_view(prev)[j] == target[j]);
                }
            }
            i = i + 1;
        }
        assert(entries_view(entries@) =~= target);
        SkillModal { cursor: 0, skills: entries, lores: Vec::new() }
    }

    /// A dialog for a skill increase: trained skills and lores below `max_rank`.
    pub fn new(skills: &Vec<(String, Rank)>, lores: &Vec<(String, Rank)>, max_rank: Rank) -> (r: Self)
        ensures
            skill_increase_modal(r, skills@, lores@, max_rank),
    {
        let ghost target = Seq::new(
            SKILL_COUNT as nat,
            |i: int| increase_entry(skill_name_spec(i), rank_of(named_ranks(skills@), skill_name_spec(i)), max_rank),
        );
        let mut entries: Vec<(String, Rank, bool)> = Vec::new();
        let mut i: usize = 0;
        while i < SKILL_COUNT
            invariant
                i <= SKILL_COUNT,
                entries@.len() == i,
                forall|j: int| 0 <= j < i ==> #[trigger] entries_view(entries@)[j] == target[j],
                target == Seq::new(
                    SKILL_COUNT as nat,
                    |i: int| increase_entry(skill_name_spec(i), rank_of(named_ranks(skills@), skill_name_spec(i)), max_rank),
                ),
            decreases SKILL_COUNT - i,
        {
            let s = skill_name(i);
            let rank = recorded_rank(skills, s);
            let can = can_raise(rank, max_rank);
            let ghost prev = entries@;
            entries.push((owned(s), rank, can));
            proof {
                assert(entries_view(entries@)[i as int] == target[i as int]);
                assert forall|j: int| 0 <= j < i implies #[trigger] entries_view(entries@)[j] == target[j] by {
                    assert(entries@[j] == prev[j]);
                    assert(entries_view(prev)[j] == target[j]);
                }
            }
            i = i + 1;
        }
        assert(entries_view(entries@) =~= target);
        let ghost ltarget = named_ranks(lores@).map_values(
            |p: (Seq<char>, Rank)| increase_entry(p.0, p.1, max_rank),
        );
        let mut lore_entries: Vec<(String, Rank, bool)> = Vec::new();
        let mut j: usize = 0;
        while j < lores.len()
            invariant
                j <= lores.len(),
                lore_entries@.len() == j,
                forall|k: int| 0 <= k < j ==> #[trigger] entries_view(lore_entries@)[k] == ltarget[k],
                ltarget == named_ranks(lores@).map_values(
                    |p: (Seq<char>, Rank)| increase_entry(p.0, p.1, max_rank),
                ),
            decreases lores.len() - j,
        {
            let rank = lores[j].1;
            let can = can_raise(rank, max_rank);
            let ghost prev = lore_entries@;
            lore_entries.push((owned(lores[j].0.as_str()), rank, can));
            proof {
                assert(entries_view(lore_entries@)[j as int] == ltarget[j as int]);
                assert forall|k: int| 0 <= k < j implies #[trigger] entries_view(lore_entries@)[k] == ltarget[k] by {
                    assert(lore_entries@[k] == prev[k]);
                    assert(entries_view(prev)[k] == ltarget[k]);
                }
            }
            j = j + 1;
        }
        assert(entries_view(lore_entries@) =~= ltarget);
        SkillModal { cursor: 0, skills: entries, lores: lore_entries }
    }

    pub fn move_up(&mut self)
        ensures
            skill_cursor_up(*old(self), *final(self)),
    {
        if self.cursor > 0 {
            self.cursor = self.cursor - 1;
        }
    }

    pub fn move_down(&mut self)
        requires
            old(self).skills@.len() + old(self).lores@.len() <= usize::MAX,
            old(self).cursor < usize::MAX,
        ensures
            skill_cursor_down(*old(self), *final(self)),
    {
        let n = self.skills.len();
        let m = self.lores.len();
        assert(all_entries(*self).len() == n + m);
        if self.cursor + 1 < n + m {
            self.cursor = self.cursor + 1;
        }
    }

    /// The name under the cursor, when that entry can be picked.
    pub fn selected(&self) -> (r: Option<&str>)
        ensures
            match r {
                Some(s) => self.cursor < all_entries(*self).len() && all_entries(*self)[self.cursor as int].2
                    && s@ == all_entries(*self)[self.cursor as int].0,
                None => !(self.cursor < all_entries(*self).len() && all_entries(*self)[self.cursor as int].2),
            },
    {
        let ghost all = all_entries(*self);
        if self.cursor < self.skills.len() {
            assert(all[self.cursor as int] == entries_view(self.skills@)[self.cursor as int]);
            if self.skills[self.cursor].2 {
                Some(self.skills[self.cursor].0.as_str())
            } else {
                None
            }
        } else {
            let k = self.cursor - self.skills.len();
            if k < self.lores.len() {
                assert(all[self.cursor as int] == entries_view(self.lores@)[k as int]);
                if self.lores[k].2 {
                    Some(self.lores[k].0.as_str())
                } else {
                    None
                }
            } else {
                None
            }
        }
    }
}

} // verus!
