//! The ability boost assignment dialog.
use vstd::prelude::*;
use vstd::string::StringExecFns;
use crate::model::abilities::{Ability, BoostSpec, ability_at, copy_abilities};
use crate::text::{decimal, decimal_string, owned};

verus! {

/// A single boost group the user must assign (ancestry, background, class, free).
pub struct BoostGroup {
    pub label: String,
    pub source: String,
    /// Fixed boosts auto-applied (not chooseable).
    pub fixed: Vec<Ability>,
    /// Number of free picks.
    pub free_count: u8,
    /// User's free picks so far.
    pub chosen: Vec<Ability>,
    /// Flaws from this source.
    pub flaws: Vec<Ability>,
    /// Whether this group supports the alternative ancestry rule
    /// (replace fixed+flaws with 2 free boosts).
    pub can_use_alternate: bool,
    /// Whether the alternate mode is active.
    pub alternate_active: bool,
    /// Stashed original values when toggling alternate mode.
    pub alternate_fixed: Vec<Ability>,
    pub alternate_free: u8,
    pub alternate_flaws: Vec<Ability>,
}

/// Abstract value of a boost group.
pub struct BoostGroupView {
    pub label: Seq<char>,
    pub source: Seq<char>,
    pub fixed: Seq<Ability>,
    pub free_count: u8,
    pub chosen: Seq<Ability>,
    pub flaws: Seq<Ability>,
    pub can_use_alternate: bool,
    pub alternate_active: bool,
    pub alternate_fixed: Seq<Ability>,
    pub alternate_free: u8,
    pub alternate_flaws: Seq<Ability>,
}

impl View for BoostGroup {
    type V = BoostGroupView;

    open spec fn view(&self) -> BoostGroupView {
        BoostGroupView {
            label: self.label@,
            source: self.source@,
            fixed: self.fixed@,
            free_count: self.free_count,
            chosen: self.chosen@,
            flaws: self.flaws@,
            can_use_alternate: self.can_use_alternate,
            alternate_active: self.alternate_active,
            alternate_fixed: self.alternate_fixed@,
            alternate_free: self.alternate_free,
            alternate_flaws: self.alternate_flaws@,
        }
    }
}

/// Views of a list of groups.
pub open spec fn groups_view(v: Seq<BoostGroup>) -> Seq<BoostGroupView> {
    v.map_values(|g: BoostGroup| g@)
}

/// The dialog: its groups and the cursor within them.
pub struct BoostModal {
    pub groups: Vec<BoostGroup>,
    /// Which group is focused.
    pub group_cursor: usize,
    /// Which ability is highlighted within the focused group.
    pub ability_cursor: usize,
}

/// The parts of a boost spec: fixed boosts, free boosts, flaws.
pub type SpecParts = (Seq<Ability>, u8, Seq<Ability>);

/// The parts of a boost spec.
pub open spec fn parts(spec: BoostSpec) -> SpecParts {
    (spec.fixed@, spec.free, spec.flaws@)
}

/// The parts of a spec offering nothing.
pub open spec fn no_parts() -> SpecParts {
    (Seq::empty(), 0, Seq::empty())
}

/// A group for `spec` under the given label and source, without the alternate rule.
pub open spec fn plain_group(label: Seq<char>, source: Seq<char>, spec: SpecParts) -> BoostGroupView {
    BoostGroupView {
        label,
        source,
        fixed: spec.0,
        free_count: spec.1,
        chosen: Seq::empty(),
        flaws: spec.2,
        can_use_alternate: false,
        alternate_active: false,
        alternate_fixed: Seq::empty(),
        alternate_free: 0,
        alternate_flaws: Seq::empty(),
    }
}

/// The ancestry group, which may use the alternate boosts when it has fixed boosts.
pub open spec fn ancestry_group(spec: SpecParts) -> BoostGroupView {
    BoostGroupView {
        label: "Ancestry"@,
        source: "ancestry"@,
        fixed: spec.0,
        free_count: spec.1,
        chosen: Seq::empty(),
        flaws: spec.2,
        can_use_alternate: spec.0.len() > 0,
        alternate_active: false,
        alternate_fixed: spec.0,
        alternate_free: spec.1,
        alternate_flaws: spec.2,
    }
}

/// A group of `free` free boosts.
pub open spec fn free_group(label: Seq<char>, source: Seq<char>, free: u8) -> BoostGroupView {
    BoostGroupView {
        label,
        source,
        fixed: Seq::empty(),
        free_count: free,
        chosen: Seq::empty(),
        flaws: Seq::empty(),
        can_use_alternate: false,
        alternate_active: false,
        alternate_fixed: Seq::empty(),
        alternate_free: 0,
        alternate_flaws: Seq::empty(),
    }
}

/// A spec offers something: fixed boosts or free boosts.
pub open spec fn offers(spec: SpecParts) -> bool {
    spec.0.len() > 0 || spec.1 > 0
}

/// The groups of a new dialog: ancestry, background and class when they offer
/// boosts, then 4 free boosts for the level.
pub open spec fn groups_for(a: SpecParts, b: SpecParts, c: SpecParts, level: u8) -> Seq<BoostGroupView> {
    (if offers(a) { seq![ancestry_group(a)] } else { Seq::empty() })
    + (if offers(b) { seq![plain_group("Background"@, "background"@, b)] } else { Seq::empty() })
    + (if offers(c) { seq![plain_group("Class"@, "class"@, c)] } else { Seq::empty() })
    + seq![if level == 1 {
        free_group("Free"@, "level_1"@, 4)
    } else {
        free_group("Level "@ + decimal(level as nat), "level_"@ + decimal(level as nat), 4)
    }]
}

/// The groups of a new dialog for three boost specs.
pub open spec fn new_groups(a: BoostSpec, b: BoostSpec, c: BoostSpec, level: u8) -> Seq<BoostGroupView> {
    groups_for(parts(a), parts(b), parts(c), level)
}

/// While the alternate rule is off, a group that can use it holds its stashed fixed
/// boosts, free count and flaws.
pub open spec fn stash_kept(g: BoostGroupView) -> bool {
    g.can_use_alternate && !g.alternate_active ==> {
        &&& g.fixed == g.alternate_fixed
        &&& g.free_count == g.alternate_free
        &&& g.flaws == g.alternate_flaws
    }
}

/// Every group keeps its stash.
pub open spec fn stashes_kept(gs: Seq<BoostGroupView>) -> bool {
    forall|i: int| 0 <= i < gs.len() ==> stash_kept(#[trigger] gs[i])
}

/// The effect of toggling the alternate ancestry rule on a group.
pub open spec fn alternate_toggled(g: BoostGroupView) -> BoostGroupView {
    if !g.can_use_alternate {
        g
    } else if g.alternate_active {
        BoostGroupView {
            chosen: Seq::empty(),
            fixed: g.alternate_fixed,
            free_count: g.alternate_free,
            flaws: g.alternate_flaws,
            alternate_active: false,
            ..g
        }
    } else {
        BoostGroupView {
            chosen: Seq::empty(),
            fixed: Seq::empty(),
            free_count: 2,
            flaws: Seq::empty(),
            alternate_active: true,
            ..g
        }
    }
}

/// Index of the first occurrence of `a` in `s`, if any.
pub open spec fn position_of(s: Seq<Ability>, a: Ability) -> Option<int>
    decreases s.len(),
{
    if s.len() == 0 {
        None
    } else if s[0] == a {
        Some(0)
    } else {
        match position_of(s.subrange(1, s.len() as int), a) {
            Some(i) => Some(i + 1),
            None => None,
        }
    }
}

/// `position_of` gives the first index holding `a`, and `None` exactly when none does.
pub proof fn lemma_position_of(s: Seq<Ability>, a: Ability)
    ensures
        match position_of(s, a) {
            Some(i) => 0 <= i < s.len() && s[i] == a && forall|j: int| 0 <= j < i ==> s[j] != a,
            None => forall|j: int| 0 <= j < s.len() ==> s[j] != a,
        },
    decreases s.len(),
{
    if s.len() > 0 && s[0] != a {
        let t = s.subrange(1, s.len() as int);
        lemma_position_of(t, a);
        match position_of(t, a) {
            Some(i) => {
                assert(s[i + 1] == t[i]);
                assert forall|j: int| 0 <= j < i + 1 implies s[j] != a by {
                    if j > 0 {
                        assert(s[j] == t[j - 1]);
                    }
                }
            },
            None => {
                assert forall|j: int| 0 <= j < s.len() implies s[j] != a by {
                    if j > 0 {
                        assert(s[j] == t[j - 1]);
                    }
                }
            },
        }
    }
}

/// The effect of toggling ability `a` in a group: fixed boosts stay; a chosen ability
/// is removed; otherwise it is added while free picks remain.
pub open spec fn ability_toggled(g: BoostGroupView, a: Ability) -> BoostGroupView {
    if g.fixed.contains(a) {
        g
    } else {
        match position_of(g.chosen, a) {
            Some(i) => BoostGroupView { chosen: g.chosen.remove(i), ..g },
            None => if g.chosen.len() < g.free_count {
                BoostGroupView { chosen: g.chosen.push(a), ..g }
            } else {
                g
            },
        }
    }
}

/// Every group has all its free picks made.
pub open spec fn all_complete(gs: Seq<BoostGroupView>) -> bool {
    forall|i: int| 0 <= i < gs.len() ==> (#[trigger] gs[i]).chosen.len() == gs[i].free_count
}

fn new_group(label: &str, source: &str, spec: &BoostSpec) -> (r: BoostGroup)
    ensures
        r@ == plain_group(label@, source@, parts(*spec)),
{
    let r = BoostGroup {
        label: owned(label),
        source: owned(source),
        fixed: copy_abilities(&spec.fixed),
        free_count: spec.free,
        chosen: Vec::new(),
        flaws: copy_abilities(&spec.flaws),
        can_use_alternate: false,
        alternate_active: false,
        alternate_fixed: Vec::new(),
        alternate_free: 0,
        alternate_flaws: Vec::new(),
    };
    assert(r@ =~= plain_group(label@, source@, parts(*spec)));
    r
}

fn new_group_free(label: &str, source: &str, free: u8) -> (r: BoostGroup)
    ensures
        r@ == free_group(label@, source@, free),
{
    let r = BoostGroup {
        label: owned(label),
        source: owned(source),
        fixed: Vec::new(),
        free_count: free,
        chosen: Vec::new(),
        flaws: Vec::new(),
        can_use_alternate: false,
        alternate_active: false,
        alternate_fixed: Vec::new(),
        alternate_free: 0,
        alternate_flaws: Vec::new(),
    };
    assert(r@ =~= free_group(label@, source@, free));
    r
}

fn position_in(s: &Vec<Ability>, a: Ability) -> (r: Option<usize>)
    ensures
        match r {
            Some(i) => position_of(s@, a) == Some(i as int),
            None => position_of(s@, a) is None,
        },
{
    proof {
        lemma_position_of(s@, a);
    }
    let mut i: usize = 0;
    while i < s.len()
        invariant
            i <= s.len(),
            forall|j: int| 0 <= j < i ==> s@[j] != a,
            match position_of(s@, a) {
                Some(k) => 0 <= k < s@.len() && s@[k] == a && forall|j: int| 0 <= j < k ==> s@[j] != a,
                None => forall|j: int| 0 <= j < s@.len() ==> s@[j] != a,
            },
        decreases s.len() - i,
    {
        if s[i] == a {
            proof {
                match position_of(s@, a) {
                    Some(k) => {
                        if k < i {
                            assert(s@[k] != a);
                        } else if k > i {
                            assert(s@[i as int] != a);
                        }
                    },
                    None => {
                        assert(s@[i as int] != a);
                    },
                }
            }
            return Some(i);
        }
        i = i + 1;
    }
    None
}

/// `n` is the boost dialog `o` after Up.
pub open spec fn boost_cursor_up(o: BoostModal, n: BoostModal) -> bool {
    &&& n.ability_cursor == (if o.ability_cursor > 0 { o.ability_cursor - 1 } else { 0 })
    &&& n.group_cursor == o.group_cursor
    &&& groups_view(n.groups@) == groups_view(o.groups@)
}

/// `n` is the boost dialog `o` after Down.
pub open spec fn boost_cursor_down(o: BoostModal, n: BoostModal) -> bool {
    &&& n.ability_cursor == (if o.ability_cursor < 5 { o.ability_cursor + 1 } else { o.ability_cursor as int })
    &&& n.group_cursor == o.group_cursor
    &&& groups_view(n.groups@) == groups_view(o.groups@)
}

/// `n` is the boost dialog `o` on its next group.
pub open spec fn boost_group_next(o: BoostModal, n: BoostModal) -> bool {
    &&& o.group_cursor + 1 < o.groups@.len() ==> n.group_cursor == o.group_cursor + 1
        && n.ability_cursor == 0
    &&& !(o.group_cursor + 1 < o.groups@.len()) ==> n.group_cursor == o.group_cursor
        && n.ability_cursor == o.ability_cursor
    &&& groups_view(n.groups@) == groups_view(o.groups@)
}

/// `n` is the boost dialog `o` on its previous group.
pub open spec fn boost_group_prev(o: BoostModal, n: BoostModal) -> bool {
    &&& o.group_cursor > 0 ==> n.group_cursor == o.group_cursor - 1
        && n.ability_cursor == 0
    &&& o.group_cursor == 0 ==> n.group_cursor == 0
        && n.ability_cursor == o.ability_cursor
    &&& groups_view(n.groups@) == groups_view(o.groups@)
}

/// `n` is the boost dialog `o` with the alternate rule switched on the focused group.
pub open spec fn alternate_switched(o: BoostModal, n: BoostModal) -> bool {
    &&& n.group_cursor == o.group_cursor
    &&& n.ability_cursor == o.ability_cursor
    &&& o.group_cursor < o.groups@.len() ==> groups_view(n.groups@)
            == groups_view(o.groups@).update(
            o.group_cursor as int,
            alternate_toggled(o.groups@[o.group_cursor as int]@),
        )
    &&& o.group_cursor >= o.groups@.len() ==> groups_view(n.groups@)
        == groups_view(o.groups@)
}

/// `n` is the boost dialog `o` with the highlighted ability toggled in the focused group.
pub open spec fn boost_toggled(o: BoostModal, n: BoostModal) -> bool {
    &&& n.group_cursor == o.group_cursor
    &&& n.ability_cursor == o.ability_cursor
    &&& o.group_cursor < o.groups@.len() ==> groups_view(n.groups@)
            == groups_view(o.groups@).update(
            o.group_cursor as int,
            ability_toggled(
                o.groups@[o.group_cursor as int]@,
                ability_at(o.ability_cursor as int),
            ),
        )
    &&& o.group_cursor >= o.groups@.len() ==> groups_view(n.groups@)
        == groups_view(o.groups@)
}

impl BoostModal {
    pub fn new(
        ancestry_boosts: &BoostSpec,
        background_boosts: &BoostSpec,
        class_boosts: &BoostSpec,
        level: u8,
    ) -> (r: Self)
        ensures
            groups_view(r.groups@) == new_groups(*ancestry_boosts, *background_boosts, *class_boosts, level),
            stashes_kept(groups_view(r.groups@)),
            r.group_cursor == 0,
            r.ability_cursor == 0,
    {
        let mut groups: Vec<BoostGroup> = Vec::new();
        if ancestry_boosts.fixed.len() > 0 || ancestry_boosts.free > 0 {
            let g = BoostGroup {
                label: owned("Ancestry"),
                source: owned("ancestry"),
                fixed: copy_abilities(&ancestry_boosts.fixed),
                free_count: ancestry_boosts.free,
                chosen: Vec::new(),
                flaws: copy_abilities(&ancestry_boosts.flaws),
                can_use_alternate: ancestry_boosts.fixed.len() > 0,
                alternate_active: false,
                alternate_fixed: copy_abilities(&ancestry_boosts.fixed),
                alternate_free: ancestry_boosts.free,
                alternate_flaws: copy_abilities(&ancestry_boosts.flaws),
            };
            assert(g@ =~= ancestry_group(parts(*ancestry_boosts)));
            groups.push(g);
        }
        let ghost g1 = groups_view(groups@);
        assert(g1 =~= (if offers(parts(*ancestry_boosts)) { seq![ancestry_group(parts(*ancestry_boosts))] } else { Seq::empty() }));
        if background_boosts.fixed.len() > 0 || background_boosts.free > 0 {
            groups.push(new_group("Background", "background", background_boosts));
        }
        let ghost g2 = groups_view(groups@);
        assert(g2 =~= g1 + (if offers(parts(*background_boosts)) { seq![plain_group("Background"@, "background"@, parts(*background_boosts))] } else { Seq::empty() }));
        if class_boosts.fixed.len() > 0 || class_boosts.free > 0 {
            groups.push(new_group("Class", "class", class_boosts));
        }
        let ghost g3 = groups_view(groups@);
        assert(g3 =~= g2 + (if offers(parts(*class_boosts)) { seq![plain_group("Class"@, "class"@, parts(*class_boosts))] } else { Seq::empty() }));
        // Each level's boost step gets 4 free boosts
        let last = if level == 1 {
            new_group_free("Free", "level_1", 4)
        } else {
            let d = decimal_string(level as u64);
            let mut label = owned("Level ");
            label.append(d.as_str());
            let mut source = owned("level_");
            source.append(d.as_str());
            new_group_free(label.as_str(), source.as_str(), 4)
        };
        groups.push(last);
        assert(groups_view(groups@) =~= new_groups(*ancestry_boosts, *background_boosts, *class_boosts, level));
        proof {
            lemma_new_groups_keep_stashes(parts(*ancestry_boosts), parts(*background_boosts), parts(*class_boosts), level);
        }
        BoostModal { groups, group_cursor: 0, ability_cursor: 0 }
    }

    pub fn move_up(&mut self)
        ensures
            boost_cursor_up(*old(self), *final(self)),
    {
        if self.ability_cursor > 0 {
            self.ability_cursor = self.ability_cursor - 1;
        }
    }

    pub fn move_down(&mut self)
        ensures
            boost_cursor_down(*old(self), *final(self)),
    {
        if self.ability_cursor < 5 {
            self.ability_cursor = self.ability_cursor + 1;
        }
    }

    pub fn next_group(&mut self)
        ensures
            boost_group_next(*old(self), *final(self)),
    {
        if self.group_cursor < self.groups.len() && self.group_cursor + 1 < self.groups.len() {
            self.group_cursor = self.group_cursor + 1;
            self.ability_cursor = 0;
        }
    }

    pub fn prev_group(&mut self)
        ensures
            boost_group_prev(*old(self), *final(self)),
    {
        if self.group_cursor > 0 {
            self.group_cursor = self.group_cursor - 1;
            self.ability_cursor = 0;
        }
    }

    /// Toggle the alternate ancestry rule on the focused group (if applicable).
    pub fn toggle_alternate(&mut self)
        ensures
            alternate_switched(*old(self), *final(self)),
    {
        if self.group_cursor >= self.groups.len() {
            return;
        }
        let i = self.group_cursor;
        let ghost before = groups_view(self.groups@);
        let mut group = self.groups.remove(i);
        let ghost g0 = group@;
        if group.can_use_alternate {
            group.chosen = Vec::new();
            if group.alternate_active {
                // Restore original fixed/free/flaws
                group.fixed = copy_abilities(&group.alternate_fixed);
                group.free_count = group.alternate_free;
                group.flaws = copy_abilities(&group.alternate_flaws);
                group.alternate_active = false;
            } else {
                // Alternate ancestry boosts: 2 free, no fixed, no flaws
                group.fixed = Vec::new();
                group.free_count = 2;
                group.flaws = Vec::new();
                group.alternate_active = true;
            }
        }
        assert(group@ =~= alternate_toggled(g0));
        self.groups.insert(i, group);
        assert(groups_view(self.groups@) =~= before.update(i as int, alternate_toggled(g0)));
    }

    /// Toggle the currently highlighted ability in the focused group.
    pub fn toggle(&mut self)
        requires
            old(self).ability_cursor < 6,
        ensures
            boost_toggled(*old(self), *final(self)),
    {
        let ability = Ability::from_index(self.ability_cursor);
        if self.group_cursor >= self.groups.len() {
            return;
        }
        let i = self.group_cursor;
        let ghost before = groups_view(self.groups@);
        let mut group = self.groups.remove(i);
        let ghost g0 = group@;
        // Can't toggle fixed boosts
        proof {
            lemma_position_of(group.fixed@, ability);
            lemma_position_of(group.chosen@, ability);
        }
        let is_fixed = match position_in(&group.fixed, ability) {
            Some(_) => true,
            None => false,
        };
        if !is_fixed {
            proof {
                lemma_position_of(group.chosen@, ability);
            }
            match position_in(&group.chosen, ability) {
                Some(pos) => {
                    group.chosen.remove(pos);
                },
                None => {
                    if group.chosen.len() < group.free_count as usize {
                        group.chosen.push(ability);
                    }
                },
            }
        }
        assert(group@ =~= ability_toggled(g0, ability));
        self.groups.insert(i, group);
        assert(groups_view(self.groups@) =~= before.update(i as int, ability_toggled(g0, ability)));
    }

    /// Check if all groups are fully assigned.
    pub fn is_complete(&self) -> (r: bool)
        ensures
            r == all_complete(groups_view(self.groups@)),
    {
        let ghost gs = groups_view(self.groups@);
        let mut i: usize = 0;
        while i < self.groups.len()
            invariant
                i <= self.groups.len(),
                gs == groups_view(self.groups@),
                forall|j: int| 0 <= j < i ==> (#[trigger] gs[j]).chosen.len() == gs[j].free_count,
            decreases self.groups.len() - i,
        {
            if self.groups[i].chosen.len() != self.groups[i].free_count as usize {
                assert(gs[i as int].chosen.len() != gs[i as int].free_count);
                return false;
            }
            i = i + 1;
        }
        true
    }
}

/// A new dialog's groups keep their stashes.
proof fn lemma_new_groups_keep_stashes(a: SpecParts, b: SpecParts, c: SpecParts, level: u8)
    ensures
        stashes_kept(groups_for(a, b, c, level)),
{
    let gs = groups_for(a, b, c, level);
    assert forall|i: int| 0 <= i < gs.len() implies stash_kept(#[trigger] gs[i]) by {
        let g = gs[i];
        assert(g.can_use_alternate ==> g == ancestry_group(a));
    }
}

/// Every step of the dialog (Up, Down, next and previous group, switching the
/// alternate rule, toggling an ability) keeps every group's stash.
pub proof fn law_dialog_keeps_stashes(o: BoostModal, n: BoostModal)
    requires
        stashes_kept(groups_view(o.groups@)),
        boost_cursor_up(o, n) || boost_cursor_down(o, n) || boost_group_next(o, n) || boost_group_prev(o, n)
            || alternate_switched(o, n) || boost_toggled(o, n),
    ensures
        stashes_kept(groups_view(n.groups@)),
{
    let gs = groups_view(o.groups@);
    let ns = groups_view(n.groups@);
    assert forall|i: int| 0 <= i < ns.len() implies stash_kept(#[trigger] ns[i]) by {
        assert(stash_kept(gs[i]));
        if o.group_cursor < o.groups@.len() && i == o.group_cursor {
            assert(gs[i] == o.groups@[o.group_cursor as int]@);
            lemma_position_of(gs[i].chosen, ability_at(o.ability_cursor as int));
        }
    }
}

/// Switching the alternate rule on a group that can use it, while it is off, gives
/// two free boosts and no fixed boosts, flaws or picks; switching it again gives the
/// group back as it was, with no picks. A group that cannot use the rule is never
/// changed.
pub proof fn law_alternate_round_trip(m0: BoostModal, m1: BoostModal, m2: BoostModal)
    requires
        stashes_kept(groups_view(m0.groups@)),
        m0.group_cursor < m0.groups@.len(),
        alternate_switched(m0, m1),
        alternate_switched(m1, m2),
    ensures
        ({
            let i = m0.group_cursor as int;
            let g0 = m0.groups@[i]@;
            &&& g0.can_use_alternate && !g0.alternate_active ==> {
                &&& m1.groups@[i]@ == (BoostGroupView {
                    chosen: Seq::empty(),
                    fixed: Seq::empty(),
                    free_count: 2,
                    flaws: Seq::empty(),
                    alternate_active: true,
                    ..g0
                })
                &&& groups_view(m2.groups@) == groups_view(m0.groups@).update(
                    i,
                    BoostGroupView { chosen: Seq::empty(), ..g0 },
                )
            }
            &&& !g0.can_use_alternate ==> groups_view(m1.groups@) == groups_view(m0.groups@)
                && groups_view(m2.groups@) == groups_view(m0.groups@)
        }),
{
    let i = m0.group_cursor as int;
    let g0 = m0.groups@[i]@;
    let gs = groups_view(m0.groups@);
    assert(gs[i] == g0);
    assert(stash_kept(gs[i]));
    assert(groups_view(m1.groups@).len() == gs.len());
    assert(groups_view(m1.groups@)[i] == m1.groups@[i]@);
    if g0.can_use_alternate && !g0.alternate_active {
        assert(groups_view(m2.groups@) =~= gs.update(i, BoostGroupView { chosen: Seq::empty(), ..g0 }));
    } else if !g0.can_use_alternate {
        assert(gs.update(i, g0) =~= gs);
        assert(groups_view(m2.groups@) =~= gs);
    }
}

/// Toggling never takes a group past its free picks, and never picks a fixed boost.
pub proof fn lemma_toggle_keeps_limits(g: BoostGroupView, a: Ability)
    requires
        g.chosen.len() <= g.free_count,
        forall|i: int| 0 <= i < g.chosen.len() ==> !g.fixed.contains(#[trigger] g.chosen[i]),
    ensures
        ability_toggled(g, a).chosen.len() <= ability_toggled(g, a).free_count,
        forall|i: int|
            0 <= i < ability_toggled(g, a).chosen.len() ==> !ability_toggled(g, a).fixed.contains(
                #[trigger] ability_toggled(g, a).chosen[i],
            ),
{
    let t = ability_toggled(g, a);
    lemma_position_of(g.chosen, a);
    if !g.fixed.contains(a) {
        match position_of(g.chosen, a) {
            Some(p) => {
                assert forall|i: int| 0 <= i < t.chosen.len() implies !t.fixed.contains(#[trigger] t.chosen[i]) by {
                    if i < p {
                        assert(t.chosen[i] == g.chosen[i]);
                    } else {
                        assert(t.chosen[i] == g.chosen[i + 1]);
                    }
                }
            },
            None => {
                assert forall|i: int| 0 <= i < t.chosen.len() implies !t.fixed.contains(#[trigger] t.chosen[i]) by {
                    if i < g.chosen.len() {
                        assert(t.chosen[i] == g.chosen[i]);
                    }
                }
            },
        }
    }
}

} // verus!
