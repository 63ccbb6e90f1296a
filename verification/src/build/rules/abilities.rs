//! Adding and removing ability boosts and flaws by source.
use vstd::prelude::*;
use crate::model::abilities::{Abilities, AbilitiesView, Ability, BoostSource, sources_view};
use crate::text::{owned, str_eq};

verus! {

/// `s` holds the entry `e`.
pub open spec fn has_entry(s: Seq<(Seq<char>, Ability)>, e: (Seq<char>, Ability)) -> bool {
    exists|i: int| 0 <= i < s.len() && s[i] == e
}

/// Append `e` unless it is already present.
pub open spec fn add_entry(s: Seq<(Seq<char>, Ability)>, e: (Seq<char>, Ability)) -> Seq<
    (Seq<char>, Ability),
> {
    if has_entry(s, e) {
        s
    } else {
        s.push(e)
    }
}

/// Entries whose source is not `source`, in order.
pub open spec fn without_source(s: Seq<(Seq<char>, Ability)>, source: Seq<char>) -> Seq<
    (Seq<char>, Ability),
>
    decreases s.len(),
{
    if s.len() == 0 {
        s
    } else {
        let front = without_source(s.drop_last(), source);
        if s.last().0 != source {
            front.push(s.last())
        } else {
            front
        }
    }
}

/// Number of entries from `source`.
pub open spec fn count_source(s: Seq<(Seq<char>, Ability)>, source: Seq<char>) -> nat
    decreases s.len(),
{
    if s.len() == 0 {
        0
    } else {
        count_source(s.drop_last(), source) + if s.last().0 == source {
            1nat
        } else {
            0nat
        }
    }
}

/// Adding a boost that is already there changes nothing, and after adding one it is there.
pub proof fn law_add_entry_idempotent(s: Seq<(Seq<char>, Ability)>, e: (Seq<char>, Ability))
    ensures
        has_entry(add_entry(s, e), e),
        add_entry(add_entry(s, e), e) == add_entry(s, e),
{
    if !has_entry(s, e) {
        assert(s.push(e)[s.len() as int] == e);
    }
}

/// After clearing a source, none of its entries is left and it counts nothing; every
/// entry of another source is kept.
pub proof fn law_cleared_source(s: Seq<(Seq<char>, Ability)>, source: Seq<char>, x: (Seq<char>, Ability))
    ensures
        x.0 == source ==> !has_entry(without_source(s, source), x),
        x.0 != source ==> (has_entry(without_source(s, source), x) <==> has_entry(s, x)),
        count_source(without_source(s, source), source) == 0,
    decreases s.len(),
{
    let t = without_source(s, source);
    if s.len() > 0 {
        law_cleared_source(s.drop_last(), source, x);
        let t0 = without_source(s.drop_last(), source);
        if s.last().0 != source {
            assert(t =~= t0.push(s.last()));
            assert(t.drop_last() =~= t0);
            if has_entry(t0, x) {
                let i = choose|i: int| 0 <= i < t0.len() && t0[i] == x;
                assert(t[i] == x);
            }
            if has_entry(s.drop_last(), x) {
                let i = choose|i: int| 0 <= i < s.drop_last().len() && s.drop_last()[i] == x;
                assert(s[i] == x);
            }
            if has_entry(t, x) {
                let i = choose|i: int| 0 <= i < t.len() && t[i] == x;
                if i < t0.len() {
                    assert(t0[i] == x);
                } else {
                    assert(s[s.len() - 1] == x);
                }
            }
            if has_entry(s, x) && x != s.last() {
                let i = choose|i: int| 0 <= i < s.len() && s[i] == x;
                assert(s.drop_last()[i] == x);
            }
            if x == s.last() {
                assert(t[t.len() - 1] == x);
            }
        } else {
            assert(t =~= t0);
            if has_entry(s.drop_last(), x) {
                let i = choose|i: int| 0 <= i < s.drop_last().len() && s.drop_last()[i] == x;
                assert(s[i] == x);
            }
            if has_entry(s, x) && x.0 != source {
                let i = choose|i: int| 0 <= i < s.len() && s[i] == x;
                assert(i != s.len() - 1);
                assert(s.drop_last()[i] == x);
            }
        }
    } else {
        assert(t =~= s);
    }
}

fn contains_entry(v: &Vec<BoostSource>, source: &str, ability: Ability) -> (r: bool)
    ensures
        r == has_entry(sources_view(v@), (source@, ability)),
{
    let ghost s = sources_view(v@);
    let mut i: usize = 0;
    while i < v.len()
        invariant
            i <= v.len(),
            s == sources_view(v@),
            forall|j: int| 0 <= j < i ==> s[j] != (source@, ability),
        decreases v.len() - i,
    {
        if str_eq(v[i].source.as_str(), source) && v[i].ability == ability {
            assert(s[i as int] == (source@, ability));
            return true;
        }
        i = i + 1;
    }
    false
}

/// Check if a boost source+ability combination is already present.
pub fn has_boost(abilities: &Abilities, source: &str, ability: Ability) -> (r: bool)
    ensures
        r == has_entry(abilities@.boosts, (source@, ability)),
{
    contains_entry(&abilities.boosts, source, ability)
}

/// Add a boost if not already present for that source+ability.
pub fn add_boost(abilities: &mut Abilities, source: &str, ability: Ability)
    ensures
        final(abilities)@ == (AbilitiesView {
            boosts: add_entry(old(abilities)@.boosts, (source@, ability)),
            ..old(abilities)@
        }),
{
    if !has_boost(abilities, source, ability) {
        abilities.boosts.push(BoostSource { source: owned(source), ability });
        assert(sources_view(abilities.boosts@) =~= add_entry(
            old(abilities)@.boosts,
            (source@, ability),
        ));
    }
}

/// Add a flaw for a given source+ability.
pub fn add_flaw(abilities: &mut Abilities, source: &str, ability: Ability)
    ensures
        final(abilities)@ == (AbilitiesView {
            flaws: add_entry(old(abilities)@.flaws, (source@, ability)),
            ..old(abilities)@
        }),
{
    let already = contains_entry(&abilities.flaws, source, ability);
    if !already {
        abilities.flaws.push(BoostSource { source: owned(source), ability });
        assert(sources_view(abilities.flaws@) =~= add_entry(
            old(abilities)@.flaws,
            (source@, ability),
        ));
    }
}

fn retain_not_source(v: &Vec<BoostSource>, source: &str) -> (r: Vec<BoostSource>)
    ensures
        sources_view(r@) == without_source(sources_view(v@), source@),
{
    let ghost s = sources_view(v@);
    let mut out: Vec<BoostSource> = Vec::new();
    let mut i: usize = 0;
    while i < v.len()
        invariant
            i <= v.len(),
            s == sources_view(v@),
            sources_view(out@) == without_source(s.take(i as int), source@),
        decreases v.len() - i,
    {
        assert(s.take(i + 1).drop_last() =~= s.take(i as int));
        if !str_eq(v[i].source.as_str(), source) {
            out.push(BoostSource { source: v[i].source.clone(), ability: v[i].ability });
            assert(sources_view(out@) =~= without_source(s.take(i + 1), source@));
        }
        i = i + 1;
    }
    assert(s.take(i as int) =~= s);
    out
}

/// Remove all boosts and flaws for a given source.
pub fn clear_source(abilities: &mut Abilities, source: &str)
    ensures
        final(abilities)@ == (AbilitiesView {
            boosts: without_source(old(abilities)@.boosts, source@),
            flaws: without_source(old(abilities)@.flaws, source@),
        }),
{
    abilities.boosts = retain_not_source(&abilities.boosts, source);
    abilities.flaws = retain_not_source(&abilities.flaws, source);
}

/// Count how many boosts a source has contributed.
pub fn count_for_source(abilities: &Abilities, source: &str) -> (r: usize)
    ensures
        r == count_source(abilities@.boosts, source@),
{
    let ghost s = abilities@.boosts;
    let mut n: usize = 0;
    let mut i: usize = 0;
    while i < abilities.boosts.len()
        invariant
            i <= abilities.boosts.len(),
            s == abilities@.boosts,
            n == count_source(s.take(i as int), source@),
            n <= i,
        decreases abilities.boosts.len() - i,
    {
        assert(s.take(i + 1).drop_last() =~= s.take(i as int));
        if str_eq(abilities.boosts[i].source.as_str(), source) {
            n = n + 1;
        }
        i = i + 1;
    }
    assert(s.take(i as int) =~= s);
    n
}

} // verus!
