//! Derive a full `Character` from declarative `BuildChoices`.
use vstd::prelude::*;
use vstd::string::StringExecFns;
use crate::build::choices::{
    AbilityChoiceSet, BackgroundData, BuildChoices, ClassData, FeatSelection, FeatSelectionView,
};
use crate::build::rules::abilities::{add_boost, add_entry, add_flaw};
use crate::build::rules::proficiency::{advance_all, advance_proficiencies};
use crate::build::mechanics::proficiency::advances_view;
use crate::model::abilities::{Abilities, AbilitiesView, Ability, MAX_ENTRIES};
use crate::model::feat::{FeatChoice, FeatChoiceView, FeatType, feats_view};
use crate::model::proficiencies::{
    Proficiencies, ProficienciesView, Rank, add_lore_spec, increase_spec, train_spec,
    untrained_profs,
};
use crate::text::{
    clone_opt, clone_strings, decimal, decimal_string, eq_ci, eq_ignore_ascii_case, lowercase,
    opt_str, owned, signed_decimal, signed_string, str_eq, strs, to_lowercase,
};
use crate::build::choices::SpellSlotChoice;
use crate::build::mechanics::boosts::{ability_named, parse_ability};
use crate::build::rules::combat::{ac_fits, ac_spec, capped, check_spec};
use crate::build::rules::combat;
use crate::build::rules::hp::{derived_hp_fits, derived_hp_from, derived_hp_spec};
use crate::model::abilities::lemma_modifier_bounds;
use crate::model::character::{Character, CharacterView, WeaponAttack, attacks_view, caster_view};
use crate::model::equipment::{
    Armor, ResilientRune, Weapon, die_text, item_display, resilient_bonus, striking_dice,
    striking_label, trait_matches,
};
use crate::model::proficiencies::{rank_bonus, rank_max};
use crate::model::spell::{SpellCaster, SpellCasterView, SpellEntry, spells_view};

verus! {

// ---------------------------------------------------------------------------
// Proficiencies
// ---------------------------------------------------------------------------

/// Train each named skill to at least `rank`, in order.
pub open spec fn train_all(s: Seq<(Seq<char>, Rank)>, names: Seq<Seq<char>>, rank: Rank) -> Seq<
    (Seq<char>, Rank),
>
    decreases names.len(),
{
    if names.len() == 0 {
        s
    } else {
        train_spec(train_all(s, names.drop_last(), rank), names.last(), rank)
    }
}

/// Add each named lore, in order.
pub open spec fn lore_all(s: Seq<(Seq<char>, Rank)>, names: Seq<Seq<char>>) -> Seq<(Seq<char>, Rank)>
    decreases names.len(),
{
    if names.len() == 0 {
        s
    } else {
        add_lore_spec(lore_all(s, names.drop_last()), names.last())
    }
}

/// Increase each named skill by one step, in order.
pub open spec fn increase_all(s: Seq<(Seq<char>, Rank)>, names: Seq<Seq<char>>) -> Seq<(Seq<char>, Rank)>
    decreases names.len(),
{
    if names.len() == 0 {
        s
    } else {
        increase_spec(increase_all(s, names.drop_last()), names.last())
    }
}

/// The values of level-keyed entries, in key order.
pub open spec fn level_values(s: Seq<(u8, Seq<char>)>) -> Seq<Seq<char>> {
    s.map_values(|e: (u8, Seq<char>)| e.1)
}

/// The class's initial ranks replace the eleven fixed proficiencies.
pub open spec fn class_ranks(p: ProficienciesView, d: ClassData) -> ProficienciesView {
    ProficienciesView {
        perception: d.perception,
        fortitude: d.fortitude,
        reflex: d.reflex,
        will: d.will,
        unarmored: d.unarmored,
        light_armor: d.light_armor,
        medium_armor: d.medium_armor,
        heavy_armor: d.heavy_armor,
        simple_weapons: d.simple_weapons,
        martial_weapons: d.martial_weapons,
        unarmed: d.unarmed,
        ..p
    }
}

/// Proficiencies after the background's skills and lores.
pub open spec fn profs_after_background(c: BuildChoices) -> ProficienciesView {
    let p = untrained_profs();
    match c.background_data {
        Some(d) => ProficienciesView {
            skills: train_all(p.skills, strs(d.granted_skills@), Rank::Trained),
            lores: lore_all(p.lores, strs(d.granted_lores@)),
            ..p
        },
        None => p,
    }
}

/// Proficiencies after the class's ranks, advances up to the level, and granted skills.
pub open spec fn profs_after_class(c: BuildChoices) -> ProficienciesView {
    let p = profs_after_background(c);
    match c.class_data {
        Some(d) => {
            let q = advance_all(class_ranks(p, d), advances_view(d.proficiency_advances@), c.level);
            ProficienciesView {
                skills: train_all(q.skills, strs(d.granted_skills@), Rank::Trained),
                ..q
            }
        },
        None => p,
    }
}

/// Proficiencies after the initial skill picks and the skill increases (in level order).
pub open spec fn profs_after_skills(c: BuildChoices) -> ProficienciesView {
    let p = profs_after_class(c);
    ProficienciesView {
        skills: increase_all(
            train_all(p.skills, strs(c.initial_skills@), Rank::Trained),
            level_values(c.skill_increases.view()),
        ),
        ..p
    }
}

/// The class is the cleric (ASCII case-insensitively).
pub open spec fn is_cleric(class: Option<String>) -> bool {
    match class {
        Some(n) => eq_ci(n@, "cleric"@),
        None => false,
    }
}

/// Final proficiencies: a cleric is trained in the deity's divine skill.
pub open spec fn recalc_profs(c: BuildChoices) -> ProficienciesView {
    let p = profs_after_skills(c);
    match c.deity_data {
        Some(dd) => if is_cleric(c.class) && dd.divine_skill is Some {
            ProficienciesView {
                skills: train_spec(p.skills, dd.divine_skill.unwrap()@, Rank::Trained),
                ..p
            }
        } else {
            p
        },
        None => p,
    }
}

fn train_skills(p: &mut Proficiencies, names: &Vec<String>, rank: Rank)
    ensures
        final(p)@ == (ProficienciesView { skills: train_all(old(p)@.skills, strs(names@), rank), ..old(p)@ }),
{
    let ghost n = strs(names@);
    let ghost p0 = p@;
    let mut i: usize = 0;
    while i < names.len()
        invariant
            i <= names.len(),
            n == strs(names@),
            p@ == (ProficienciesView { skills: train_all(p0.skills, n.take(i as int), rank), ..p0 }),
        decreases names.len() - i,
    {
        assert(n.take(i + 1).drop_last() =~= n.take(i as int));
        p.train_skill(names[i].as_str(), rank);
        i = i + 1;
    }
    assert(n.take(i as int) =~= n);
}

fn add_lores(p: &mut Proficiencies, names: &Vec<String>)
    ensures
        final(p)@ == (ProficienciesView { lores: lore_all(old(p)@.lores, strs(names@)), ..old(p)@ }),
{
    let ghost n = strs(names@);
    let ghost p0 = p@;
    let mut i: usize = 0;
    while i < names.len()
        invariant
            i <= names.len(),
            n == strs(names@),
            p@ == (ProficienciesView { lores: lore_all(p0.lores, n.take(i as int)), ..p0 }),
        decreases names.len() - i,
    {
        assert(n.take(i + 1).drop_last() =~= n.take(i as int));
        p.add_lore(names[i].as_str());
        i = i + 1;
    }
    assert(n.take(i as int) =~= n);
}

fn apply_skill_increases(p: &mut Proficiencies, c: &BuildChoices)
    ensures
        final(p)@ == (ProficienciesView {
            skills: increase_all(old(p)@.skills, level_values(c.skill_increases.view())),
            ..old(p)@
        }),
{
    let ghost n = level_values(c.skill_increases.view());
    let ghost p0 = p@;
    let len = c.skill_increases.len();
    let mut i: usize = 0;
    while i < len
        invariant
            i <= len,
            len == c.skill_increases.view().len(),
            n == level_values(c.skill_increases.view()),
            p@ == (ProficienciesView { skills: increase_all(p0.skills, n.take(i as int)), ..p0 }),
        decreases len - i,
    {
        assert(n.take(i + 1).drop_last() =~= n.take(i as int));
        let (_, skill) = c.skill_increases.entry(i);
        p.increase_skill(skill.as_str());
        i = i + 1;
    }
    assert(n.take(i as int) =~= n);
}

fn set_class_ranks(p: &mut Proficiencies, d: &ClassData)
    ensures
        final(p)@ == class_ranks(old(p)@, *d),
{
    p.perception = d.perception;
    p.fortitude = d.fortitude;
    p.reflex = d.reflex;
    p.will = d.will;
    p.unarmored = d.unarmored;
    p.light_armor = d.light_armor;
    p.medium_armor = d.medium_armor;
    p.heavy_armor = d.heavy_armor;
    p.simple_weapons = d.simple_weapons;
    p.martial_weapons = d.martial_weapons;
    p.unarmed = d.unarmed;
}

/// Compute the proficiencies of a build.
pub fn build_proficiencies(c: &BuildChoices) -> (r: Proficiencies)
    ensures
        r@ == recalc_profs(*c),
{
    let mut p = Proficiencies::new();
    match &c.background_data {
        Some(d) => {
            train_skills(&mut p, &d.granted_skills, Rank::Trained);
            add_lores(&mut p, &d.granted_lores);
        },
        None => {},
    }
    assert(p@ == profs_after_background(*c));
    match &c.class_data {
        Some(d) => {
            set_class_ranks(&mut p, d);
            advance_proficiencies(&mut p, &d.proficiency_advances, c.level);
            train_skills(&mut p, &d.granted_skills, Rank::Trained);
        },
        None => {},
    }
    assert(p@ == profs_after_class(*c));
    train_skills(&mut p, &c.initial_skills, Rank::Trained);
    apply_skill_increases(&mut p, c);
    assert(p@ == profs_after_skills(*c));
    match &c.deity_data {
        Some(dd) => {
            let cleric = match &c.class {
                Some(name) => eq_ignore_ascii_case(name.as_str(), "cleric"),
                None => false,
            };
            if cleric {
                match &dd.divine_skill {
                    Some(skill) => p.train_skill(skill.as_str(), Rank::Trained),
                    None => {},
                }
            }
        },
        None => {},
    }
    p
}

// ---------------------------------------------------------------------------
// Feats
// ---------------------------------------------------------------------------

/// The feat granted by the background, if any.
pub open spec fn background_feat(c: BuildChoices) -> Seq<FeatChoiceView> {
    match c.background_data {
        Some(d) => match d.granted_feat {
            Some(f) => seq![
                FeatChoiceView {
                    name: f@,
                    feat_type: FeatType::Bonus,
                    level: 1,
                    slot: "background_feat"@,
                    source_id: None,
                },
            ],
            None => Seq::empty(),
        },
        None => Seq::empty(),
    }
}

/// A selected feat as recorded on the character, under its slot key.
pub open spec fn selection_feat(e: (Seq<char>, FeatSelectionView)) -> FeatChoiceView {
    FeatChoiceView {
        name: e.1.name,
        feat_type: e.1.feat_type,
        level: e.1.level,
        slot: e.0,
        source_id: e.1.source_id,
    }
}

/// Feats: the background feat, then the selected feats in slot-key order.
pub open spec fn recalc_feats(c: BuildChoices) -> Seq<FeatChoiceView> {
    background_feat(c) + c.feats.view().map_values(|e: (Seq<char>, FeatSelectionView)| selection_feat(e))
}

/// Compute the feats of a build.
pub fn build_feats(c: &BuildChoices) -> (r: Vec<FeatChoice>)
    ensures
        feats_view(r@) == recalc_feats(*c),
{
    let mut feats: Vec<FeatChoice> = Vec::new();
    match &c.background_data {
        Some(d) => match &d.granted_feat {
            Some(f) => {
                feats.push(
                    FeatChoice {
                        name: f.clone(),
                        feat_type: FeatType::Bonus,
                        level: 1,
                        slot: owned("background_feat"),
                        source_id: None,
                    },
                );
            },
            None => {},
        },
        None => {},
    }
    let ghost pre = feats_view(feats@);
    assert(pre =~= background_feat(*c));
    let ghost sel = c.feats.view().map_values(|e: (Seq<char>, FeatSelectionView)| selection_feat(e));
    let len = c.feats.len();
    let mut i: usize = 0;
    while i < len
        invariant
            i <= len,
            len == c.feats.view().len(),
            sel.len() == len,
            sel == c.feats.view().map_values(|e: (Seq<char>, FeatSelectionView)| selection_feat(e)),
            feats@.len() == pre.len() + i,
            forall|j: int| 0 <= j < pre.len() ==> (#[trigger] feats@[j])@ == pre[j],
            forall|j: int| 0 <= j < i ==> (#[trigger] feats@[pre.len() + j])@ == sel[j],
        decreases len - i,
    {
        let (key, s) = c.feats.entry(i);
        let f = FeatChoice {
            name: s.name.clone(),
            feat_type: s.feat_type,
            level: s.level,
            slot: owned(key),
            source_id: clone_opt(&s.source_id),
        };
        assert(f@ == sel[i as int]);
        feats.push(f);
        i = i + 1;
    }
    assert forall|k: int| 0 <= k < feats@.len() implies feats_view(feats@)[k] == (pre + sel)[k] by {
        if k < pre.len() {
            assert(feats@[k]@ == pre[k]);
        } else {
            assert(feats@[pre.len() + (k - pre.len())]@ == sel[k - pre.len()]);
        }
    }
    assert(feats_view(feats@) =~= pre + sel);
    feats
}

// ---------------------------------------------------------------------------
// Abilities
// ---------------------------------------------------------------------------

/// Add an entry for each ability, in order, skipping ones already present.
pub open spec fn add_all(s: Seq<(Seq<char>, Ability)>, source: Seq<char>, abilities: Seq<Ability>) -> Seq<
    (Seq<char>, Ability),
>
    decreases abilities.len(),
{
    if abilities.len() == 0 {
        s
    } else {
        add_entry(add_all(s, source, abilities.drop_last()), (source, abilities.last()))
    }
}

/// Source under which a choice set's flaws are recorded.
pub open spec fn flaw_source(source: Seq<char>, flaws: Seq<Ability>) -> Seq<char> {
    if flaws.len() == 0 {
        Seq::empty()
    } else {
        source + "_flaw"@
    }
}

/// Apply one source's choice set: fixed then chosen boosts, then flaws.
pub open spec fn apply_choice(a: AbilitiesView, source: Seq<char>, set: (Seq<Ability>, Seq<Ability>, Seq<Ability>)) -> AbilitiesView {
    AbilitiesView {
        boosts: add_all(add_all(a.boosts, source, set.0), source, set.1),
        flaws: add_all(a.flaws, flaw_source(source, set.2), set.2),
    }
}

/// Apply every choice set, in source-key order.
pub open spec fn apply_choices(a: AbilitiesView, entries: Seq<(Seq<char>, (Seq<Ability>, Seq<Ability>, Seq<Ability>))>) -> AbilitiesView
    decreases entries.len(),
{
    if entries.len() == 0 {
        a
    } else {
        let e = entries.last();
        apply_choice(apply_choices(a, entries.drop_last()), e.0, e.1)
    }
}

/// Boosts and flaws of a build.
pub open spec fn recalc_abilities(c: BuildChoices) -> AbilitiesView {
    apply_choices(AbilitiesView { boosts: Seq::empty(), flaws: Seq::empty() }, c.ability_choices.view())
}

/// Total number of boost entries (fixed plus chosen) over all choice sets.
pub open spec fn boost_total(entries: Seq<(Seq<char>, (Seq<Ability>, Seq<Ability>, Seq<Ability>))>) -> nat
    decreases entries.len(),
{
    if entries.len() == 0 {
        0
    } else {
        boost_total(entries.drop_last()) + entries.last().1.0.len() + entries.last().1.1.len()
    }
}

/// Total number of flaw entries over all choice sets.
pub open spec fn flaw_total(entries: Seq<(Seq<char>, (Seq<Ability>, Seq<Ability>, Seq<Ability>))>) -> nat
    decreases entries.len(),
{
    if entries.len() == 0 {
        0
    } else {
        flaw_total(entries.drop_last()) + entries.last().1.2.len()
    }
}

/// The choice sets hold few enough entries for the score arithmetic.
pub open spec fn choices_bounded(c: BuildChoices) -> bool {
    boost_total(c.ability_choices.view()) <= MAX_ENTRIES && flaw_total(c.ability_choices.view())
        <= MAX_ENTRIES
}

pub proof fn lemma_add_all_len(s: Seq<(Seq<char>, Ability)>, source: Seq<char>, abilities: Seq<Ability>)
    ensures
        add_all(s, source, abilities).len() <= s.len() + abilities.len(),
    decreases abilities.len(),
{
    if abilities.len() > 0 {
        lemma_add_all_len(s, source, abilities.drop_last());
    }
}

pub proof fn lemma_apply_choices_len(a: AbilitiesView, entries: Seq<(Seq<char>, (Seq<Ability>, Seq<Ability>, Seq<Ability>))>)
    ensures
        apply_choices(a, entries).boosts.len() <= a.boosts.len() + boost_total(entries),
        apply_choices(a, entries).flaws.len() <= a.flaws.len() + flaw_total(entries),
    decreases entries.len(),
{
    if entries.len() > 0 {
        let e = entries.last();
        let b = apply_choices(a, entries.drop_last());
        lemma_apply_choices_len(a, entries.drop_last());
        lemma_add_all_len(b.boosts, e.0, e.1.0);
        lemma_add_all_len(add_all(b.boosts, e.0, e.1.0), e.0, e.1.1);
        lemma_add_all_len(b.flaws, flaw_source(e.0, e.1.2), e.1.2);
    }
}

fn boost_each(a: &mut Abilities, source: &str, list: &Vec<Ability>)
    ensures
        final(a)@ == (AbilitiesView { boosts: add_all(old(a)@.boosts, source@, list@), ..old(a)@ }),
{
    let ghost a0 = a@;
    let mut i: usize = 0;
    while i < list.len()
        invariant
            i <= list.len(),
            a@ == (AbilitiesView { boosts: add_all(a0.boosts, source@, list@.take(i as int)), ..a0 }),
        decreases list.len() - i,
    {
        assert(list@.take(i + 1).drop_last() =~= list@.take(i as int));
        add_boost(a, source, list[i]);
        i = i + 1;
    }
    assert(list@.take(i as int) =~= list@);
}

fn flaw_each(a: &mut Abilities, source: &str, list: &Vec<Ability>)
    ensures
        final(a)@ == (AbilitiesView { flaws: add_all(old(a)@.flaws, source@, list@), ..old(a)@ }),
{
    let ghost a0 = a@;
    let mut i: usize = 0;
    while i < list.len()
        invariant
            i <= list.len(),
            a@ == (AbilitiesView { flaws: add_all(a0.flaws, source@, list@.take(i as int)), ..a0 }),
        decreases list.len() - i,
    {
        assert(list@.take(i + 1).drop_last() =~= list@.take(i as int));
        add_flaw(a, source, list[i]);
        i = i + 1;
    }
    assert(list@.take(i as int) =~= list@);
}

/// Compute the boosts and flaws of a build.
pub fn build_abilities(c: &BuildChoices) -> (r: Abilities)
    ensures
        r@ == recalc_abilities(*c),
{
    let mut a = Abilities::new();
    let ghost a0 = a@;
    assert(a0.boosts =~= Seq::empty());
    assert(a0.flaws =~= Seq::empty());
    let ghost es = c.ability_choices.view();
    let len = c.ability_choices.len();
    let mut i: usize = 0;
    while i < len
        invariant
            i <= len,
            len == es.len(),
            es == c.ability_choices.view(),
            a@ == apply_choices(a0, es.take(i as int)),
        decreases len - i,
    {
        assert(es.take(i + 1).drop_last() =~= es.take(i as int));
        let (source, set) = c.ability_choices.entry(i);
        boost_each(&mut a, source, &set.fixed);
        boost_each(&mut a, source, &set.chosen);
        let fsrc = if set.flaws.len() == 0 {
            String::new()
        } else {
            let mut s = owned(source);
            s.append("_flaw");
            s
        };
        assert(fsrc@ == flaw_source(source@, set.flaws@));
        flaw_each(&mut a, fsrc.as_str(), &set.flaws);
        i = i + 1;
    }
    assert(es.take(i as int) =~= es);
    a
}


// ---------------------------------------------------------------------------
// Languages, deity, spells
// ---------------------------------------------------------------------------

/// Languages: the ancestry's, then as many bonus languages as the INT modifier allows.
pub open spec fn recalc_languages(c: BuildChoices, int_mod: int) -> Seq<Seq<char>> {
    let granted = match c.ancestry_data {
        Some(d) => strs(d.granted_languages@),
        None => Seq::empty(),
    };
    let allowed = if int_mod < 0 { 0 } else { int_mod };
    let bonus = strs(c.bonus_languages@);
    let n = if bonus.len() < allowed { bonus.len() as int } else { allowed };
    granted + bonus.take(n)
}

fn build_languages(c: &BuildChoices, int_mod: i32) -> (r: Vec<String>)
    ensures
        strs(r@) == recalc_languages(*c, int_mod as int),
{
    let mut langs: Vec<String> = match &c.ancestry_data {
        Some(d) => clone_strings(&d.granted_languages),
        None => Vec::new(),
    };
    let ghost pre = strs(langs@);
    let allowed: usize = if int_mod < 0 {
        0
    } else {
        int_mod as usize
    };
    let n = if c.bonus_languages.len() < allowed {
        c.bonus_languages.len()
    } else {
        allowed
    };
    let ghost bonus = strs(c.bonus_languages@);
    let mut i: usize = 0;
    while i < n
        invariant
            i <= n,
            n <= c.bonus_languages.len(),
            bonus == strs(c.bonus_languages@),
            langs@.len() == pre.len() + i,
            forall|j: int| 0 <= j < pre.len() ==> (#[trigger] langs@[j])@ == pre[j],
            forall|j: int| 0 <= j < i ==> (#[trigger] langs@[pre.len() + j])@ == bonus[j],
        decreases n - i,
    {
        langs.push(c.bonus_languages[i].clone());
        i = i + 1;
    }
    assert forall|k: int| 0 <= k < langs@.len() implies strs(langs@)[k] == (pre + bonus.take(n as int))[k] by {
        if k < pre.len() {
            assert(langs@[k]@ == pre[k]);
        } else {
            assert(langs@[pre.len() + (k - pre.len())]@ == bonus[k - pre.len()]);
        }
    }
    assert(strs(langs@) =~= pre + bonus.take(n as int));
    langs
}

/// Prepared spells flattened in rank order; each takes the rank it is filed under.
pub open spec fn flatten_prepared(entries: Seq<(u8, Seq<(Seq<char>, u8, Option<Seq<char>>)>)>) -> Seq<
    (Seq<char>, u8, Option<Seq<char>>),
>
    decreases entries.len(),
{
    if entries.len() == 0 {
        Seq::empty()
    } else {
        let e = entries.last();
        flatten_prepared(entries.drop_last()) + e.1.map_values(
            |x: (Seq<char>, u8, Option<Seq<char>>)| (x.0, e.0, x.2),
        )
    }
}

/// The ability a class casts with: its named casting ability, else Intelligence.
pub open spec fn casting_ability(d: ClassData) -> Ability {
    match d.casting_ability {
        Some(s) => match ability_named(s@) {
            Some(a) => a,
            None => Ability::Intelligence,
        },
        None => Ability::Intelligence,
    }
}

/// The spellcasting block of a build: present only for a class with a tradition.
pub open spec fn recalc_caster(c: BuildChoices) -> Option<SpellCasterView> {
    match c.class_data {
        Some(d) => match d.tradition {
            Some(t) => Some(
                SpellCasterView {
                    tradition: Some(t@),
                    ability: opt_str(d.casting_ability),
                    spells: flatten_prepared(
                        c.prepared_spells.view().map_values(
                            |e: (u8, Seq<(Seq<char>, u8, Option<Seq<char>>)>)| e,
                        ),
                    ),
                    focus_spells: c.focus_spells.deep_view(),
                },
            ),
            None => None,
        },
        None => None,
    }
}

/// Focus points: one per focus spell, at most 3 (0 without spellcasting).
pub open spec fn recalc_focus_points(c: BuildChoices) -> u8 {
    if recalc_caster(c) is Some {
        if c.focus_spells@.len() < 3 {
            c.focus_spells@.len() as u8
        } else {
            3
        }
    } else {
        0
    }
}

/// A class with a spellcasting tradition casts with its casting ability: the derived
/// spell attack is that ability's modifier plus the Trained bonus plus the level, and
/// the spell DC is 10 more than the spell attack.
pub proof fn law_spell_attack_and_dc(c: BuildChoices)
    requires
        recalc_fits(c),
        c.class_data matches Some(d) && d.tradition is Some,
    ensures
        ({
            let ch = recalc_spec(c);
            &&& ch.spell_attack == ch.abilities.modifier(casting_ability(c.class_data.unwrap()))
                + rank_bonus(Rank::Trained) + c.level
            &&& ch.spell_dc == 10 + ch.spell_attack
        }),
{
    let a = recalc_abilities(c);
    lemma_apply_choices_len(AbilitiesView { boosts: Seq::empty(), flaws: Seq::empty() }, c.ability_choices.view());
    assert(a.bounded());
    lemma_modifier_bounds(a, casting_ability(c.class_data.unwrap()));
}

/// Spell attack: casting modifier + Trained bonus + level (0 without spellcasting).
pub open spec fn recalc_spell_attack(c: BuildChoices, a: AbilitiesView) -> int {
    if recalc_caster(c) is Some {
        a.modifier(casting_ability(c.class_data.unwrap())) + 2 + c.level
    } else {
        0
    }
}

/// Spell DC: 10 + spell attack (0 without spellcasting).
pub open spec fn recalc_spell_dc(c: BuildChoices, a: AbilitiesView) -> int {
    if recalc_caster(c) is Some {
        10 + recalc_spell_attack(c, a)
    } else {
        0
    }
}

fn entry_of(sc: &SpellSlotChoice, rank: u8) -> (r: SpellEntry)
    ensures
        r@ == (sc.name@, rank, opt_str(sc.source_id)),
{
    SpellEntry { name: sc.name.clone(), rank, source_id: clone_opt(&sc.source_id) }
}

fn build_prepared(c: &BuildChoices) -> (r: Vec<SpellEntry>)
    ensures
        spells_view(r@) == flatten_prepared(
            c.prepared_spells.view().map_values(|e: (u8, Seq<(Seq<char>, u8, Option<Seq<char>>)>)| e),
        ),
{
    let ghost es = c.prepared_spells.view().map_values(
        |e: (u8, Seq<(Seq<char>, u8, Option<Seq<char>>)>)| e,
    );
    assert(es =~= c.prepared_spells.view());
    let mut out: Vec<SpellEntry> = Vec::new();
    let len = c.prepared_spells.len();
    let mut i: usize = 0;
    while i < len
        invariant
            i <= len,
            len == es.len(),
            es == c.prepared_spells.view(),
            spells_view(out@) == flatten_prepared(es.take(i as int)),
        decreases len - i,
    {
        assert(es.take(i + 1).drop_last() =~= es.take(i as int));
        let (rank, list) = c.prepared_spells.entry(i);
        let ghost before = spells_view(out@);
        let ghost mapped = list.deep_view().map_values(
            |x: (Seq<char>, u8, Option<Seq<char>>)| (x.0, rank, x.2),
        );
        let mut j: usize = 0;
        while j < list.len()
            invariant
                j <= list.len(),
                mapped == list.deep_view().map_values(
                    |x: (Seq<char>, u8, Option<Seq<char>>)| (x.0, rank, x.2),
                ),
                out@.len() == before.len() + j,
                forall|k: int| 0 <= k < before.len() ==> (#[trigger] out@[k])@ == before[k],
                forall|k: int| 0 <= k < j ==> (#[trigger] out@[before.len() + k])@ == mapped[k],
            decreases list.len() - j,
        {
            let e = entry_of(&list[j], rank);
            assert(e@ == mapped[j as int]);
            out.push(e);
            j = j + 1;
        }
        assert forall|k: int| 0 <= k < out@.len() implies spells_view(out@)[k] == (before + mapped)[k] by {
            if k < before.len() {
                assert(out@[k]@ == before[k]);
            } else {
                assert(out@[before.len() + (k - before.len())]@ == mapped[k - before.len()]);
            }
        }
        assert(spells_view(out@) =~= before + mapped);
        i = i + 1;
    }
    assert(es.take(i as int) =~= es);
    out
}

fn build_focus(c: &BuildChoices) -> (r: Vec<SpellEntry>)
    ensures
        spells_view(r@) == c.focus_spells.deep_view(),
{
    let mut out: Vec<SpellEntry> = Vec::new();
    let mut i: usize = 0;
    while i < c.focus_spells.len()
        invariant
            i <= c.focus_spells.len(),
            out@.len() == i,
            forall|k: int| 0 <= k < i ==> (#[trigger] out@[k])@ == c.focus_spells.deep_view()[k],
        decreases c.focus_spells.len() - i,
    {
        let sc = &c.focus_spells[i];
        let e = entry_of(sc, sc.rank);
        out.push(e);
        i = i + 1;
    }
    assert(spells_view(out@) =~= c.focus_spells.deep_view());
    out
}

// ---------------------------------------------------------------------------
// Combat
// ---------------------------------------------------------------------------

/// Index of the first worn armor, if any.
pub open spec fn first_worn(armor: Seq<Armor>) -> Option<int> {
    if exists|i: int| 0 <= i < armor.len() && armor[i].worn {
        Some(choose|i: int| 0 <= i < armor.len() && armor[i].worn && forall|j: int| 0 <= j < i ==> !armor[j].worn)
    } else {
        None
    }
}

/// Rank for an armor category (matched lower-cased): light, medium, heavy, else unarmored.
pub open spec fn armor_rank_spec(category: Seq<char>, p: ProficienciesView) -> Rank {
    let l = lowercase(category);
    if l == "light"@ {
        p.light_armor
    } else if l == "medium"@ {
        p.medium_armor
    } else if l == "heavy"@ {
        p.heavy_armor
    } else {
        p.unarmored
    }
}

/// Rank for a weapon category (matched lower-cased): simple, martial, unarmed, else Untrained.
pub open spec fn weapon_rank_spec(category: Seq<char>, p: ProficienciesView) -> Rank {
    let l = lowercase(category);
    if l == "simple"@ {
        p.simple_weapons
    } else if l == "martial"@ {
        p.martial_weapons
    } else if l == "unarmed"@ {
        p.unarmed
    } else {
        Rank::Untrained
    }
}

/// AC of a character: worn armor's statistics, or unarmored.
pub open spec fn recalc_ac(armor: Seq<Armor>, a: AbilitiesView, p: ProficienciesView, level: u8) -> int {
    let dex = a.modifier(Ability::Dexterity);
    match first_worn(armor) {
        Some(i) => ac_spec(dex, armor_rank_spec(armor[i].armor_category@, p), level, armor[i].ac_bonus, armor[i].dex_cap, armor[i].potency),
        None => ac_spec(dex, p.unarmored, level, 0, None, 0),
    }
}

/// The AC arithmetic fits in an `i32`.
pub open spec fn recalc_ac_fits(armor: Seq<Armor>, a: AbilitiesView, p: ProficienciesView, level: u8) -> bool {
    let dex = a.modifier(Ability::Dexterity);
    match first_worn(armor) {
        Some(i) => ac_fits(capped(dex, armor[i].dex_cap), armor_rank_spec(armor[i].armor_category@, p), level, armor[i].ac_bonus, armor[i].potency),
        None => ac_fits(dex, p.unarmored, level, 0, 0),
    }
}

/// Save bonus from the worn armor's resilient rune.
pub open spec fn recalc_resilient(armor: Seq<Armor>) -> int {
    match first_worn(armor) {
        Some(i) => resilient_bonus(armor[i].resilient),
        None => 0,
    }
}

/// The key ability for the class DC: the named key ability, else Strength.
pub open spec fn key_ability_of(key: Option<String>) -> Ability {
    match key {
        Some(s) => match ability_named(s@) {
            Some(a) => a,
            None => Ability::Strength,
        },
        None => Ability::Strength,
    }
}

/// Best of the unarmed, simple and martial weapon ranks.
pub open spec fn best_melee_rank(p: ProficienciesView) -> Rank {
    rank_max(rank_max(p.unarmed, p.simple_weapons), p.martial_weapons)
}

/// The weapon's attack uses Dexterity when ranged, the better of STR/DEX when finesse, else Strength.
pub open spec fn attack_mod(w: Weapon, a: AbilitiesView) -> int {
    let s = a.modifier(Ability::Strength);
    let d = a.modifier(Ability::Dexterity);
    if eq_ci(w.weapon_type@, "Ranged"@) {
        d
    } else if exists|i: int| 0 <= i < w.traits@.len() && trait_matches(#[trigger] w.traits@[i]@, "Finesse"@) {
        if s >= d { s } else { d }
    } else {
        s
    }
}

/// A melee weapon with the Finesse trait attacks with the better of Strength and
/// Dexterity: its attack bonus is that modifier plus the proficiency bonus, the level
/// and the potency rune, the modifier is at least each of the two, and the same
/// modifier is added to its damage.
pub proof fn law_finesse_uses_better_ability(w: Weapon, a: AbilitiesView, p: ProficienciesView, level: u8)
    requires
        a.bounded(),
        !eq_ci(w.weapon_type@, "Ranged"@),
        exists|i: int| 0 <= i < w.traits@.len() && trait_matches(#[trigger] w.traits@[i]@, "Finesse"@),
    ensures
        ({
            let r = attack_spec(w, a, p, level);
            let m = r.1 - rank_bonus(weapon_rank_spec(w.weapon_category@, p)) - level - w.potency;
            &&& m >= a.modifier(Ability::Strength)
            &&& m >= a.modifier(Ability::Dexterity)
            &&& (m == a.modifier(Ability::Strength) || m == a.modifier(Ability::Dexterity))
            &&& r.2 == damage_text(1 + striking_dice(w.striking), die_text(w.damage_die), m, w.damage_type@)
        }),
{
    lemma_modifier_bounds(a, Ability::Strength);
    lemma_modifier_bounds(a, Ability::Dexterity);
}

/// Damage text: dice count, die, signed modifier (omitted when 0) and damage type.
pub open spec fn damage_text(dice: int, die: Seq<char>, dmg_mod: int, damage_type: Seq<char>) -> Seq<char> {
    decimal(dice as nat) + die + (if dmg_mod == 0 {
        Seq::empty()
    } else if dmg_mod > 0 {
        seq!['+'] + signed_decimal(dmg_mod)
    } else {
        signed_decimal(dmg_mod)
    }) + seq![' '] + damage_type
}

/// One weapon's attack line.
pub open spec fn attack_spec(w: Weapon, a: AbilitiesView, p: ProficienciesView, level: u8) -> (Seq<char>, i32, Seq<char>) {
    let m = attack_mod(w, a);
    let bonus = m + rank_bonus(weapon_rank_spec(w.weapon_category@, p)) + level + w.potency;
    let dmg_mod = if eq_ci(w.weapon_type@, "Ranged"@) { 0 } else { m };
    (
        item_display(w.potency, striking_label(w.striking), w.name@),
        bonus as i32,
        damage_text(1 + striking_dice(w.striking), die_text(w.damage_die), dmg_mod, w.damage_type@),
    )
}

fn armor_prof_rank(category: &str, profs: &Proficiencies) -> (r: Rank)
    ensures
        r == armor_rank_spec(category@, profs@),
{
    let l = to_lowercase(category);
    if str_eq(l.as_str(), "light") {
        profs.light_armor
    } else if str_eq(l.as_str(), "medium") {
        profs.medium_armor
    } else if str_eq(l.as_str(), "heavy") {
        profs.heavy_armor
    } else {
        profs.unarmored
    }
}

fn weapon_prof_rank(category: &str, profs: &Proficiencies) -> (r: Rank)
    ensures
        r == weapon_rank_spec(category@, profs@),
{
    let l = to_lowercase(category);
    if str_eq(l.as_str(), "simple") {
        profs.simple_weapons
    } else if str_eq(l.as_str(), "martial") {
        profs.martial_weapons
    } else if str_eq(l.as_str(), "unarmed") {
        profs.unarmed
    } else {
        Rank::Untrained
    }
}

fn find_worn(armor: &Vec<Armor>) -> (r: Option<usize>)
    ensures
        match r {
            Some(i) => first_worn(armor@) == Some(i as int) && i < armor@.len(),
            None => first_worn(armor@) is None,
        },
{
    let mut i: usize = 0;
    while i < armor.len()
        invariant
            i <= armor.len(),
            forall|j: int| 0 <= j < i ==> !armor@[j].worn,
        decreases armor.len() - i,
    {
        if armor[i].worn {
            proof {
                let p = |k: int| 0 <= k < armor@.len() && armor@[k].worn && forall|j: int| 0 <= j < k ==> !armor@[j].worn;
                assert(p(i as int));
                let k = choose|k: int| 0 <= k < armor@.len() && armor@[k].worn && forall|j: int| 0 <= j < k ==> !armor@[j].worn;
                if k < i {
                    assert(!armor@[k].worn);
                } else if k > i {
                    assert(!armor@[i as int].worn);
                }
            }
            return Some(i);
        }
        i = i + 1;
    }
    None
}

fn compute_weapon_attack(weapon: &Weapon, abilities: &Abilities, profs: &Proficiencies, level: u8) -> (r: WeaponAttack)
    requires
        abilities@.bounded(),
    ensures
        r@ == attack_spec(*weapon, abilities@, profs@, level),
{
    proof {
        lemma_modifier_bounds(abilities@, Ability::Strength);
        lemma_modifier_bounds(abilities@, Ability::Dexterity);
    }
    let is_ranged = weapon.is_ranged();
    let is_finesse = weapon.has_trait("Finesse");
    let ability_mod = if is_ranged {
        abilities.modifier(Ability::Dexterity)
    } else if is_finesse {
        let s = abilities.modifier(Ability::Strength);
        let d = abilities.modifier(Ability::Dexterity);
        if s >= d { s } else { d }
    } else {
        abilities.modifier(Ability::Strength)
    };
    let prof_rank = weapon_prof_rank(weapon.weapon_category.as_str(), profs);
    let attack_bonus = ability_mod + prof_rank.bonus() + level as i32 + weapon.potency as i32;
    let num_dice: u8 = 1 + weapon.striking.extra_dice();
    let die = weapon.damage_die_str();
    let dmg_mod = if is_ranged { 0 } else { ability_mod };
    let mut damage = decimal_string(num_dice as u64);
    damage.append(die.as_str());
    if dmg_mod != 0 {
        if dmg_mod > 0 {
            damage.append("+");
            proof {
                reveal_strlit("+");
            }
        }
        let m = signed_string(dmg_mod);
        damage.append(m.as_str());
    }
    damage.append(" ");
    damage.append(weapon.damage_type.as_str());
    proof {
        reveal_strlit(" ");
    }
    assert(damage@ =~= damage_text(1 + striking_dice(weapon.striking), die_text(weapon.damage_die), dmg_mod as int, weapon.damage_type@));
    WeaponAttack { display: weapon.display_name(), attack_bonus, damage }
}

fn build_attacks(weapons: &Vec<Weapon>, abilities: &Abilities, profs: &Proficiencies, level: u8) -> (r: Vec<WeaponAttack>)
    requires
        abilities@.bounded(),
    ensures
        attacks_view(r@) == weapons@.map_values(|w: Weapon| attack_spec(w, abilities@, profs@, level)),
{
    let mut out: Vec<WeaponAttack> = Vec::new();
    let mut i: usize = 0;
    while i < weapons.len()
        invariant
            i <= weapons.len(),
            abilities@.bounded(),
            out@.len() == i,
            forall|k: int| 0 <= k < i ==> (#[trigger] out@[k])@ == attack_spec(weapons@[k], abilities@, profs@, level),
        decreases weapons.len() - i,
    {
        let w = compute_weapon_attack(&weapons[i], abilities, profs, level);
        out.push(w);
        i = i + 1;
    }
    assert(attacks_view(out@) =~= weapons@.map_values(|w: Weapon| attack_spec(w, abilities@, profs@, level)));
    out
}


// ---------------------------------------------------------------------------
// The whole character
// ---------------------------------------------------------------------------

/// Ancestry HP of a build (0 without ancestry data).
pub open spec fn ancestry_hp_of(c: BuildChoices) -> u32 {
    match c.ancestry_data {
        Some(d) => d.hp,
        None => 0,
    }
}

/// Class HP of a build (0 without class data).
pub open spec fn class_hp_of(c: BuildChoices) -> u32 {
    match c.class_data {
        Some(d) => d.hp,
        None => 0,
    }
}

/// The class's key ability name, if any.
pub open spec fn key_ability_name(c: BuildChoices) -> Option<String> {
    match c.class_data {
        Some(d) => d.key_ability,
        None => None,
    }
}

/// The arithmetic of `recalculate` stays within its machine types on these choices.
pub open spec fn recalc_fits(c: BuildChoices) -> bool {
    let a = recalc_abilities(c);
    &&& choices_bounded(c)
    &&& derived_hp_fits(ancestry_hp_of(c), class_hp_of(c), a.modifier(Ability::Constitution), c.level)
    &&& recalc_ac_fits(c.equipment.armor@, a, recalc_profs(c), c.level)
}

/// The character derived from a build.
pub open spec fn recalc_spec(c: BuildChoices) -> CharacterView {
    let a = recalc_abilities(c);
    let p = recalc_profs(c);
    let lvl = c.level;
    let armor = c.equipment.armor@;
    let res = recalc_resilient(armor);
    let dc_rank = if c.class is Some { Rank::Trained } else { Rank::Untrained };
    CharacterView {
        name: c.name@,
        level: lvl,
        ancestry: opt_str(c.ancestry),
        heritage: opt_str(c.heritage),
        background: opt_str(c.background),
        class: opt_str(c.class),
        deity: opt_str(c.deity),
        key_ability: opt_str(key_ability_name(c)),
        alignment: None,
        size: match c.ancestry_data {
            Some(d) => opt_str(d.size),
            None => None,
        },
        speed: match c.ancestry_data {
            Some(d) => d.speed,
            None => 25,
        },
        hp_max: derived_hp_spec(ancestry_hp_of(c), class_hp_of(c), a.modifier(Ability::Constitution), lvl) as u32,
        ancestry_hp: ancestry_hp_of(c),
        class_hp: class_hp_of(c),
        abilities: a,
        proficiencies: p,
        feats: recalc_feats(c),
        spell_caster: recalc_caster(c),
        ac: recalc_ac(armor, a, p, lvl) as i32,
        perception_bonus: check_spec(a.modifier(Ability::Wisdom), p.perception, lvl) as i32,
        fortitude_bonus: (check_spec(a.modifier(Ability::Constitution), p.fortitude, lvl) + res) as i32,
        reflex_bonus: (check_spec(a.modifier(Ability::Dexterity), p.reflex, lvl) + res) as i32,
        will_bonus: (check_spec(a.modifier(Ability::Wisdom), p.will, lvl) + res) as i32,
        class_dc: (10 + check_spec(a.modifier(key_ability_of(key_ability_name(c))), dc_rank, lvl)) as i32,
        melee_attack: check_spec(a.modifier(Ability::Strength), best_melee_rank(p), lvl) as i32,
        ranged_attack: check_spec(a.modifier(Ability::Dexterity), best_melee_rank(p), lvl) as i32,
        spell_attack: recalc_spell_attack(c, a) as i32,
        spell_dc: recalc_spell_dc(c, a) as i32,
        weapon_attacks: c.equipment.weapons@.map_values(|w: Weapon| attack_spec(w, a, p, lvl)),
        shield_ac_bonus: match c.equipment.shield {
            Some(s) => if s.raised { s.ac_bonus } else { 0 },
            None => 0,
        },
        focus_points: recalc_focus_points(c),
        languages: recalc_languages(c, a.modifier(Ability::Intelligence)),
        favored_weapon: match c.deity_data {
            Some(dd) => opt_str(dd.favored_weapon),
            None => None,
        },
    }
}

fn ability_or(name: &Option<String>, default: Ability) -> (r: Ability)
    ensures
        r == match *name {
            Some(s) => match ability_named(s@) {
                Some(a) => a,
                None => default,
            },
            None => default,
        },
{
    match name {
        Some(s) => match parse_ability(s.as_str()) {
            Some(a) => a,
            None => default,
        },
        None => default,
    }
}

/// Spellcasting block, focus points, spell attack and spell DC of a build.
fn build_spellcasting(c: &BuildChoices, abilities: &Abilities) -> (r: (Option<SpellCaster>, u8, i32, i32))
    requires
        abilities@.bounded(),
        abilities@ == recalc_abilities(*c),
    ensures
        caster_view(r.0) == recalc_caster(*c),
        r.1 == recalc_focus_points(*c),
        r.2 == recalc_spell_attack(*c, abilities@),
        r.3 == recalc_spell_dc(*c, abilities@),
{
    proof {
        lemma_modifier_bounds(abilities@, Ability::Strength);
        lemma_modifier_bounds(abilities@, Ability::Dexterity);
        lemma_modifier_bounds(abilities@, Ability::Constitution);
        lemma_modifier_bounds(abilities@, Ability::Intelligence);
        lemma_modifier_bounds(abilities@, Ability::Wisdom);
        lemma_modifier_bounds(abilities@, Ability::Charisma);
    }
    let level = c.level;
    let mut spell_caster: Option<SpellCaster> = None;
    let mut focus_points: u8 = 0;
    let mut spell_attack: i32 = 0;
    let mut spell_dc: i32 = 0;
    match &c.class_data {
        Some(d) => match &d.tradition {
            Some(t) => {
                let spells = build_prepared(c);
                let focus_spells = build_focus(c);
                focus_points = if focus_spells.len() < 3 { focus_spells.len() as u8 } else { 3 };
                spell_caster = Some(SpellCaster {
                    tradition: Some(t.clone()),
                    ability: clone_opt(&d.casting_ability),
                    spells,
                    focus_spells,
                });
                let casting = ability_or(&d.casting_ability, Ability::Intelligence);
                spell_attack = abilities.modifier(casting) + Rank::Trained.bonus() + level as i32;
                spell_dc = 10 + spell_attack;
            },
            None => {},
        },
        None => {},
    }

    proof {
        if spell_caster is Some {
            assert(c.focus_spells.deep_view().len() == c.focus_spells@.len());
        }
    }
    (spell_caster, focus_points, spell_attack, spell_dc)
}

/// AC, shield bonus, perception and the three saves of a build.
fn build_defenses(c: &BuildChoices, abilities: &Abilities, profs: &Proficiencies) -> (r: (i32, i32, i32, i32, i32, i32))
    requires
        recalc_fits(*c),
        abilities@ == recalc_abilities(*c),
        profs@ == recalc_profs(*c),
    ensures
        r.0 == recalc_spec(*c).ac,
        r.1 == recalc_spec(*c).shield_ac_bonus,
        r.2 == recalc_spec(*c).perception_bonus,
        r.3 == recalc_spec(*c).fortitude_bonus,
        r.4 == recalc_spec(*c).reflex_bonus,
        r.5 == recalc_spec(*c).will_bonus,
{
    proof {
        lemma_apply_choices_len(AbilitiesView { boosts: Seq::empty(), flaws: Seq::empty() }, c.ability_choices.view());
        lemma_modifier_bounds(abilities@, Ability::Dexterity);
        lemma_modifier_bounds(abilities@, Ability::Constitution);
        lemma_modifier_bounds(abilities@, Ability::Wisdom);
    }
    let level = c.level;
    // AC from worn armor
    let (ac, res_bonus) = match find_worn(&c.equipment.armor) {
        Some(i) => {
            let a = &c.equipment.armor[i];
            let rank = armor_prof_rank(a.armor_category.as_str(), &profs);
            (combat::compute_ac(&abilities, rank, level, a.ac_bonus, a.dex_cap, a.potency), a.resilient.bonus())
        },
        None => (combat::compute_ac(&abilities, profs.unarmored, level, 0, None, 0), 0i32),
    };
    let shield_ac_bonus = match &c.equipment.shield {
        Some(s) => if s.raised { s.ac_bonus } else { 0 },
        None => 0,
    };
    let perception_bonus = combat::compute_perception(&abilities, profs.perception, level);
    let fortitude_bonus = combat::compute_save(&abilities, Ability::Constitution, profs.fortitude, level) + res_bonus;
    let reflex_bonus = combat::compute_save(&abilities, Ability::Dexterity, profs.reflex, level) + res_bonus;
    let will_bonus = combat::compute_save(&abilities, Ability::Wisdom, profs.will, level) + res_bonus;

    (ac, shield_ac_bonus, perception_bonus, fortitude_bonus, reflex_bonus, will_bonus)
}

/// Class DC and the generic melee and ranged attack bonuses of a build.
fn build_offenses(c: &BuildChoices, abilities: &Abilities, profs: &Proficiencies, key_ability: &Option<String>) -> (r: (i32, i32, i32))
    requires
        recalc_fits(*c),
        abilities@ == recalc_abilities(*c),
        profs@ == recalc_profs(*c),
        opt_str(*key_ability) == opt_str(key_ability_name(*c)),
    ensures
        r.0 == recalc_spec(*c).class_dc,
        r.1 == recalc_spec(*c).melee_attack,
        r.2 == recalc_spec(*c).ranged_attack,
{
    proof {
        lemma_apply_choices_len(AbilitiesView { boosts: Seq::empty(), flaws: Seq::empty() }, c.ability_choices.view());
    }
    let level = c.level;
    // Class DC
    let key = ability_or(key_ability, Ability::Strength);
    let dc_rank = if c.class.is_some() { Rank::Trained } else { Rank::Untrained };
    let class_dc = combat::compute_class_dc(&abilities, key, dc_rank, level);

    // Best weapon proficiency for generic melee/ranged
    let best_melee = {
        let mut b = profs.unarmed;
        if profs.simple_weapons.above(b) {
            b = profs.simple_weapons;
        }
        if profs.martial_weapons.above(b) {
            b = profs.martial_weapons;
        }
        b
    };
    let melee_attack = combat::compute_melee_attack(&abilities, best_melee, level);
    let ranged_attack = combat::compute_ranged_attack(&abilities, best_melee, level);

    (class_dc, melee_attack, ranged_attack)
}

/// Derive a full `Character` from declarative `BuildChoices`.
pub fn recalculate(choices: &BuildChoices) -> (r: Character)
    requires
        recalc_fits(*choices),
    ensures
        r@ == recalc_spec(*choices),
{
    let c = choices;
    let level = c.level;
    let abilities = build_abilities(c);
    proof {
        lemma_apply_choices_len(AbilitiesView { boosts: Seq::empty(), flaws: Seq::empty() }, c.ability_choices.view());
        assert(abilities@.bounded());
        lemma_modifier_bounds(abilities@, Ability::Strength);
        lemma_modifier_bounds(abilities@, Ability::Dexterity);
        lemma_modifier_bounds(abilities@, Ability::Constitution);
        lemma_modifier_bounds(abilities@, Ability::Intelligence);
        lemma_modifier_bounds(abilities@, Ability::Wisdom);
        lemma_modifier_bounds(abilities@, Ability::Charisma);
    }
    let profs = build_proficiencies(c);
    let feats = build_feats(c);

    // Ancestry data
    let (size, speed, ancestry_hp) = match &c.ancestry_data {
        Some(d) => (clone_opt(&d.size), d.speed, d.hp),
        None => (None, 25u32, 0u32),
    };
    // Class data
    let (class_hp, key_ability) = match &c.class_data {
        Some(d) => (d.hp, clone_opt(&d.key_ability)),
        None => (0u32, None),
    };

    // Languages
    let int_mod = abilities.modifier(Ability::Intelligence);
    let languages = build_languages(c, int_mod);

    // Deity mechanics
    let favored_weapon = match &c.deity_data {
        Some(dd) => clone_opt(&dd.favored_weapon),
        None => None,
    };

    // Spellcasting
    let (spell_caster, focus_points, spell_attack, spell_dc) = build_spellcasting(c, &abilities);

    // HP
    let con_mod = abilities.modifier(Ability::Constitution);
    let hp_max = derived_hp_from(ancestry_hp, class_hp, con_mod, level);

    let (ac, shield_ac_bonus, perception_bonus, fortitude_bonus, reflex_bonus, will_bonus) =
        build_defenses(c, &abilities, &profs);
    let (class_dc, melee_attack, ranged_attack) = build_offenses(c, &abilities, &profs, &key_ability);

    // Per-weapon attacks
    let weapon_attacks = build_attacks(&c.equipment.weapons, &abilities, &profs, level);

    let ch = Character {
        name: c.name.clone(),
        level,
        ancestry: clone_opt(&c.ancestry),
        heritage: clone_opt(&c.heritage),
        background: clone_opt(&c.background),
        class: clone_opt(&c.class),
        deity: clone_opt(&c.deity),
        key_ability,
        alignment: None,
        size,
        speed,
        hp_max,
        ancestry_hp,
        class_hp,
        abilities,
        proficiencies: profs,
        feats,
        spell_caster,
        ac,
        perception_bonus,
        fortitude_bonus,
        reflex_bonus,
        will_bonus,
        class_dc,
        melee_attack,
        ranged_attack,
        spell_attack,
        spell_dc,
        weapon_attacks,
        shield_ac_bonus,
        focus_points,
        languages,
        favored_weapon,
    };
    ch
}


/// The boost and flaw entry totals of the choice sets, each when it is at most
/// `MAX_ENTRIES`.
fn choice_totals_bounded(c: &BuildChoices) -> (r: bool)
    ensures
        r == choices_bounded(*c),
{
    let m = &c.ability_choices;
    let ghost s = m.view();
    let n = m.len();
    let mut boosts: u128 = 0;
    let mut flaws: u128 = 0;
    let mut i: usize = 0;
    while i < n
        invariant
            n == s.len(),
            s == m.view(),
            s == c.ability_choices.view(),
            i <= n,
            boosts == boost_total(s.take(i as int)),
            flaws == flaw_total(s.take(i as int)),
            boosts <= MAX_ENTRIES,
            flaws <= MAX_ENTRIES,
        decreases n - i,
    {
        let (_k, set) = m.entry(i);
        assert(s.take(i + 1).drop_last() =~= s.take(i as int));
        assert(s.take(i + 1).last() == s[i as int]);
        let b = set.fixed.len() as u128 + set.chosen.len() as u128;
        let f = set.flaws.len() as u128;
        assert(s[i as int].1.0.len() == set.fixed@.len());
        assert(boost_total(s.take(i + 1)) == boosts + b);
        assert(flaw_total(s.take(i + 1)) == flaws + f);
        if b > MAX_ENTRIES as u128 - boosts || f > MAX_ENTRIES as u128 - flaws {
            proof {
                lemma_totals_monotone(s, i + 1);
            }
            return false;
        }
        boosts = boosts + b;
        flaws = flaws + f;
        i = i + 1;
    }
    assert(s.take(n as int) =~= s);
    true
}

/// Totals over a prefix are at most the totals over the whole.
proof fn lemma_totals_monotone(s: Seq<(Seq<char>, (Seq<Ability>, Seq<Ability>, Seq<Ability>))>, k: int)
    requires
        0 <= k <= s.len(),
    ensures
        boost_total(s.take(k)) <= boost_total(s),
        flaw_total(s.take(k)) <= flaw_total(s),
    decreases s.len() - k,
{
    if k < s.len() {
        lemma_totals_monotone(s, k + 1);
        assert(s.take(k + 1).drop_last() =~= s.take(k));
    } else {
        assert(s.take(k) =~= s);
    }
}

/// Whether the AC arithmetic fits for the given parts.
fn ac_fits_exec(capped_dex: i64, rank: Rank, level: u8, ac_bonus: i32, potency: u8) -> (r: bool)
    requires
        -0x1_0000_0000 <= capped_dex <= 0x1_0000_0000,
    ensures
        r == ac_fits(capped_dex as int, rank, level, ac_bonus, potency),
{
    let a: i64 = 10 + capped_dex;
    let b: i64 = a + rank.bonus() as i64;
    let c: i64 = b + level as i64;
    let d: i64 = c + ac_bonus as i64;
    let e: i64 = d + potency as i64;
    let lo: i64 = -0x8000_0000;
    let hi: i64 = 0x7fff_ffff;
    lo <= a && a <= hi && lo <= b && b <= hi && lo <= c && c <= hi && lo <= d && d <= hi && lo
        <= e && e <= hi
}

/// Whether the numbers derived from `c` fit their machine types (`recalc_fits`).
pub fn recalc_fits_exec(c: &BuildChoices) -> (r: bool)
    ensures
        r == recalc_fits(*c),
{
    if !choice_totals_bounded(c) {
        return false;
    }
    let abilities = build_abilities(c);
    proof {
        lemma_apply_choices_len(AbilitiesView { boosts: Seq::empty(), flaws: Seq::empty() }, c.ability_choices.view());
        lemma_modifier_bounds(abilities@, Ability::Dexterity);
        lemma_modifier_bounds(abilities@, Ability::Constitution);
    }
    let ancestry_hp: u32 = match &c.ancestry_data {
        Some(d) => d.hp,
        None => 0,
    };
    let class_hp: u32 = match &c.class_data {
        Some(d) => d.hp,
        None => 0,
    };
    let con = abilities.modifier(Ability::Constitution);
    let x: i64 = (#[verifier::truncate] (class_hp as i32)) as i64 + con as i64;
    let hp_ok = if x < -0x8000_0000 || x > 0x7fff_ffff {
        false
    } else {
        let per: i64 = if x < 1 { 1 } else { x };
        assert(per * c.level <= 0x7fff_ffff * 255) by (nonlinear_arith)
            requires
                1 <= per <= 0x7fff_ffff,
                c.level <= 255,
        ;
        assert(per * c.level >= 0) by (nonlinear_arith)
            requires
                1 <= per,
        ;
        let total: i128 = per as i128 * c.level as i128;
        total <= 0x7fff_ffff && ancestry_hp as i128 + total <= 0xffff_ffff
    };
    assert(hp_ok == derived_hp_fits(ancestry_hp_of(*c), class_hp_of(*c), abilities@.modifier(Ability::Constitution), c.level));
    if !hp_ok {
        return false;
    }
    let profs = build_proficiencies(c);
    let dex = abilities.modifier(Ability::Dexterity);
    let ac_ok = match find_worn(&c.equipment.armor) {
        Some(i) => {
            let a = &c.equipment.armor[i];
            let cd: i64 = match a.dex_cap {
                Some(cap) => if (dex as i64) < cap as i64 {
                    dex as i64
                } else {
                    cap as i64
                },
                None => dex as i64,
            };
            let rank = armor_prof_rank(a.armor_category.as_str(), &profs);
            ac_fits_exec(cd, rank, c.level, a.ac_bonus, a.potency)
        },
        None => ac_fits_exec(dex as i64, profs.unarmored, c.level, 0, 0),
    };
    ac_ok
}

/// Recalculate when the derived numbers fit their machine types.
pub fn try_recalculate(choices: &BuildChoices) -> (r: Option<Character>)
    ensures
        match r {
            Some(ch) => recalc_fits(*choices) && ch@ == recalc_spec(*choices),
            None => !recalc_fits(*choices),
        },
{
    if recalc_fits_exec(choices) {
        Some(recalculate(choices))
    } else {
        None
    }
}

/// The derived character does not depend on the build's name beyond copying it, nor on
/// the chosen divine font.
pub proof fn lemma_derivation_ignores_name_and_font(c: BuildChoices, c2: BuildChoices)
    requires
        c2 == (BuildChoices { name: c2.name, chosen_divine_font: c2.chosen_divine_font, ..c }),
    ensures
        recalc_fits(c2) == recalc_fits(c),
        recalc_spec(c2) == (CharacterView { name: c2.name@, ..recalc_spec(c) }),
{
    assert(profs_after_background(c2) == profs_after_background(c));
    assert(profs_after_class(c2) == profs_after_class(c));
    assert(profs_after_skills(c2) == profs_after_skills(c));
    assert(recalc_profs(c2) == recalc_profs(c));
    assert(recalc_abilities(c2) == recalc_abilities(c));
    assert(background_feat(c2) == background_feat(c));
    assert(recalc_feats(c2) == recalc_feats(c));
    assert(recalc_caster(c2) == recalc_caster(c));
    assert(recalc_focus_points(c2) == recalc_focus_points(c));
    let a = recalc_abilities(c);
    assert(recalc_spell_attack(c2, a) == recalc_spell_attack(c, a));
    assert(recalc_spell_dc(c2, a) == recalc_spell_dc(c, a));
    assert(recalc_languages(c2, a.modifier(Ability::Intelligence)) == recalc_languages(c, a.modifier(Ability::Intelligence)));
    assert(ancestry_hp_of(c2) == ancestry_hp_of(c));
    assert(class_hp_of(c2) == class_hp_of(c));
    assert(key_ability_name(c2) == key_ability_name(c));
    assert(choices_bounded(c2) == choices_bounded(c));
}

} // verus!
