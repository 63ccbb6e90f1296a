//! The character sheet exported in Pathbuilder's JSON layout.
use vstd::prelude::*;
use crate::build::choices::{BuildChoices, SpellSlotChoice};
use crate::model::character::{Character, CharacterView, WeaponAttack, attacks_view};
use crate::model::equipment::{
    Armor, Item, Weapon, die_text, item_display, resilient_bonus, resilient_label, striking_dice, striking_label,
};
use crate::build::maps::{NameMap, name_lookup, name_stored};
use crate::document::{
    JsonView, Value, first_member, int_value, items_view, json_member, json_view, lemma_items_view, lemma_members_view, member, members_view, str_array,
    str_value, strings_value,
};
use crate::model::abilities::{Ability, BoostSource, abbr_spec, sources_view};
use crate::scan::strip_prefixes;
use crate::model::feat::{FeatChoice, FeatChoiceView, FeatType, feats_view};
use crate::model::proficiencies::{
    Proficiencies, ProficienciesView, Rank, SKILL_COUNT, named_ranks, rank_bonus, rank_of, skill_name, skill_name_spec,
};
use crate::text::{chars_of, has_infix, has_prefix, lowercase, opt_str, owned, str_eq, string_of, strs, to_lowercase};

verus! {

/// The boosts of an exported sheet, by where they came from.
pub struct Breakdown {
    pub ancestry_free: Seq<Seq<char>>,
    pub ancestry_boosts: Seq<Seq<char>>,
    pub background_boosts: Seq<Seq<char>>,
    pub class_boosts: Seq<Seq<char>>,
    /// Boosts taken at a level, under the level's text, in key order.
    pub levelled: Seq<(Seq<char>, Seq<Seq<char>>)>,
}

/// No boosts sorted yet.
pub open spec fn no_breakdown() -> Breakdown {
    Breakdown {
        ancestry_free: Seq::empty(),
        ancestry_boosts: Seq::empty(),
        background_boosts: Seq::empty(),
        class_boosts: Seq::empty(),
        levelled: Seq::empty(),
    }
}

/// `b` with one more boost sorted in: an ancestry boost is fixed or free by the
/// ancestry's fixed boosts, a "level_N" boost goes under "N" (every leading "level_"
/// removed), and boosts of other sources are left out.
pub open spec fn sorted_in(b: Breakdown, boost: (Seq<char>, Ability), fixed: Seq<Ability>) -> Breakdown {
    let abbr = abbr_spec(boost.1);
    let src = boost.0;
    if src == "ancestry"@ {
        if fixed.contains(boost.1) {
            Breakdown { ancestry_boosts: b.ancestry_boosts.push(abbr), ..b }
        } else {
            Breakdown { ancestry_free: b.ancestry_free.push(abbr), ..b }
        }
    } else if src == "background"@ {
        Breakdown { background_boosts: b.background_boosts.push(abbr), ..b }
    } else if src == "class"@ {
        Breakdown { class_boosts: b.class_boosts.push(abbr), ..b }
    } else if has_prefix(src, "level_"@) {
        let lvl = strip_prefixes(src, "level_"@);
        let prev = match name_lookup(b.levelled, lvl) {
            Some(v) => v,
            None => Seq::empty(),
        };
        Breakdown { levelled: name_stored(b.levelled, lvl, prev.push(abbr)), ..b }
    } else {
        b
    }
}

/// The boosts sorted by where they came from, in order.
pub open spec fn breakdown_of(boosts: Seq<(Seq<char>, Ability)>, fixed: Seq<Ability>) -> Breakdown
    decreases boosts.len(),
{
    if boosts.len() == 0 {
        no_breakdown()
    } else {
        sorted_in(breakdown_of(boosts.drop_last(), fixed), boosts.last(), fixed)
    }
}

/// The abbreviations of the flaws whose source mentions "ancestry", in order.
pub open spec fn ancestry_flaws(flaws: Seq<(Seq<char>, Ability)>) -> Seq<Seq<char>>
    decreases flaws.len(),
{
    if flaws.len() == 0 {
        Seq::empty()
    } else {
        let front = ancestry_flaws(flaws.drop_last());
        if has_infix(flaws.last().0, "ancestry"@) {
            front.push(abbr_spec(flaws.last().1))
        } else {
            front
        }
    }
}

/// The ancestry's fixed boosts, none without an ancestry.
pub open spec fn ancestry_fixed(c: BuildChoices) -> Seq<Ability> {
    match c.ancestry_data {
        Some(d) => d.boost_spec.fixed@,
        None => Seq::empty(),
    }
}

/// The levelled boosts as an object keyed by level.
pub open spec fn levelled_json(l: Seq<(Seq<char>, Seq<Seq<char>>)>) -> JsonView {
    JsonView::Obj(l.map_values(|e: (Seq<char>, Seq<Seq<char>>)| (e.0, str_array(e.1))))
}

/// The exported boost breakdown.
pub open spec fn breakdown_json(
    fixed: Seq<Ability>,
    boosts: Seq<(Seq<char>, Ability)>,
    flaws: Seq<(Seq<char>, Ability)>,
) -> JsonView {
    let b = breakdown_of(boosts, fixed);
    JsonView::Obj(
        seq![
            ("ancestryFree"@, str_array(b.ancestry_free)),
            ("ancestryBoosts"@, str_array(b.ancestry_boosts)),
            ("ancestryFlaws"@, str_array(ancestry_flaws(flaws))),
            ("backgroundBoosts"@, str_array(b.background_boosts)),
            ("classBoosts"@, str_array(b.class_boosts)),
            ("mapLevelledBoosts"@, levelled_json(b.levelled)),
        ],
    )
}

fn has_ability(v: &Vec<Ability>, a: Ability) -> (r: bool)
    ensures
        r == v@.contains(a),
{
    let mut i: usize = 0;
    while i < v.len()
        invariant
            i <= v@.len(),
            forall|j: int| 0 <= j < i ==> v@[j] != a,
        decreases v@.len() - i,
    {
        if v[i] == a {
            assert(v@[i as int] == a);
            return true;
        }
        i = i + 1;
    }
    false
}

fn push_abbr(v: &mut Vec<String>, a: Ability)
    ensures
        strs(final(v)@) == strs(old(v)@).push(abbr_spec(a)),
{
    v.push(owned(a.abbr()));
    assert(strs(v@) =~= strs(old(v)@).push(abbr_spec(a)));
}

fn copy_strings(v: &Vec<String>) -> (r: Vec<String>)
    ensures
        strs(r@) == strs(v@),
{
    crate::text::clone_strings(v)
}

/// The levelled boosts as a JSON object.
fn levelled_value(m: &NameMap<Vec<String>>) -> (r: Value)
    ensures
        json_view(r) == levelled_json(m.view()),
{
    let ghost l = m.view();
    let mut out: Vec<(String, Value)> = Vec::new();
    let mut i: usize = 0;
    let n = m.len();
    while i < n
        invariant
            n == l.len(),
            l == m.view(),
            i <= n,
            members_view(out@) == l.take(i as int).map_values(
                |e: (Seq<char>, Seq<Seq<char>>)| (e.0, str_array(e.1)),
            ),
        decreases n - i,
    {
        let (k, v) = m.entry(i);
        assert(v.deep_view() =~= strs(v@));
        let ghost before = out@;
        out.push(member(k, strings_value(v)));
        assert(out@.drop_last() =~= before);
        assert(l.take(i + 1).map_values(|e: (Seq<char>, Seq<Seq<char>>)| (e.0, str_array(e.1))) =~= l.take(
            i as int,
        ).map_values(|e: (Seq<char>, Seq<Seq<char>>)| (e.0, str_array(e.1))).push((l[i as int].0, str_array(l[i as int].1))));
        i = i + 1;
    }
    assert(l.take(n as int) =~= l);
    Value::Object(out)
}

/// The boost breakdown of an exported sheet: ancestry boosts split into fixed and
/// free, ancestry flaws, background and class boosts, and level boosts by level.
pub fn build_ability_breakdown(fixed: &Vec<Ability>, boosts: &Vec<BoostSource>, flaws: &Vec<BoostSource>) -> (r: Value)
    ensures
        json_view(r) == breakdown_json(fixed@, sources_view(boosts@), sources_view(flaws@)),
{
    let ghost bs = sources_view(boosts@);
    let mut ancestry_free: Vec<String> = Vec::new();
    let mut ancestry_boosts: Vec<String> = Vec::new();
    let mut background_boosts: Vec<String> = Vec::new();
    let mut class_boosts: Vec<String> = Vec::new();
    let mut levelled: NameMap<Vec<String>> = NameMap::new();
    let level_prefix = chars_of("level_");
    let mut i: usize = 0;
    while i < boosts.len()
        invariant
            i <= boosts@.len(),
            bs == sources_view(boosts@),
            level_prefix@ == "level_"@,
            ({
                let b = breakdown_of(bs.take(i as int), fixed@);
                &&& strs(ancestry_free@) == b.ancestry_free
                &&& strs(ancestry_boosts@) == b.ancestry_boosts
                &&& strs(background_boosts@) == b.background_boosts
                &&& strs(class_boosts@) == b.class_boosts
                &&& levelled.view() == b.levelled
            }),
        decreases boosts@.len() - i,
    {
        assert(bs.take(i + 1).drop_last() =~= bs.take(i as int));
        let boost = &boosts[i];
        let src = boost.source.as_str();
        let a = boost.ability;
        let ghost prev = breakdown_of(bs.take(i as int), fixed@);
        assert(bs.take(i + 1).last() == (src@, a));
        assert(breakdown_of(bs.take(i + 1), fixed@) == sorted_in(prev, (src@, a), fixed@));
        if str_eq(src, "ancestry") {
            if has_ability(fixed, a) {
                push_abbr(&mut ancestry_boosts, a);
            } else {
                push_abbr(&mut ancestry_free, a);
            }
        } else if str_eq(src, "background") {
            push_abbr(&mut background_boosts, a);
        } else if str_eq(src, "class") {
            push_abbr(&mut class_boosts, a);
        } else if crate::text::starts_with(src, "level_") {
            let lvl = string_of(&crate::scan::strip_prefixes_chars(&chars_of(src), &level_prefix));
            let ghost key = strip_prefixes(src@, "level_"@);
            assert(lvl@ == key);
            let mut list = match levelled.get(lvl.as_str()) {
                Some(v) => {
                    assert(v.deep_view() =~= strs(v@));
                    let l = copy_strings(v);
                    assert(name_lookup(prev.levelled, key) == Some(strs(l@)));
                    l
                },
                None => {
                    let l: Vec<String> = Vec::new();
                    assert(strs(l@) =~= Seq::<Seq<char>>::empty());
                    l
                },
            };
            assert(strs(list@) == match name_lookup(prev.levelled, key) {
                Some(v) => v,
                None => Seq::empty(),
            });
            push_abbr(&mut list, a);
            assert(list.deep_view() =~= strs(list@));
            let ghost lv = lvl@;
            levelled.insert(lvl, list);
            assert(lv == strip_prefixes(src@, "level_"@));
            assert(levelled.view() == breakdown_of(bs.take(i + 1), fixed@).levelled);
        } else {
            assert(breakdown_of(bs.take(i + 1), fixed@) == prev);
        }
        assert(strs(ancestry_free@) == breakdown_of(bs.take(i + 1), fixed@).ancestry_free);
        assert(strs(ancestry_boosts@) == breakdown_of(bs.take(i + 1), fixed@).ancestry_boosts);
        assert(strs(background_boosts@) == breakdown_of(bs.take(i + 1), fixed@).background_boosts);
        assert(strs(class_boosts@) == breakdown_of(bs.take(i + 1), fixed@).class_boosts);
        assert(levelled.view() == breakdown_of(bs.take(i + 1), fixed@).levelled);
        i = i + 1;
    }
    assert(bs.take(boosts@.len() as int) =~= bs);
    let ghost fs = sources_view(flaws@);
    let mut ancestry_flaw_list: Vec<String> = Vec::new();
    let mut j: usize = 0;
    while j < flaws.len()
        invariant
            j <= flaws@.len(),
            fs == sources_view(flaws@),
            strs(ancestry_flaw_list@) == ancestry_flaws(fs.take(j as int)),
        decreases flaws@.len() - j,
    {
        assert(fs.take(j + 1).drop_last() =~= fs.take(j as int));
        if crate::text::contains(flaws[j].source.as_str(), "ancestry") {
            push_abbr(&mut ancestry_flaw_list, flaws[j].ability);
        }
        j = j + 1;
    }
    assert(fs.take(flaws@.len() as int) =~= fs);
    let e = vec![
        member("ancestryFree", strings_value(&ancestry_free)),
        member("ancestryBoosts", strings_value(&ancestry_boosts)),
        member("ancestryFlaws", strings_value(&ancestry_flaw_list)),
        member("backgroundBoosts", strings_value(&background_boosts)),
        member("classBoosts", strings_value(&class_boosts)),
        member("mapLevelledBoosts", levelled_value(&levelled)),
    ];
    proof {
        lemma_members_view(e@);
        let b = breakdown_of(bs, fixed@);
        assert(e@.map_values(|p: (String, Value)| (p.0@, json_view(p.1))) =~= seq![
            ("ancestryFree"@, str_array(b.ancestry_free)),
            ("ancestryBoosts"@, str_array(b.ancestry_boosts)),
            ("ancestryFlaws"@, str_array(ancestry_flaws(fs))),
            ("backgroundBoosts"@, str_array(b.background_boosts)),
            ("classBoosts"@, str_array(b.class_boosts)),
            ("mapLevelledBoosts"@, levelled_json(b.levelled)),
        ]);
    }
    Value::Object(e)
}

/// The bonus of a rank as a JSON number.
pub open spec fn bonus_json(r: Rank) -> JsonView {
    JsonView::Int(rank_bonus(r))
}

/// The exported proficiency bonuses: the fixed entries, then each standard skill
/// under its lower-cased name.
pub open spec fn proficiencies_json(p: ProficienciesView) -> JsonView {
    JsonView::Obj(
        seq![
            ("classDC"@, JsonView::Int(0)),
            ("perception"@, bonus_json(p.perception)),
            ("fortitude"@, bonus_json(p.fortitude)),
            ("reflex"@, bonus_json(p.reflex)),
            ("will"@, bonus_json(p.will)),
            ("heavy"@, bonus_json(p.heavy_armor)),
            ("medium"@, bonus_json(p.medium_armor)),
            ("light"@, bonus_json(p.light_armor)),
            ("unarmored"@, bonus_json(p.unarmored)),
            ("advanced"@, JsonView::Int(0)),
            ("martial"@, bonus_json(p.martial_weapons)),
            ("simple"@, bonus_json(p.simple_weapons)),
            ("unarmed"@, bonus_json(p.unarmed)),
            ("castingArcane"@, JsonView::Int(0)),
            ("castingDivine"@, JsonView::Int(0)),
            ("castingOccult"@, JsonView::Int(0)),
            ("castingPrimal"@, JsonView::Int(0)),
        ] + Seq::new(
            SKILL_COUNT as nat,
            |i: int| (lowercase(skill_name_spec(i)), bonus_json(rank_of(p.skills, skill_name_spec(i)))),
        ),
    )
}

/// The exported perception and save bonuses are those of the character's own ranks:
/// the "perception", "fortitude", "reflex" and "will" members hold the bonus of the
/// Perception, Fortitude, Reflex and Will rank respectively.
pub proof fn law_exported_save_bonuses(p: ProficienciesView)
    ensures
        json_member(proficiencies_json(p), "perception"@) == Some(JsonView::Int(rank_bonus(p.perception))),
        json_member(proficiencies_json(p), "fortitude"@) == Some(JsonView::Int(rank_bonus(p.fortitude))),
        json_member(proficiencies_json(p), "reflex"@) == Some(JsonView::Int(rank_bonus(p.reflex))),
        json_member(proficiencies_json(p), "will"@) == Some(JsonView::Int(rank_bonus(p.will))),
{
    reveal_strlit("classDC");
    reveal_strlit("perception");
    reveal_strlit("fortitude");
    reveal_strlit("reflex");
    reveal_strlit("will");
    let ms = match proficiencies_json(p) {
        JsonView::Obj(ms) => ms,
        _ => Seq::empty(),
    };
    let m1 = ms.drop_first();
    let m2 = m1.drop_first();
    let m3 = m2.drop_first();
    let m4 = m3.drop_first();
    assert(ms[0].0 == "classDC"@);
    assert(m1[0] == ms[1] && m2[0] == ms[2] && m3[0] == ms[3] && m4[0] == ms[4]);
    assert(ms[1] == ("perception"@, bonus_json(p.perception)));
    assert(ms[2] == ("fortitude"@, bonus_json(p.fortitude)));
    assert(ms[3] == ("reflex"@, bonus_json(p.reflex)));
    assert(ms[4] == ("will"@, bonus_json(p.will)));
    let names = seq!["classDC"@, "perception"@, "fortitude"@, "reflex"@, "will"@];
    assert(names[0].len() == 7 && names[1].len() == 10 && names[2].len() == 9 && names[3].len() == 6
        && names[4].len() == 4);
    assert(first_member(m1, "perception"@) == Some(bonus_json(p.perception)));
    assert(first_member(ms, "perception"@) == Some(bonus_json(p.perception)));
    assert(first_member(m2, "fortitude"@) == Some(bonus_json(p.fortitude)));
    assert(first_member(m1, "fortitude"@) == Some(bonus_json(p.fortitude)));
    assert(first_member(ms, "fortitude"@) == Some(bonus_json(p.fortitude)));
    assert(first_member(m3, "reflex"@) == Some(bonus_json(p.reflex)));
    assert(first_member(m2, "reflex"@) == Some(bonus_json(p.reflex)));
    assert(first_member(m1, "reflex"@) == Some(bonus_json(p.reflex)));
    assert(first_member(ms, "reflex"@) == Some(bonus_json(p.reflex)));
    assert(first_member(m4, "will"@) == Some(bonus_json(p.will)));
    assert(first_member(m3, "will"@) == Some(bonus_json(p.will)));
    assert(first_member(m2, "will"@) == Some(bonus_json(p.will)));
    assert(first_member(m1, "will"@) == Some(bonus_json(p.will)));
    assert(first_member(ms, "will"@) == Some(bonus_json(p.will)));
}

fn bonus_value(r: Rank) -> (v: Value)
    ensures
        json_view(v) == bonus_json(r),
{
    int_value(r.bonus() as i64)
}

/// The proficiency bonuses of an exported sheet.
pub fn build_proficiencies(p: &Proficiencies) -> (r: Value)
    ensures
        json_view(r) == proficiencies_json(p@),
{
    let mut e = vec![
        member("classDC", int_value(0)),
        member("perception", bonus_value(p.perception)),
        member("fortitude", bonus_value(p.fortitude)),
        member("reflex", bonus_value(p.reflex)),
        member("will", bonus_value(p.will)),
        member("heavy", bonus_value(p.heavy_armor)),
        member("medium", bonus_value(p.medium_armor)),
        member("light", bonus_value(p.light_armor)),
        member("unarmored", bonus_value(p.unarmored)),
        member("advanced", int_value(0)),
        member("martial", bonus_value(p.martial_weapons)),
        member("simple", bonus_value(p.simple_weapons)),
        member("unarmed", bonus_value(p.unarmed)),
        member("castingArcane", int_value(0)),
        member("castingDivine", int_value(0)),
        member("castingOccult", int_value(0)),
        member("castingPrimal", int_value(0)),
    ];
    let ghost fixed = e@.map_values(|m: (String, Value)| (m.0@, json_view(m.1)));
    let ghost skills = Seq::new(
        SKILL_COUNT as nat,
        |i: int| (lowercase(skill_name_spec(i)), bonus_json(rank_of(p@.skills, skill_name_spec(i)))),
    );
    let mut i: usize = 0;
    while i < SKILL_COUNT
        invariant
            i <= SKILL_COUNT,
            skills == Seq::new(
                SKILL_COUNT as nat,
                |i: int| (lowercase(skill_name_spec(i)), bonus_json(rank_of(p@.skills, skill_name_spec(i)))),
            ),
            e@.len() == 17 + i,
            e@.take(17).map_values(|m: (String, Value)| (m.0@, json_view(m.1))) == fixed,
            e@.skip(17).map_values(|m: (String, Value)| (m.0@, json_view(m.1))) == skills.take(i as int),
        decreases SKILL_COUNT - i,
    {
        let skill = skill_name(i);
        let key = to_lowercase(skill);
        let ghost before = e@;
        let v = bonus_value(p.skill_rank(skill));
        let ghost pair = (key@, json_view(v));
        assert(pair == skills[i as int]);
        e.push((key, v));
        assert(e@.take(17) =~= before.take(17));
        assert(e@.skip(17) =~= before.skip(17).push(e@[17 + i as int]));
        assert(before.skip(17).map_values(|m: (String, Value)| (m.0@, json_view(m.1))) == skills.take(i as int));
        assert(e@.skip(17).map_values(|m: (String, Value)| (m.0@, json_view(m.1))) =~= before.skip(17).map_values(
            |m: (String, Value)| (m.0@, json_view(m.1)),
        ).push(pair));
        assert(skills.take(i + 1) =~= skills.take(i as int).push(skills[i as int]));
        i = i + 1;
    }
    proof {
        lemma_members_view(e@);
        assert(skills.take(SKILL_COUNT as int) =~= skills);
        let mv = e@.map_values(|m: (String, Value)| (m.0@, json_view(m.1)));
        assert forall|k: int| 0 <= k < mv.len() implies mv[k] == (fixed + skills)[k] by {
            if k < 17 {
                assert(mv[k] == e@.take(17).map_values(|m: (String, Value)| (m.0@, json_view(m.1)))[k]);
            } else {
                assert(mv[k] == e@.skip(17).map_values(|m: (String, Value)| (m.0@, json_view(m.1)))[k - 17]);
            }
        }
        assert(mv =~= fixed + skills);
        assert(fixed =~= seq![
            ("classDC"@, JsonView::Int(0)),
            ("perception"@, bonus_json(p@.perception)),
            ("fortitude"@, bonus_json(p@.fortitude)),
            ("reflex"@, bonus_json(p@.reflex)),
            ("will"@, bonus_json(p@.will)),
            ("heavy"@, bonus_json(p@.heavy_armor)),
            ("medium"@, bonus_json(p@.medium_armor)),
            ("light"@, bonus_json(p@.light_armor)),
            ("unarmored"@, bonus_json(p@.unarmored)),
            ("advanced"@, JsonView::Int(0)),
            ("martial"@, bonus_json(p@.martial_weapons)),
            ("simple"@, bonus_json(p@.simple_weapons)),
            ("unarmed"@, bonus_json(p@.unarmed)),
            ("castingArcane"@, JsonView::Int(0)),
            ("castingDivine"@, JsonView::Int(0)),
            ("castingOccult"@, JsonView::Int(0)),
            ("castingPrimal"@, JsonView::Int(0)),
        ]);
    }
    Value::Object(e)
}

/// The label of a feat's type in the export.
pub open spec fn feat_type_label(t: FeatType) -> Seq<char> {
    match t {
        FeatType::Ancestry => "Ancestry Feat"@,
        FeatType::Class => "Class Feat"@,
        FeatType::General => "General Feat"@,
        FeatType::Skill => "Skill Feat"@,
        FeatType::Heritage => "Heritage"@,
        FeatType::Bonus => "Awarded Feat"@,
    }
}

fn feat_type_str(t: FeatType) -> (r: &'static str)
    ensures
        r@ == feat_type_label(t),
{
    match t {
        FeatType::Ancestry => "Ancestry Feat",
        FeatType::Class => "Class Feat",
        FeatType::General => "General Feat",
        FeatType::Skill => "Skill Feat",
        FeatType::Heritage => "Heritage",
        FeatType::Bonus => "Awarded Feat",
    }
}

/// A feat as an export row: name, type, level and slot.
pub open spec fn feat_json(f: FeatChoiceView) -> JsonView {
    JsonView::Arr(
        seq![
            JsonView::Str(f.name),
            JsonView::Null,
            JsonView::Str(feat_type_label(f.feat_type)),
            JsonView::Int(f.level as int),
            JsonView::Str(f.slot),
            JsonView::Str("standardChoice"@),
            JsonView::Null,
        ],
    )
}

/// The feats of an exported sheet.
pub fn build_feats(feats: &Vec<FeatChoice>) -> (r: Vec<Value>)
    ensures
        items_view(r@) == feats_view(feats@).map_values(|f: FeatChoiceView| feat_json(f)),
{
    let ghost target = feats_view(feats@).map_values(|f: FeatChoiceView| feat_json(f));
    let mut out: Vec<Value> = Vec::new();
    let mut i: usize = 0;
    while i < feats.len()
        invariant
            i <= feats@.len(),
            target == feats_view(feats@).map_values(|f: FeatChoiceView| feat_json(f)),
            items_view(out@) == target.take(i as int),
        decreases feats@.len() - i,
    {
        let f = &feats[i];
        let row = vec![
            str_value(f.name.as_str()),
            Value::Null,
            str_value(feat_type_str(f.feat_type)),
            int_value(f.level as i64),
            str_value(f.slot.as_str()),
            str_value("standardChoice"),
            Value::Null,
        ];
        proof {
            lemma_items_view(row@);
            assert(row@.map_values(|x: Value| json_view(x)) =~= seq![
                JsonView::Str(f.name@),
                JsonView::Null,
                JsonView::Str(feat_type_label(f.feat_type)),
                JsonView::Int(f.level as int),
                JsonView::Str(f.slot@),
                JsonView::Str("standardChoice"@),
                JsonView::Null,
            ]);
        }
        let ghost before = out@;
        let item = Value::Array(row);
        assert(json_view(item) == target[i as int]);
        out.push(item);
        assert(out@.drop_last() =~= before);
        assert(items_view(out@) == items_view(before).push(json_view(item)));
        assert(target.take(i + 1) =~= target.take(i as int).push(target[i as int]));
        i = i + 1;
    }
    assert(target.take(feats@.len() as int) =~= target);
    out
}

/// A lore as an export row: its name and bonus.
pub open spec fn lore_json(l: (Seq<char>, Rank)) -> JsonView {
    JsonView::Arr(seq![JsonView::Str(l.0), bonus_json(l.1)])
}

/// The lores of an exported sheet.
pub fn build_lores(lores: &Vec<(String, Rank)>) -> (r: Vec<Value>)
    ensures
        items_view(r@) == named_ranks(lores@).map_values(|l: (Seq<char>, Rank)| lore_json(l)),
{
    let ghost target = named_ranks(lores@).map_values(|l: (Seq<char>, Rank)| lore_json(l));
    let mut out: Vec<Value> = Vec::new();
    let mut i: usize = 0;
    while i < lores.len()
        invariant
            i <= lores@.len(),
            target == named_ranks(lores@).map_values(|l: (Seq<char>, Rank)| lore_json(l)),
            items_view(out@) == target.take(i as int),
        decreases lores@.len() - i,
    {
        let row = vec![str_value(lores[i].0.as_str()), bonus_value(lores[i].1)];
        proof {
            lemma_items_view(row@);
            assert(row@.map_values(|x: Value| json_view(x)) =~= seq![
                JsonView::Str(lores@[i as int].0@),
                bonus_json(lores@[i as int].1),
            ]);
        }
        let ghost before = out@;
        let item = Value::Array(row);
        assert(json_view(item) == target[i as int]);
        out.push(item);
        assert(out@.drop_last() =~= before);
        assert(items_view(out@) == items_view(before).push(json_view(item)));
        assert(target.take(i + 1) =~= target.take(i as int).push(target[i as int]));
        i = i + 1;
    }
    assert(target.take(lores@.len() as int) =~= target);
    out
}

/// A text, or the empty text.
pub open spec fn or_empty(o: Option<Seq<char>>) -> Seq<char> {
    match o {
        Some(t) => t,
        None => ""@,
    }
}

fn or_empty_value(o: &Option<String>) -> (r: Value)
    ensures
        json_view(r) == JsonView::Str(or_empty(opt_str(*o))),
{
    match o {
        Some(t) => str_value(t.as_str()),
        None => str_value(""),
    }
}

/// A weapon as exported, with the attack bonus computed for it.
pub open spec fn weapon_json(w: Weapon, attack: int) -> JsonView {
    JsonView::Obj(
        seq![
            ("name"@, JsonView::Str(w.name@)),
            ("qty"@, JsonView::Int(1)),
            ("prof"@, JsonView::Str(lowercase(w.weapon_category@))),
            ("die"@, JsonView::Str(die_text(w.damage_die))),
            ("pot"@, JsonView::Int(w.potency as int)),
            ("str"@, JsonView::Int(striking_dice(w.striking))),
            ("mat"@, JsonView::Str(or_empty(opt_str(w.material)))),
            ("display"@, JsonView::Str(item_display(w.potency, striking_label(w.striking), w.name@))),
            ("runes"@, str_array(strs(w.property_runes@))),
            ("damageType"@, JsonView::Str(w.damage_type@)),
            ("attack"@, JsonView::Int(attack)),
            ("damageBonus"@, JsonView::Int(0)),
        ],
    )
}

/// The weapons as exported: the i-th takes the i-th computed attack bonus, 0 when
/// there is none.
pub open spec fn weapons_json(ws: Seq<Weapon>, attacks: Seq<(Seq<char>, i32, Seq<char>)>) -> Seq<JsonView> {
    Seq::new(
        ws.len(),
        |i: int| weapon_json(ws[i], if i < attacks.len() { attacks[i].1 as int } else { 0 }),
    )
}

/// The weapons of an exported sheet.
pub fn build_weapons(weapons: &Vec<Weapon>, attacks: &Vec<WeaponAttack>) -> (r: Vec<Value>)
    ensures
        items_view(r@) == weapons_json(weapons@, attacks_view(attacks@)),
{
    let ghost target = weapons_json(weapons@, attacks_view(attacks@));
    let mut out: Vec<Value> = Vec::new();
    let mut i: usize = 0;
    while i < weapons.len()
        invariant
            i <= weapons@.len(),
            target == weapons_json(weapons@, attacks_view(attacks@)),
            items_view(out@) == target.take(i as int),
        decreases weapons@.len() - i,
    {
        let w = &weapons[i];
        let attack: i32 = if i < attacks.len() { attacks[i].attack_bonus } else { 0 };
        let e = vec![
            member("name", str_value(w.name.as_str())),
            member("qty", int_value(1)),
            member("prof", str_value(to_lowercase(w.weapon_category.as_str()).as_str())),
            member("die", str_value(w.damage_die_str().as_str())),
            member("pot", int_value(w.potency as i64)),
            member("str", int_value(w.striking.extra_dice() as i64)),
            member("mat", or_empty_value(&w.material)),
            member("display", str_value(w.display_name().as_str())),
            member("runes", strings_value(&w.property_runes)),
            member("damageType", str_value(w.damage_type.as_str())),
            member("attack", int_value(attack as i64)),
            member("damageBonus", int_value(0)),
        ];
        proof {
            lemma_members_view(e@);
            assert(e@.map_values(|m: (String, Value)| (m.0@, json_view(m.1))) =~= seq![
                ("name"@, JsonView::Str(w.name@)),
                ("qty"@, JsonView::Int(1)),
                ("prof"@, JsonView::Str(lowercase(w.weapon_category@))),
                ("die"@, JsonView::Str(die_text(w.damage_die))),
                ("pot"@, JsonView::Int(w.potency as int)),
                ("str"@, JsonView::Int(striking_dice(w.striking))),
                ("mat"@, JsonView::Str(or_empty(opt_str(w.material)))),
                ("display"@, JsonView::Str(item_display(w.potency, striking_label(w.striking), w.name@))),
                ("runes"@, str_array(strs(w.property_runes@))),
                ("damageType"@, JsonView::Str(w.damage_type@)),
                ("attack"@, JsonView::Int(attack as int)),
                ("damageBonus"@, JsonView::Int(0)),
            ]);
        }
        let ghost before = out@;
        let item = Value::Object(e);
        assert(json_view(item) == target[i as int]);
        out.push(item);
        assert(out@.drop_last() =~= before);
        assert(items_view(out@) == items_view(before).push(json_view(item)));
        assert(target.take(i + 1) =~= target.take(i as int).push(target[i as int]));
        i = i + 1;
    }
    assert(target.take(weapons@.len() as int) =~= target);
    out
}

/// Armor as exported.
pub open spec fn armor_json(a: Armor) -> JsonView {
    JsonView::Obj(
        seq![
            ("name"@, JsonView::Str(a.name@)),
            ("qty"@, JsonView::Int(1)),
            ("prof"@, JsonView::Str(lowercase(a.armor_category@))),
            ("pot"@, JsonView::Int(a.potency as int)),
            ("res"@, JsonView::Int(resilient_bonus(a.resilient))),
            ("mat"@, JsonView::Str(or_empty(opt_str(a.material)))),
            ("display"@, JsonView::Str(item_display(a.potency, resilient_label(a.resilient), a.name@))),
            ("worn"@, JsonView::Bool(a.worn)),
            ("runes"@, str_array(strs(a.property_runes@))),
        ],
    )
}

/// The armor of an exported sheet.
pub fn build_armor_export(armor: &Vec<Armor>) -> (r: Vec<Value>)
    ensures
        items_view(r@) == armor@.map_values(|a: Armor| armor_json(a)),
{
    let ghost target = armor@.map_values(|a: Armor| armor_json(a));
    let mut out: Vec<Value> = Vec::new();
    let mut i: usize = 0;
    while i < armor.len()
        invariant
            i <= armor@.len(),
            target == armor@.map_values(|a: Armor| armor_json(a)),
            items_view(out@) == target.take(i as int),
        decreases armor@.len() - i,
    {
        let a = &armor[i];
        let e = vec![
            member("name", str_value(a.name.as_str())),
            member("qty", int_value(1)),
            member("prof", str_value(to_lowercase(a.armor_category.as_str()).as_str())),
            member("pot", int_value(a.potency as i64)),
            member("res", int_value(a.resilient.bonus() as i64)),
            member("mat", or_empty_value(&a.material)),
            member("display", str_value(a.display_name().as_str())),
            member("worn", Value::Bool(a.worn)),
            member("runes", strings_value(&a.property_runes)),
        ];
        proof {
            lemma_members_view(e@);
            assert(e@.map_values(|m: (String, Value)| (m.0@, json_view(m.1))) =~= seq![
                ("name"@, JsonView::Str(a.name@)),
                ("qty"@, JsonView::Int(1)),
                ("prof"@, JsonView::Str(lowercase(a.armor_category@))),
                ("pot"@, JsonView::Int(a.potency as int)),
                ("res"@, JsonView::Int(resilient_bonus(a.resilient))),
                ("mat"@, JsonView::Str(or_empty(opt_str(a.material)))),
                ("display"@, JsonView::Str(item_display(a.potency, resilient_label(a.resilient), a.name@))),
                ("worn"@, JsonView::Bool(a.worn)),
                ("runes"@, str_array(strs(a.property_runes@))),
            ]);
        }
        let ghost before = out@;
        let item = Value::Object(e);
        assert(json_view(item) == target[i as int]);
        out.push(item);
        assert(out@.drop_last() =~= before);
        assert(items_view(out@) == items_view(before).push(json_view(item)));
        assert(target.take(i + 1) =~= target.take(i as int).push(target[i as int]));
        i = i + 1;
    }
    assert(target.take(armor@.len() as int) =~= target);
    out
}

/// An item as an export row: name, quantity, and "Invested" when invested.
pub open spec fn item_json(it: Item) -> JsonView {
    JsonView::Arr(
        seq![
            JsonView::Str(it.name@),
            JsonView::Int(it.quantity as int),
            JsonView::Str(if it.invested { "Invested"@ } else { ""@ }),
        ],
    )
}

/// The items of an exported sheet.
pub fn build_equipment_items(items: &Vec<Item>) -> (r: Vec<Value>)
    ensures
        items_view(r@) == items@.map_values(|it: Item| item_json(it)),
{
    let ghost target = items@.map_values(|it: Item| item_json(it));
    let mut out: Vec<Value> = Vec::new();
    let mut i: usize = 0;
    while i < items.len()
        invariant
            i <= items@.len(),
            target == items@.map_values(|it: Item| item_json(it)),
            items_view(out@) == target.take(i as int),
        decreases items@.len() - i,
    {
        let it = &items[i];
        let row = vec![
            str_value(it.name.as_str()),
            int_value(it.quantity as i64),
            str_value(if it.invested { "Invested" } else { "" }),
        ];
        proof {
            lemma_items_view(row@);
            assert(row@.map_values(|x: Value| json_view(x)) =~= seq![
                JsonView::Str(it.name@),
                JsonView::Int(it.quantity as int),
                JsonView::Str(if it.invested { "Invested"@ } else { ""@ }),
            ]);
        }
        let ghost before = out@;
        let item = Value::Array(row);
        assert(json_view(item) == target[i as int]);
        out.push(item);
        assert(out@.drop_last() =~= before);
        assert(items_view(out@) == items_view(before).push(json_view(item)));
        assert(target.take(i + 1) =~= target.take(i as int).push(target[i as int]));
        i = i + 1;
    }
    assert(target.take(items@.len() as int) =~= target);
    out
}

/// A focus spell as exported.
pub open spec fn focus_spell_json(s: SpellSlotChoice) -> JsonView {
    JsonView::Obj(seq![("name"@, JsonView::Str(s.name@)), ("rank"@, JsonView::Int(s.rank as int))])
}

/// The focus spells of an exported sheet.
pub open spec fn focus_json(spells: Seq<SpellSlotChoice>) -> JsonView {
    JsonView::Obj(seq![("spells"@, JsonView::Arr(spells.map_values(|s: SpellSlotChoice| focus_spell_json(s))))])
}

/// The focus spells of an exported sheet.
pub fn build_focus_export(spells: &Vec<SpellSlotChoice>) -> (r: Value)
    ensures
        json_view(r) == focus_json(spells@),
{
    let ghost target = spells@.map_values(|s: SpellSlotChoice| focus_spell_json(s));
    let mut out: Vec<Value> = Vec::new();
    let mut i: usize = 0;
    while i < spells.len()
        invariant
            i <= spells@.len(),
            target == spells@.map_values(|s: SpellSlotChoice| focus_spell_json(s)),
            items_view(out@) == target.take(i as int),
        decreases spells@.len() - i,
    {
        let sp = &spells[i];
        let e = vec![member("name", str_value(sp.name.as_str())), member("rank", int_value(sp.rank as i64))];
        proof {
            lemma_members_view(e@);
            assert(e@.map_values(|m: (String, Value)| (m.0@, json_view(m.1))) =~= seq![
                ("name"@, JsonView::Str(sp.name@)),
                ("rank"@, JsonView::Int(sp.rank as int)),
            ]);
        }
        let ghost before = out@;
        let item = Value::Object(e);
        assert(json_view(item) == target[i as int]);
        out.push(item);
        assert(out@.drop_last() =~= before);
        assert(items_view(out@) == items_view(before).push(json_view(item)));
        assert(target.take(i + 1) =~= target.take(i as int).push(target[i as int]));
        i = i + 1;
    }
    assert(target.take(spells@.len() as int) =~= target);
    let e = vec![member("spells", Value::Array(out))];
    proof {
        lemma_members_view(e@);
        assert(e@.map_values(|m: (String, Value)| (m.0@, json_view(m.1))) =~= seq![
            ("spells"@, JsonView::Arr(target)),
        ]);
    }
    Value::Object(e)
}

/// The ability scores and boost breakdown of an exported sheet.
pub open spec fn abilities_json(c: BuildChoices, ch: CharacterView) -> JsonView {
    let a = ch.abilities;
    JsonView::Obj(
        seq![
            ("str"@, JsonView::Int(a.score(Ability::Strength))),
            ("dex"@, JsonView::Int(a.score(Ability::Dexterity))),
            ("con"@, JsonView::Int(a.score(Ability::Constitution))),
            ("int"@, JsonView::Int(a.score(Ability::Intelligence))),
            ("wis"@, JsonView::Int(a.score(Ability::Wisdom))),
            ("cha"@, JsonView::Int(a.score(Ability::Charisma))),
            ("breakdown"@, breakdown_json(ancestry_fixed(c), a.boosts, a.flaws)),
        ],
    )
}

/// An empty JSON array.
pub open spec fn no_items() -> JsonView {
    JsonView::Arr(Seq::empty())
}

/// The exported sheet of a build and its character, in Pathbuilder's layout.
pub open spec fn pathbuilder_spec(c: BuildChoices, ch: CharacterView) -> JsonView {
    let m = c.equipment.money;
    let build = JsonView::Obj(
        seq![
            ("name"@, JsonView::Str(ch.name)),
            ("class"@, JsonView::Str(or_empty(ch.class))),
            ("dualClass"@, JsonView::Null),
            ("level"@, JsonView::Int(ch.level as int)),
            ("ancestry"@, JsonView::Str(or_empty(ch.ancestry))),
            ("heritage"@, JsonView::Str(or_empty(ch.heritage))),
            ("background"@, JsonView::Str(or_empty(ch.background))),
            ("alignment"@, JsonView::Str(or_empty(ch.alignment))),
            ("gender"@, JsonView::Str(""@)),
            ("age"@, JsonView::Str(""@)),
            ("deity"@, JsonView::Str(or_empty(ch.deity))),
            ("sizeName"@, JsonView::Str(match ch.size {
                Some(z) => z,
                None => "Medium"@,
            })),
            ("keyability"@, JsonView::Str(or_empty(ch.key_ability))),
            ("languages"@, str_array(ch.languages)),
            ("abilities"@, abilities_json(c, ch)),
            ("attributes"@, JsonView::Obj(seq![
                ("ancestryhp"@, JsonView::Int(ch.ancestry_hp as int)),
                ("classhp"@, JsonView::Int(ch.class_hp as int)),
                ("bonushp"@, JsonView::Int(0)),
                ("bonushpPerLevel"@, JsonView::Int(0)),
                ("speed"@, JsonView::Int(ch.speed as int)),
                ("speedBonus"@, JsonView::Int(0)),
            ])),
            ("proficiencies"@, proficiencies_json(ch.proficiencies)),
            ("feats"@, JsonView::Arr(ch.feats.map_values(|f: FeatChoiceView| feat_json(f)))),
            ("specials"@, no_items()),
            ("lores"@, JsonView::Arr(ch.proficiencies.lores.map_values(|l: (Seq<char>, Rank)| lore_json(l)))),
            ("equipment"@, JsonView::Arr(c.equipment.items@.map_values(|it: Item| item_json(it)))),
            ("weapons"@, JsonView::Arr(weapons_json(c.equipment.weapons@, ch.weapon_attacks))),
            ("money"@, JsonView::Obj(seq![
                ("cp"@, JsonView::Int(m.cp as int)),
                ("sp"@, JsonView::Int(m.sp as int)),
                ("gp"@, JsonView::Int(m.gp as int)),
                ("pp"@, JsonView::Int(m.pp as int)),
            ])),
            ("armor"@, JsonView::Arr(c.equipment.armor@.map_values(|a: Armor| armor_json(a)))),
            ("spellCasters"@, no_items()),
            ("focusPoints"@, JsonView::Int(ch.focus_points as int)),
            ("focus"@, focus_json(c.focus_spells@)),
            ("formula"@, no_items()),
            ("pets"@, no_items()),
            ("familiars"@, no_items()),
        ],
    );
    JsonView::Obj(seq![("success"@, JsonView::Bool(true)), ("build"@, build)])
}

fn empty_array() -> (r: Value)
    ensures
        json_view(r) == no_items(),
{
    let v: Vec<Value> = Vec::new();
    assert(items_view(v@) =~= Seq::<JsonView>::empty());
    Value::Array(v)
}

fn abilities_value(choices: &BuildChoices, ch: &Character) -> (r: Value)
    requires
        ch.abilities@.bounded(),
    ensures
        json_view(r) == abilities_json(*choices, ch@),
{
    let empty: Vec<Ability> = Vec::new();
    let fixed = match &choices.ancestry_data {
        Some(d) => &d.boost_spec.fixed,
        None => &empty,
    };
    let a = &ch.abilities;
    let e = vec![
        member("str", int_value(a.score(Ability::Strength) as i64)),
        member("dex", int_value(a.score(Ability::Dexterity) as i64)),
        member("con", int_value(a.score(Ability::Constitution) as i64)),
        member("int", int_value(a.score(Ability::Intelligence) as i64)),
        member("wis", int_value(a.score(Ability::Wisdom) as i64)),
        member("cha", int_value(a.score(Ability::Charisma) as i64)),
        member("breakdown", build_ability_breakdown(fixed, &a.boosts, &a.flaws)),
    ];
    proof {
        lemma_members_view(e@);
        let av = ch@.abilities;
        assert(e@.map_values(|m: (String, Value)| (m.0@, json_view(m.1))) =~= seq![
            ("str"@, JsonView::Int(av.score(Ability::Strength))),
            ("dex"@, JsonView::Int(av.score(Ability::Dexterity))),
            ("con"@, JsonView::Int(av.score(Ability::Constitution))),
            ("int"@, JsonView::Int(av.score(Ability::Intelligence))),
            ("wis"@, JsonView::Int(av.score(Ability::Wisdom))),
            ("cha"@, JsonView::Int(av.score(Ability::Charisma))),
            ("breakdown"@, breakdown_json(ancestry_fixed(*choices), av.boosts, av.flaws)),
        ]);
    }
    Value::Object(e)
}

/// The sheet of a build and its character in Pathbuilder's JSON layout: identity,
/// ability scores with their breakdown, proficiency bonuses, feats, lores, equipment,
/// money and focus spells.
pub fn build_pathbuilder_json(choices: &BuildChoices, ch: &Character) -> (r: Value)
    requires
        ch.abilities@.bounded(),
    ensures
        json_view(r) == pathbuilder_spec(*choices, ch@),
{
    let m = choices.equipment.money;
    let size = match &ch.size {
        Some(z) => str_value(z.as_str()),
        None => str_value("Medium"),
    };
    let attributes = vec![
        member("ancestryhp", int_value(ch.ancestry_hp as i64)),
        member("classhp", int_value(ch.class_hp as i64)),
        member("bonushp", int_value(0)),
        member("bonushpPerLevel", int_value(0)),
        member("speed", int_value(ch.speed as i64)),
        member("speedBonus", int_value(0)),
    ];
    let money = vec![
        member("cp", int_value(m.cp as i64)),
        member("sp", int_value(m.sp as i64)),
        member("gp", int_value(m.gp as i64)),
        member("pp", int_value(m.pp as i64)),
    ];
    proof {
        lemma_members_view(attributes@);
        lemma_members_view(money@);
        assert(attributes@.map_values(|p: (String, Value)| (p.0@, json_view(p.1))) =~= seq![
            ("ancestryhp"@, JsonView::Int(ch.ancestry_hp as int)),
            ("classhp"@, JsonView::Int(ch.class_hp as int)),
            ("bonushp"@, JsonView::Int(0)),
            ("bonushpPerLevel"@, JsonView::Int(0)),
            ("speed"@, JsonView::Int(ch.speed as int)),
            ("speedBonus"@, JsonView::Int(0)),
        ]);
        assert(money@.map_values(|p: (String, Value)| (p.0@, json_view(p.1))) =~= seq![
            ("cp"@, JsonView::Int(m.cp as int)),
            ("sp"@, JsonView::Int(m.sp as int)),
            ("gp"@, JsonView::Int(m.gp as int)),
            ("pp"@, JsonView::Int(m.pp as int)),
        ]);
    }
    let feats = build_feats(&ch.feats);
    let lores = build_lores(&ch.proficiencies.lores);
    let items = build_equipment_items(&choices.equipment.items);
    let weapons = build_weapons(&choices.equipment.weapons, &ch.weapon_attacks);
    let armor = build_armor_export(&choices.equipment.armor);
    proof {
        crate::document::lemma_items_view(feats@);
        crate::document::lemma_items_view(lores@);
    }
    let build = vec![
        member("name", str_value(ch.name.as_str())),
        member("class", or_empty_value(&ch.class)),
        member("dualClass", Value::Null),
        member("level", int_value(ch.level as i64)),
        member("ancestry", or_empty_value(&ch.ancestry)),
        member("heritage", or_empty_value(&ch.heritage)),
        member("background", or_empty_value(&ch.background)),
        member("alignment", or_empty_value(&ch.alignment)),
        member("gender", str_value("")),
        member("age", str_value("")),
        member("deity", or_empty_value(&ch.deity)),
        member("sizeName", size),
        member("keyability", or_empty_value(&ch.key_ability)),
        member("languages", strings_value(&ch.languages)),
        member("abilities", abilities_value(choices, ch)),
        member("attributes", Value::Object(attributes)),
        member("proficiencies", build_proficiencies(&ch.proficiencies)),
        member("feats", Value::Array(feats)),
        member("specials", empty_array()),
        member("lores", Value::Array(lores)),
        member("equipment", Value::Array(items)),
        member("weapons", Value::Array(weapons)),
        member("money", Value::Object(money)),
        member("armor", Value::Array(armor)),
        member("spellCasters", empty_array()),
        member("focusPoints", int_value(ch.focus_points as i64)),
        member("focus", build_focus_export(&choices.focus_spells)),
        member("formula", empty_array()),
        member("pets", empty_array()),
        member("familiars", empty_array()),
    ];
    let top = vec![member("success", Value::Bool(true)), member("build", Value::Object(build))];
    proof {
        lemma_members_view(build@);
        lemma_members_view(top@);
        let spec = pathbuilder_spec(*choices, ch@);
        assert(ch@.proficiencies.lores == named_ranks(ch.proficiencies.lores@));
        assert(ch@.feats == feats_view(ch.feats@));
        let bv = build@.map_values(|p: (String, Value)| (p.0@, json_view(p.1)));
        match spec {
            JsonView::Obj(t) => {
                match t[1].1 {
                    JsonView::Obj(b) => {
                        assert(bv =~= b);
                    },
                    _ => {},
                }
            },
            _ => {},
        }
        assert(top@.map_values(|p: (String, Value)| (p.0@, json_view(p.1))) =~= seq![
            ("success"@, JsonView::Bool(true)),
            ("build"@, JsonView::Obj(bv)),
        ]);
    }
    Value::Object(top)
}

} // verus!
