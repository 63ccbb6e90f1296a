//! What the panels show of the character: the lines of skills, spells, feats and
//! equipment, computed from the build and the character; drawing them is left to the
//! terminal front end.
use vstd::prelude::*;
use crate::model::abilities::{Abilities, AbilitiesView, Ability};
use crate::model::feat::{FeatChoice, FeatChoiceView, FeatType, feats_view};
use crate::ui::modal::boosts::{BoostGroup, BoostGroupView, BoostModal, groups_view};
use crate::model::character::{Character, CharacterView};
use crate::model::proficiencies::{
    Proficiencies, ProficienciesView, Rank, SKILL_COUNT, named_ranks, rank_bonus, rank_of, skill_name, skill_name_spec,
};
use crate::model::character::{WeaponAttack, attacks_view};
use crate::model::equipment::{
    Armor, Equipment, Item, Money, Shield, Weapon, item_display, resilient_label, striking_label,
};
use crate::build::choices::{BuildChoices, SpellSlotChoice};
use crate::build::commands::cell_count;
use crate::build::maps::level_lookup;
use crate::ui::app::{App, DetailTab, Focus};
use crate::ui::events::{lemma_row_total_prefix, prepared_slots, row_total, slot_row};
use crate::build::progression::{EntryView, ProgressionEntry, entries_view};
use crate::build::slot::{slot_display, slot_label};
use crate::model::abilities::{abbr_spec, ability_at};
use crate::text::{decimal, eq_ci, first_bytes3, lowercase, opt_str, owned, str_eq, strs, uppercase};

verus! {

/// The ability a skill is keyed to; lores and unknown names use Intelligence.
pub open spec fn skill_ability_spec(s: Seq<char>) -> Ability {
    if s == "Acrobatics"@ || s == "Stealth"@ || s == "Thievery"@ {
        Ability::Dexterity
    } else if s == "Athletics"@ {
        Ability::Strength
    } else if s == "Deception"@ || s == "Diplomacy"@ || s == "Intimidation"@ || s == "Performance"@ {
        Ability::Charisma
    } else if s == "Medicine"@ || s == "Nature"@ || s == "Religion"@ || s == "Survival"@ {
        Ability::Wisdom
    } else {
        Ability::Intelligence
    }
}

/// The ability a skill is keyed to.
pub fn skill_ability(skill: &str) -> (r: Ability)
    ensures
        r == skill_ability_spec(skill@),
{
    if str_eq(skill, "Acrobatics") || str_eq(skill, "Stealth") || str_eq(skill, "Thievery") {
        Ability::Dexterity
    } else if str_eq(skill, "Athletics") {
        Ability::Strength
    } else if str_eq(skill, "Deception") || str_eq(skill, "Diplomacy") || str_eq(skill, "Intimidation") || str_eq(
        skill,
        "Performance",
    ) {
        Ability::Charisma
    } else if str_eq(skill, "Medicine") || str_eq(skill, "Nature") || str_eq(skill, "Religion") || str_eq(
        skill,
        "Survival",
    ) {
        Ability::Wisdom
    } else {
        Ability::Intelligence
    }
}

/// A check total: the ability modifier, the rank's bonus and the level.
pub open spec fn check_total(a: AbilitiesView, ability: Ability, rank: Rank, level: u8) -> int {
    a.modifier(ability) + rank_bonus(rank) + level
}

/// A line of the skill list: the name shown, the rank and the check total.
pub struct SkillLine {
    pub name: String,
    pub rank: Rank,
    pub total: i32,
}

/// The trained standard skills among the first `n`, in the standard order.
pub open spec fn standard_lines(ch: CharacterView, n: nat) -> Seq<(Seq<char>, Rank, int)>
    decreases n,
{
    if n == 0 {
        Seq::empty()
    } else {
        let prev = standard_lines(ch, (n - 1) as nat);
        let name = skill_name_spec(n - 1);
        let rank = rank_of(ch.proficiencies.skills, name);
        if rank != Rank::Untrained {
            prev.push((name, rank, check_total(ch.abilities, skill_ability_spec(name), rank, ch.level)))
        } else {
            prev
        }
    }
}

/// Every lore, shown as "<topic> Lore", keyed to Intelligence.
pub open spec fn lore_lines(ch: CharacterView) -> Seq<(Seq<char>, Rank, int)> {
    ch.proficiencies.lores.map_values(
        |l: (Seq<char>, Rank)| (l.0 + " Lore"@, l.1, check_total(ch.abilities, Ability::Intelligence, l.1, ch.level)),
    )
}

/// The skill lines of a character: its trained standard skills, then its lores.
pub open spec fn skill_lines_spec(ch: CharacterView) -> Seq<(Seq<char>, Rank, int)> {
    standard_lines(ch, SKILL_COUNT as nat) + lore_lines(ch)
}

/// Views of skill lines.
pub open spec fn skill_lines_view(v: Seq<SkillLine>) -> Seq<(Seq<char>, Rank, int)> {
    v.map_values(|l: SkillLine| (l.name@, l.rank, l.total as int))
}

fn check_value(a: &Abilities, ability: Ability, rank: Rank, level: u8) -> (r: i32)
    requires
        a@.bounded(),
    ensures
        r == check_total(a@, ability, rank, level),
{
    proof {
        crate::model::abilities::lemma_modifier_bounds(a@, ability);
    }
    a.modifier(ability) + rank.bonus() + level as i32
}

/// The skill lines of a character: each trained standard skill in the standard
/// order, then every lore, with its rank and check total.
pub fn skill_lines(ch: &Character) -> (r: Vec<SkillLine>)
    requires
        ch.abilities@.bounded(),
    ensures
        skill_lines_view(r@) == skill_lines_spec(ch@),
{
    let mut out: Vec<SkillLine> = Vec::new();
    let mut i: usize = 0;
    while i < SKILL_COUNT
        invariant
            i <= SKILL_COUNT,
            ch.abilities@.bounded(),
            skill_lines_view(out@) == standard_lines(ch@, i as nat),
        decreases SKILL_COUNT - i,
    {
        let name = skill_name(i);
        let rank = ch.proficiencies.skill_rank(name);
        if rank != Rank::Untrained {
            let total = check_value(&ch.abilities, skill_ability(name), rank, ch.level);
            let ghost before = out@;
            out.push(SkillLine { name: owned(name), rank, total });
            assert(skill_lines_view(out@) =~= skill_lines_view(before).push((name@, rank, total as int)));
        }
        i = i + 1;
    }
    let ghost std = skill_lines_view(out@);
    let lores = &ch.proficiencies.lores;
    let mut j: usize = 0;
    while j < lores.len()
        invariant
            j <= lores@.len(),
            ch.abilities@.bounded(),
            lores == &ch.proficiencies.lores,
            std == standard_lines(ch@, SKILL_COUNT as nat),
            skill_lines_view(out@) == std + lore_lines(ch@).take(j as int),
        decreases lores@.len() - j,
    {
        let mut name = owned(lores[j].0.as_str());
        name.append(" Lore");
        let rank = lores[j].1;
        let total = check_value(&ch.abilities, Ability::Intelligence, rank, ch.level);
        let ghost before = out@;
        out.push(SkillLine { name, rank, total });
        proof {
            assert(ch@.proficiencies.lores == named_ranks(lores@));
            assert(lore_lines(ch@).take(j + 1) =~= lore_lines(ch@).take(j as int).push(lore_lines(ch@)[j as int]));
            assert(skill_lines_view(out@) =~= skill_lines_view(before).push(lore_lines(ch@)[j as int]));
        }
        j = j + 1;
    }
    assert(lore_lines(ch@).take(lores@.len() as int) =~= lore_lines(ch@));
    out
}

/// The weapon and armor proficiencies shown, by label, in order.
pub open spec fn combat_entries(p: ProficienciesView) -> Seq<(Seq<char>, Rank)> {
    seq![
        ("Unarmed"@, p.unarmed),
        ("Simple"@, p.simple_weapons),
        ("Martial"@, p.martial_weapons),
        ("Unarmored"@, p.unarmored),
        ("Light Armor"@, p.light_armor),
        ("Medium Armor"@, p.medium_armor),
        ("Heavy Armor"@, p.heavy_armor),
    ]
}

/// The trained entries among the first `n` combat proficiencies, in order.
pub open spec fn trained_combat(e: Seq<(Seq<char>, Rank)>, n: nat) -> Seq<(Seq<char>, Rank)>
    decreases n,
{
    if n == 0 || n > e.len() {
        Seq::empty()
    } else {
        let prev = trained_combat(e, (n - 1) as nat);
        if e[n - 1].1 != Rank::Untrained {
            prev.push(e[n - 1])
        } else {
            prev
        }
    }
}

/// The trained weapon and armor proficiencies, by label, in the panel's order.
pub fn combat_lines(p: &Proficiencies) -> (r: Vec<(String, Rank)>)
    ensures
        r@.map_values(|e: (String, Rank)| (e.0@, e.1)) == trained_combat(combat_entries(p@), 7),
{
    let labels = ["Unarmed", "Simple", "Martial", "Unarmored", "Light Armor", "Medium Armor", "Heavy Armor"];
    let ranks = [
        p.unarmed,
        p.simple_weapons,
        p.martial_weapons,
        p.unarmored,
        p.light_armor,
        p.medium_armor,
        p.heavy_armor,
    ];
    let ghost e = combat_entries(p@);
    assert(forall|k: int| 0 <= k < 7 ==> #[trigger] ranks@[k] == e[k].1);
    assert(forall|k: int| 0 <= k < 7 ==> #[trigger] labels@[k]@ == e[k].0) by {
        reveal_strlit("Unarmed");
        reveal_strlit("Simple");
        reveal_strlit("Martial");
        reveal_strlit("Unarmored");
        reveal_strlit("Light Armor");
        reveal_strlit("Medium Armor");
        reveal_strlit("Heavy Armor");
    }
    let mut out: Vec<(String, Rank)> = Vec::new();
    let mut i: usize = 0;
    while i < 7
        invariant
            i <= 7,
            e == combat_entries(p@),
            forall|k: int| 0 <= k < 7 ==> #[trigger] labels@[k]@ == e[k].0,
            forall|k: int| 0 <= k < 7 ==> #[trigger] ranks@[k] == e[k].1,
            out@.map_values(|x: (String, Rank)| (x.0@, x.1)) == trained_combat(e, i as nat),
        decreases 7 - i,
    {
        if ranks[i] != Rank::Untrained {
            let ghost before = out@;
            out.push((owned(labels[i]), ranks[i]));
            assert(out@.map_values(|x: (String, Rank)| (x.0@, x.1)) =~= before.map_values(
                |x: (String, Rank)| (x.0@, x.1),
            ).push(e[i as int]));
        }
        i = i + 1;
    }
    out
}

/// What a line of the Equipment tab shows.
#[derive(Debug, Clone, Copy, PartialEq, Eq, Structural)]
pub enum EquipKind {
    Weapon,
    AddWeapon,
    Armor,
    AddArmor,
    Shield,
    AddShield,
    Item,
    AddItem,
}

/// A line of the Equipment tab: its kind, its text, the attack bonus and damage of a
/// weapon when computed, and whether the cursor is on it.
pub struct EquipLine {
    pub kind: EquipKind,
    pub text: String,
    pub attack: Option<(i32, String)>,
    pub selected: bool,
}

/// Views of equipment lines.
pub open spec fn equip_lines_view(v: Seq<EquipLine>) -> Seq<(EquipKind, Seq<char>, Option<(i32, Seq<char>)>, bool)> {
    v.map_values(
        |l: EquipLine| (
            l.kind,
            l.text@,
            match l.attack {
                Some(a) => Some((a.0, a.1@)),
                None => None,
            },
            l.selected,
        ),
    )
}

/// The lines of the weapons: the computed attack's text, bonus and damage, or the
/// weapon's name with its runes when none was computed.
pub open spec fn weapon_lines(ws: Seq<Weapon>, attacks: Seq<(Seq<char>, i32, Seq<char>)>) -> Seq<
    (EquipKind, Seq<char>, Option<(i32, Seq<char>)>),
> {
    Seq::new(
        ws.len(),
        |i: int|
            if i < attacks.len() {
                (EquipKind::Weapon, attacks[i].0, Some((attacks[i].1, attacks[i].2)))
            } else {
                (EquipKind::Weapon, item_display(ws[i].potency, striking_label(ws[i].striking), ws[i].name@), None)
            },
    )
}

/// The lines of the armor, worn armor marked.
pub open spec fn armor_lines(armor: Seq<Armor>) -> Seq<(EquipKind, Seq<char>, Option<(i32, Seq<char>)>)> {
    armor.map_values(
        |a: Armor| (
            EquipKind::Armor,
            item_display(a.potency, resilient_label(a.resilient), a.name@) + if a.worn { "  (worn)"@ } else { ""@ },
            None,
        ),
    )
}

/// The line of the shield, if any, marked when raised.
pub open spec fn shield_lines(s: Option<Shield>) -> Seq<(EquipKind, Seq<char>, Option<(i32, Seq<char>)>)> {
    match s {
        Some(sh) => seq![
            (EquipKind::Shield, item_display(sh.potency, ""@, sh.name@) + if sh.raised { "  (raised)"@ } else { ""@ }, None),
        ],
        None => Seq::empty(),
    }
}

/// The lines of the items, with the quantity when above one.
pub open spec fn item_lines(items: Seq<Item>) -> Seq<(EquipKind, Seq<char>, Option<(i32, Seq<char>)>)> {
    items.map_values(
        |it: Item| (
            EquipKind::Item,
            it.name@ + if it.quantity > 1 { " x"@ + decimal(it.quantity as nat) } else { ""@ },
            None,
        ),
    )
}

/// The lines of the Equipment tab before marking the cursor: each section's
/// entries followed by its "add" line.
pub open spec fn equipment_lines_base(eq: Equipment, attacks: Seq<(Seq<char>, i32, Seq<char>)>) -> Seq<
    (EquipKind, Seq<char>, Option<(i32, Seq<char>)>),
> {
    weapon_lines(eq.weapons@, attacks) + seq![(EquipKind::AddWeapon, "+ Add Weapon"@, None)] + armor_lines(eq.armor@)
        + seq![(EquipKind::AddArmor, "+ Add Armor"@, None)] + shield_lines(eq.shield) + seq![
        (EquipKind::AddShield, "+ Add Shield"@, None),
    ] + item_lines(eq.items@) + seq![(EquipKind::AddItem, "+ Add Item"@, None)]
}

/// The lines of the Equipment tab, the one at the cursor marked when the tab has focus.
pub open spec fn equipment_lines_spec(
    eq: Equipment,
    attacks: Seq<(Seq<char>, i32, Seq<char>)>,
    focused: bool,
    cursor: usize,
) -> Seq<(EquipKind, Seq<char>, Option<(i32, Seq<char>)>, bool)> {
    let base = equipment_lines_base(eq, attacks);
    Seq::new(base.len(), |k: int| (base[k].0, base[k].1, base[k].2, focused && k == cursor))
}

fn suffixed(base: String, suffix: &str) -> (r: String)
    ensures
        r@ == base@ + suffix@,
{
    let mut s = base;
    s.append(suffix);
    s
}

/// Views of unmarked equipment lines.
pub open spec fn base_view(v: Seq<(EquipKind, String, Option<(i32, String)>)>) -> Seq<
    (EquipKind, Seq<char>, Option<(i32, Seq<char>)>),
> {
    v.map_values(
        |l: (EquipKind, String, Option<(i32, String)>)| (
            l.0,
            l.1@,
            match l.2 {
                Some(a) => Some((a.0, a.1@)),
                None => None,
            },
        ),
    )
}

/// The lines of the Equipment tab.
pub fn equipment_lines(eq: &Equipment, attacks: &Vec<WeaponAttack>, focused: bool, cursor: usize) -> (r: Vec<EquipLine>)
    ensures
        equip_lines_view(r@) == equipment_lines_spec(*eq, attacks_view(attacks@), focused, cursor),
{
    let ghost av = attacks_view(attacks@);
    let mut base: Vec<(EquipKind, String, Option<(i32, String)>)> = Vec::new();
    let mut i: usize = 0;
    while i < eq.weapons.len()
        invariant
            i <= eq.weapons@.len(),
            av == attacks_view(attacks@),
            base_view(base@) == weapon_lines(eq.weapons@, av).take(i as int),
        decreases eq.weapons@.len() - i,
    {
        let ghost before = base@;
        if i < attacks.len() {
            let a = &attacks[i];
            base.push((EquipKind::Weapon, owned(a.display.as_str()), Some((a.attack_bonus, owned(a.damage.as_str())))));
        } else {
            base.push((EquipKind::Weapon, eq.weapons[i].display_name(), None));
        }
        assert(base_view(base@) =~= base_view(before).push(weapon_lines(eq.weapons@, av)[i as int]));
        assert(weapon_lines(eq.weapons@, av).take(i + 1) =~= weapon_lines(eq.weapons@, av).take(i as int).push(
            weapon_lines(eq.weapons@, av)[i as int],
        ));
        i = i + 1;
    }
    assert(weapon_lines(eq.weapons@, av).take(eq.weapons@.len() as int) =~= weapon_lines(eq.weapons@, av));
    let ghost part = base_view(base@);
    base.push((EquipKind::AddWeapon, owned("+ Add Weapon"), None));
    assert(base_view(base@) =~= part + seq![(EquipKind::AddWeapon, "+ Add Weapon"@, None)]);
    let ghost part = base_view(base@);
    let mut j: usize = 0;
    while j < eq.armor.len()
        invariant
            j <= eq.armor@.len(),
            base_view(base@) == part + armor_lines(eq.armor@).take(j as int),
        decreases eq.armor@.len() - j,
    {
        let a = &eq.armor[j];
        let ghost before = base@;
        let text = suffixed(a.display_name(), if a.worn { "  (worn)" } else { "" });
        base.push((EquipKind::Armor, text, None));
        assert(base_view(base@) =~= base_view(before).push(armor_lines(eq.armor@)[j as int]));
        assert(armor_lines(eq.armor@).take(j + 1) =~= armor_lines(eq.armor@).take(j as int).push(
            armor_lines(eq.armor@)[j as int],
        ));
        j = j + 1;
    }
    assert(armor_lines(eq.armor@).take(eq.armor@.len() as int) =~= armor_lines(eq.armor@));
    let ghost part = base_view(base@);
    base.push((EquipKind::AddArmor, owned("+ Add Armor"), None));
    assert(base_view(base@) =~= part + seq![(EquipKind::AddArmor, "+ Add Armor"@, None)]);
    let ghost part = base_view(base@);
    match &eq.shield {
        Some(sh) => {
            let text = suffixed(sh.display_name(), if sh.raised { "  (raised)" } else { "" });
            base.push((EquipKind::Shield, text, None));
        },
        None => {},
    }
    assert(base_view(base@) =~= part + shield_lines(eq.shield));
    let ghost part = base_view(base@);
    base.push((EquipKind::AddShield, owned("+ Add Shield"), None));
    assert(base_view(base@) =~= part + seq![(EquipKind::AddShield, "+ Add Shield"@, None)]);
    let ghost part = base_view(base@);
    let mut k: usize = 0;
    while k < eq.items.len()
        invariant
            k <= eq.items@.len(),
            base_view(base@) == part + item_lines(eq.items@).take(k as int),
        decreases eq.items@.len() - k,
    {
        let it = &eq.items[k];
        let ghost before = base@;
        let mut text = owned(it.name.as_str());
        if it.quantity > 1 {
            text.append(" x");
            let d = crate::text::decimal_string(it.quantity as u64);
            text.append(d.as_str());
            assert(text@ =~= it.name@ + (" x"@ + decimal(it.quantity as nat)));
        } else {
            proof {
                reveal_strlit("");
            }
            assert(text@ =~= it.name@ + ""@);
        }
        base.push((EquipKind::Item, text, None));
        assert(base_view(base@) =~= base_view(before).push(item_lines(eq.items@)[k as int]));
        assert(item_lines(eq.items@).take(k + 1) =~= item_lines(eq.items@).take(k as int).push(
            item_lines(eq.items@)[k as int],
        ));
        k = k + 1;
    }
    assert(item_lines(eq.items@).take(eq.items@.len() as int) =~= item_lines(eq.items@));
    let ghost part = base_view(base@);
    base.push((EquipKind::AddItem, owned("+ Add Item"), None));
    assert(base_view(base@) =~= part + seq![(EquipKind::AddItem, "+ Add Item"@, None)]);
    assert(base_view(base@) =~= equipment_lines_base(*eq, av));
    let ghost bv = base_view(base@);
    let mut out: Vec<EquipLine> = Vec::new();
    let mut n: usize = 0;
    while n < base.len()
        invariant
            n <= base@.len(),
            bv == base_view(base@),
            equip_lines_view(out@) == Seq::new(n as nat, |x: int| (bv[x].0, bv[x].1, bv[x].2, focused && x == cursor)),
        decreases base@.len() - n,
    {
        let (kind, text, attack) = &base[n];
        assert(bv[n as int] == (*kind, text@, match attack {
            Some(a) => Some((a.0, a.1@)),
            None => None,
        }));
        let a = match attack {
            Some((b, d)) => Some((*b, owned(d.as_str()))),
            None => None,
        };
        let ghost before = out@;
        let line = EquipLine { kind: *kind, text: owned(text.as_str()), attack: a, selected: focused && n == cursor };
        assert(equip_lines_view(seq![line])[0] == (bv[n as int].0, bv[n as int].1, bv[n as int].2, focused && n == cursor));
        out.push(line);
        assert(equip_lines_view(out@) =~= equip_lines_view(before).push(
            (bv[n as int].0, bv[n as int].1, bv[n as int].2, focused && n == cursor),
        ));
        assert(equip_lines_view(out@) =~= Seq::new(
            (n + 1) as nat,
            |x: int| (bv[x].0, bv[x].1, bv[x].2, focused && x == cursor),
        ));
        n = n + 1;
    }
    out
}

/// The money carried, largest coins first, each nonzero amount as "N pp" and the
/// like, joined by ", "; nothing when all are zero.
pub open spec fn money_parts(m: Money) -> Seq<Seq<char>> {
    (if m.pp > 0 { seq![decimal(m.pp as nat) + " pp"@] } else { Seq::empty() }) + (if m.gp > 0 {
        seq![decimal(m.gp as nat) + " gp"@]
    } else {
        Seq::empty()
    }) + (if m.sp > 0 { seq![decimal(m.sp as nat) + " sp"@] } else { Seq::empty() }) + (if m.cp > 0 {
        seq![decimal(m.cp as nat) + " cp"@]
    } else {
        Seq::empty()
    })
}

/// Parts joined by ", ".
pub open spec fn joined(parts: Seq<Seq<char>>) -> Seq<char>
    decreases parts.len(),
{
    if parts.len() == 0 {
        Seq::empty()
    } else if parts.len() == 1 {
        parts[0]
    } else {
        joined(parts.drop_last()) + ", "@ + parts.last()
    }
}

fn push_coin(parts: &mut Vec<String>, amount: u32, unit: &str)
    requires
        amount > 0,
    ensures
        strs(final(parts)@) == strs(old(parts)@).push(decimal(amount as nat) + unit@),
{
    let mut s = crate::text::decimal_string(amount as u64);
    s.append(unit);
    parts.push(s);
    assert(strs(parts@) =~= strs(old(parts)@).push(decimal(amount as nat) + unit@));
}

/// The money line of the Equipment tab, when any money is carried.
pub fn money_text(m: &Money) -> (r: Option<String>)
    ensures
        match r {
            Some(t) => money_parts(*m).len() > 0 && t@ == joined(money_parts(*m)),
            None => money_parts(*m).len() == 0,
        },
{
    let mut parts: Vec<String> = Vec::new();
    if m.pp > 0 {
        push_coin(&mut parts, m.pp, " pp");
    }
    if m.gp > 0 {
        push_coin(&mut parts, m.gp, " gp");
    }
    if m.sp > 0 {
        push_coin(&mut parts, m.sp, " sp");
    }
    if m.cp > 0 {
        push_coin(&mut parts, m.cp, " cp");
    }
    assert(strs(parts@) =~= money_parts(*m));
    if parts.len() == 0 {
        return None;
    }
    let ghost ps = strs(parts@);
    let mut out = owned(parts[0].as_str());
    let mut i: usize = 1;
    while i < parts.len()
        invariant
            1 <= i <= parts@.len(),
            ps == strs(parts@),
            out@ == joined(ps.take(i as int)),
        decreases parts@.len() - i,
    {
        out.append(", ");
        out.append(parts[i].as_str());
        assert(ps.take(i + 1).drop_last() =~= ps.take(i as int));
        i = i + 1;
    }
    assert(ps.take(parts@.len() as int) =~= ps);
    Some(out)
}

/// Position of a feat type in the declaration order.
pub open spec fn feat_type_index(t: FeatType) -> int {
    match t {
        FeatType::Ancestry => 0,
        FeatType::Class => 1,
        FeatType::General => 2,
        FeatType::Skill => 3,
        FeatType::Heritage => 4,
        FeatType::Bonus => 5,
    }
}

/// The key the Feats tab sorts by: level, then type.
pub open spec fn feat_key(f: FeatChoiceView) -> int {
    f.level * 8 + feat_type_index(f.feat_type)
}

/// Feat `a` is listed before feat `b`: a smaller key, or the same key and earlier.
pub open spec fn feat_before(fs: Seq<FeatChoiceView>, a: int, b: int) -> bool {
    feat_key(fs[a]) < feat_key(fs[b]) || (feat_key(fs[a]) == feat_key(fs[b]) && a < b)
}

/// `order` lists every feat once, by level then type, feats with the same level and
/// type in their recorded order.
pub open spec fn feat_order(fs: Seq<FeatChoiceView>, order: Seq<usize>) -> bool {
    &&& order.len() == fs.len()
    &&& forall|k: int| 0 <= k < order.len() ==> (order[k] as int) < fs.len()
    &&& forall|a: int, b: int| 0 <= a < b < order.len() ==> feat_before(fs, #[trigger] order[a] as int, #[trigger] order[b] as int)
}

fn feat_key_exec(f: &FeatChoice) -> (r: u64)
    ensures
        r == feat_key(f@),
{
    let t: u64 = match f.feat_type {
        FeatType::Ancestry => 0,
        FeatType::Class => 1,
        FeatType::General => 2,
        FeatType::Skill => 3,
        FeatType::Heritage => 4,
        FeatType::Bonus => 5,
    };
    f.level as u64 * 8 + t
}

/// The order in which the Feats tab lists the feats: by level, then type, keeping the
/// recorded order otherwise.
pub fn feats_in_order(feats: &Vec<FeatChoice>) -> (r: Vec<usize>)
    ensures
        feat_order(feats_view(feats@), r@),
{
    let ghost fs = feats_view(feats@);
    let mut order: Vec<usize> = Vec::new();
    let mut i: usize = 0;
    while i < feats.len()
        invariant
            i <= feats@.len(),
            fs == feats_view(feats@),
            order@.len() == i,
            forall|k: int| 0 <= k < order@.len() ==> (order@[k] as int) < i,
            forall|a: int, b: int| 0 <= a < b < order@.len() ==> feat_before(fs, #[trigger] order@[a] as int, #[trigger] order@[b] as int),
        decreases feats@.len() - i,
    {
        let key = feat_key_exec(&feats[i]);
        let mut p: usize = 0;
        while p < order.len() && feat_key_exec(&feats[order[p]]) <= key
            invariant
                p <= order@.len(),
                fs == feats_view(feats@),
                forall|k: int| 0 <= k < order@.len() ==> (order@[k] as int) < i,
                i < feats@.len(),
                key == feat_key(fs[i as int]),
                forall|k: int| 0 <= k < p ==> feat_key(fs[#[trigger] order@[k] as int]) <= key,
            decreases order@.len() - p,
        {
            p = p + 1;
        }
        let ghost before = order@;
        order.insert(p, i);
        proof {
            let after = order@;
            assert(after =~= before.insert(p as int, i));
            assert forall|a: int, b: int| 0 <= a < b < after.len() implies feat_before(fs, #[trigger] after[a] as int, #[trigger] after[b] as int) by {
                if b < p {
                    assert(after[a] == before[a] && after[b] == before[b]);
                } else if b == p {
                    assert(after[a] == before[a]);
                    assert(feat_key(fs[before[a] as int]) <= key);
                } else if a < p {
                    assert(after[a] == before[a] && after[b] == before[b - 1]);
                } else if a == p {
                    assert(after[b] == before[b - 1]);
                    assert(key < feat_key(fs[before[p as int] as int]));
                    if b - 1 > p {
                        assert(feat_before(fs, before[p as int] as int, before[b - 1] as int));
                    }
                } else {
                    assert(after[a] == before[a - 1] && after[b] == before[b - 1]);
                }
            }
        }
        i = i + 1;
    }
    order
}

/// Net boosts per ability over the dialog's groups: one for each group where it is
/// fixed, one where it is chosen, minus one where it is a flaw.
pub open spec fn net_boost(gs: Seq<BoostGroupView>, a: Ability) -> int
    decreases gs.len(),
{
    if gs.len() == 0 {
        0
    } else {
        let g = gs.last();
        net_boost(gs.drop_last(), a) + (if g.fixed.contains(a) { 1int } else { 0 }) + (if g.chosen.contains(a) {
            1int
        } else {
            0
        }) - (if g.flaws.contains(a) { 1int } else { 0 })
    }
}

fn contains_ability(v: &Vec<Ability>, a: Ability) -> (r: bool)
    ensures
        r == v@.contains(a),
{
    let mut i: usize = 0;
    while i < v.len()
        invariant
            i <= v@.len(),
            forall|j: int| 0 <= j < i ==> v@[j] != a,
        decreases v@.len() - i,
    {
        if v[i] == a {
            assert(v@[i as int] == a);
            return true;
        }
        i = i + 1;
    }
    false
}

/// The running total of the boost dialog for one ability, as a modifier change.
pub fn boost_total(m: &BoostModal, a: Ability) -> (r: i64)
    requires
        m.groups@.len() <= 0x1000_0000,
    ensures
        r == net_boost(groups_view(m.groups@), a),
{
    let ghost gs = groups_view(m.groups@);
    let mut net: i64 = 0;
    let mut i: usize = 0;
    while i < m.groups.len()
        invariant
            i <= m.groups@.len(),
            m.groups@.len() <= 0x1000_0000,
            gs == groups_view(m.groups@),
            net == net_boost(gs.take(i as int), a),
            -2 * (i as int) <= net <= 2 * (i as int),
        decreases m.groups@.len() - i,
    {
        assert(gs.take(i + 1).drop_last() =~= gs.take(i as int));
        let g = &m.groups[i];
        if contains_ability(&g.fixed, a) {
            net = net + 1;
        }
        if contains_ability(&g.chosen, a) {
            net = net + 1;
        }
        if contains_ability(&g.flaws, a) {
            net = net - 1;
        }
        i = i + 1;
    }
    assert(gs.take(m.groups@.len() as int) =~= gs);
    net
}

/// The heading of a rank's block: "Cantrips", "1st Rank" ... "10th Rank", "???" past
/// the tenth rank.
pub open spec fn rank_heading(k: int) -> Seq<char> {
    if k == 0 {
        "Cantrips"@
    } else if k == 1 {
        "1st Rank"@
    } else if k == 2 {
        "2nd Rank"@
    } else if k == 3 {
        "3rd Rank"@
    } else if 4 <= k <= 10 {
        decimal(k as nat) + "th Rank"@
    } else {
        "???"@
    }
}

fn rank_heading_exec(k: usize) -> (r: String)
    ensures
        r@ == rank_heading(k as int),
{
    if k == 0 {
        owned("Cantrips")
    } else if k == 1 {
        owned("1st Rank")
    } else if k == 2 {
        owned("2nd Rank")
    } else if k == 3 {
        owned("3rd Rank")
    } else if k <= 10 {
        let mut s = crate::text::decimal_string(k as u64);
        s.append("th Rank");
        s
    } else {
        owned("???")
    }
}

/// The spell prepared in slot `j` of `rank`, if any.
pub open spec fn prepared_name(c: BuildChoices, rank: u8, j: int) -> Option<Seq<char>> {
    match level_lookup(c.prepared_spells.view(), rank) {
        Some(v) => if 0 <= j < v.len() {
            Some(v[j].0)
        } else {
            None
        },
        None => None,
    }
}

/// A slot line of the Spells tab: the spell in it, if any, and whether the cursor is
/// on it.
pub struct SlotLine {
    pub name: Option<String>,
    pub selected: bool,
}

/// A rank's block of the Spells tab: its heading, its number of slots and the slots.
pub struct RankBlock {
    pub label: String,
    pub count: usize,
    pub slots: Vec<SlotLine>,
}

/// Views of slot lines.
pub open spec fn slot_lines_view(v: Seq<SlotLine>) -> Seq<(Option<Seq<char>>, bool)> {
    v.map_values(|l: SlotLine| (opt_str(l.name), l.selected))
}

/// Views of rank blocks.
pub open spec fn blocks_view(v: Seq<RankBlock>) -> Seq<(Seq<char>, nat, Seq<(Option<Seq<char>>, bool)>)> {
    v.map_values(|b: RankBlock| (b.label@, b.count as nat, slot_lines_view(b.slots@)))
}

/// The blocks of the first `n` cells of the level's row: each rank with slots, its
/// slots numbered across the row, the one at the cursor marked when the tab has focus.
pub open spec fn rank_blocks(
    c: BuildChoices,
    cells: Seq<Seq<char>>,
    n: nat,
    focused: bool,
    cursor: usize,
) -> Seq<(Seq<char>, nat, Seq<(Option<Seq<char>>, bool)>)>
    decreases n,
{
    if n == 0 {
        Seq::empty()
    } else {
        let k = n - 1;
        let prev = rank_blocks(c, cells, (n - 1) as nat, focused, cursor);
        let count = cell_count(cells[k]);
        if count > 0 {
            let start = row_total(cells.take(k));
            prev.push(
                (
                    rank_heading(k),
                    count,
                    Seq::new(count, |j: int| (prepared_name(c, k as u8, j), focused && start + j == cursor)),
                ),
            )
        } else {
            prev
        }
    }
}

/// What the Spells tab shows.
pub enum SpellPanel {
    /// The character casts no spells.
    NoCasting,
    /// The class has no spell slots at the build's level.
    NoSlots { tradition: String, ability: String },
    /// The rank blocks, then the focus spells and an empty line to add one.
    Slots {
        tradition: String,
        ability: String,
        blocks: Vec<RankBlock>,
        focus_points: u8,
        focus: Vec<SlotLine>,
        add_selected: bool,
    },
}

/// The tradition shown in the Spells tab's heading, "Unknown" when none is recorded.
pub open spec fn tradition_text(t: Option<Seq<char>>) -> Seq<char> {
    match t {
        Some(x) => x,
        None => "Unknown"@,
    }
}

/// The casting ability shown in the heading: its first three bytes upper-cased, "???"
/// when there are none.
pub open spec fn ability_text(a: Option<Seq<char>>) -> Seq<char> {
    match a {
        Some(x) => match first_bytes3(x) {
            Some(p) => uppercase(p),
            None => "???"@,
        },
        None => "???"@,
    }
}

/// The focus spell lines: each focus spell, marked when the cursor is on it.
pub open spec fn focus_lines(spells: Seq<SpellSlotChoice>, start: nat, focused: bool, cursor: usize) -> Seq<
    (Option<Seq<char>>, bool),
> {
    Seq::new(spells.len(), |i: int| (Some(spells[i].name@), focused && start + i == cursor))
}

/// `p` is what the Spells tab of `a` shows.
pub open spec fn spell_panel_of(a: App, p: SpellPanel) -> bool {
    let focused = a.focus == Focus::DetailTabs && a.detail_tab == DetailTab::Spells;
    match a.character.spell_caster {
        None => p is NoCasting,
        Some(caster) => {
            let t = tradition_text(opt_str(caster.tradition));
            let ab = ability_text(opt_str(caster.ability));
            match slot_row(a.choices) {
                None => p matches SpellPanel::NoSlots { tradition, ability } && tradition@ == t && ability@ == ab,
                Some(cells) => {
                    let total = row_total(cells);
                    let fs = a.choices.focus_spells@;
                    &&& p matches SpellPanel::Slots { tradition, ability, blocks, focus_points, focus, add_selected }
                        && tradition@ == t && ability@ == ab
                        && blocks_view(blocks@) == rank_blocks(a.choices, cells, cells.len(), focused, a.spell_cursor)
                        && focus_points == a.character.focus_points
                        && slot_lines_view(focus@) == focus_lines(fs, total, focused, a.spell_cursor)
                        && add_selected == (focused && total + fs.len() == a.spell_cursor)
                },
            }
        },
    }
}

fn slot_lines_for(c: &BuildChoices, rank: u8, count: usize, start: usize, focused: bool, cursor: usize) -> (r: Vec<SlotLine>)
    requires
        start + count <= usize::MAX,
    ensures
        slot_lines_view(r@) == Seq::new(
            count as nat,
            |j: int| (prepared_name(*c, rank, j), focused && start + j == cursor),
        ),
{
    let prepared = c.prepared_spells.get(rank);
    let mut out: Vec<SlotLine> = Vec::new();
    let mut j: usize = 0;
    while j < count
        invariant
            j <= count,
            start + count <= usize::MAX,
            match prepared {
                Some(v) => level_lookup(c.prepared_spells.view(), rank) == Some(v.deep_view()),
                None => level_lookup(c.prepared_spells.view(), rank) is None,
            },
            slot_lines_view(out@) == Seq::new(
                j as nat,
                |x: int| (prepared_name(*c, rank, x), focused && start + x == cursor),
            ),
        decreases count - j,
    {
        let name = match prepared {
            Some(v) => if j < v.len() {
                Some(owned(v[j].name.as_str()))
            } else {
                None
            },
            None => None,
        };
        let ghost before = out@;
        let line = SlotLine { name, selected: focused && start + j == cursor };
        assert(opt_str(line.name) == prepared_name(*c, rank, j as int));
        let ghost lv = (opt_str(line.name), line.selected);
        out.push(line);
        assert(slot_lines_view(out@) =~= slot_lines_view(before).push(lv));
        assert(slot_lines_view(out@) =~= Seq::new(
            (j + 1) as nat,
            |x: int| (prepared_name(*c, rank, x), focused && start + x == cursor),
        ));
        j = j + 1;
    }
    out
}

/// What the Spells tab shows: nothing for a character that casts no spells; else a
/// heading of tradition and ability, and (when the class has slots at this level) a
/// block per rank with slots, each slot with its prepared spell, then the focus
/// spells and a line to add one, the line at the spell cursor marked when the tab
/// has focus.
pub fn spell_panel(a: &App) -> (r: SpellPanel)
    requires
        prepared_slots(a.choices) <= usize::MAX,
    ensures
        spell_panel_of(*a, r),
{
    let focused = a.focus == Focus::DetailTabs && a.detail_tab == DetailTab::Spells;
    let caster = match &a.character.spell_caster {
        Some(c) => c,
        None => return SpellPanel::NoCasting,
    };
    let tradition = match &caster.tradition {
        Some(t) => owned(t.as_str()),
        None => owned("Unknown"),
    };
    let ability = match &caster.ability {
        Some(x) => match crate::text::first_three_bytes(x.as_str()) {
            Some(p) => crate::text::to_uppercase(p.as_str()),
            None => owned("???"),
        },
        None => owned("???"),
    };
    let data = match &a.choices.class_data {
        Some(d) => d,
        None => return SpellPanel::NoSlots { tradition, ability },
    };
    let idx: usize = if a.choices.level == 0 { 0 } else { (a.choices.level - 1) as usize };
    if idx >= data.spell_slots.len() {
        return SpellPanel::NoSlots { tradition, ability };
    }
    let slots = &data.spell_slots[idx];
    let ghost cells = strs(slots@);
    let mut blocks: Vec<RankBlock> = Vec::new();
    let mut flat: usize = 0;
    let mut k: usize = 0;
    while k < slots.len()
        invariant
            cells == strs(slots@),
            slot_row(a.choices) == Some(cells),
            row_total(cells) <= usize::MAX,
            k <= slots@.len(),
            flat == row_total(cells.take(k as int)),
            blocks_view(blocks@) == rank_blocks(a.choices, cells, k as nat, focused, a.spell_cursor),
        decreases slots@.len() - k,
    {
        assert(cells.take(k + 1).drop_last() =~= cells.take(k as int));
        proof {
            lemma_row_total_prefix(cells, k + 1);
        }
        let count = crate::build::commands::cell_count_pub(&slots[k]);
        if count > 0 {
            let lines = slot_lines_for(&a.choices, #[verifier::truncate] (k as u8), count, flat, focused, a.spell_cursor);
            let ghost before = blocks@;
            blocks.push(RankBlock { label: rank_heading_exec(k), count, slots: lines });
            assert(blocks_view(blocks@) =~= blocks_view(before).push(rank_blocks(a.choices, cells, (k + 1) as nat, focused, a.spell_cursor).last()));
        }
        flat = flat + count;
        k = k + 1;
    }
    assert(cells.take(slots@.len() as int) =~= cells);
    let fs = &a.choices.focus_spells;
    let mut focus: Vec<SlotLine> = Vec::new();
    let mut i: usize = 0;
    while i < fs.len()
        invariant
            i <= fs@.len(),
            slot_lines_view(focus@) == focus_lines(fs@, flat as nat, focused, a.spell_cursor).take(i as int),
        decreases fs@.len() - i,
    {
        let ghost before = focus@;
        let selected = focused && a.spell_cursor >= flat && a.spell_cursor - flat == i;
        let line = SlotLine { name: Some(owned(fs[i].name.as_str())), selected };
        let ghost lv = (opt_str(line.name), line.selected);
        assert(lv == focus_lines(fs@, flat as nat, focused, a.spell_cursor)[i as int]);
        focus.push(line);
        assert(slot_lines_view(focus@) =~= slot_lines_view(before).push(lv));
        assert(slot_lines_view(focus@) =~= focus_lines(fs@, flat as nat, focused, a.spell_cursor).take(i + 1));
        i = i + 1;
    }
    assert(focus_lines(fs@, flat as nat, focused, a.spell_cursor).take(fs@.len() as int) =~= focus_lines(
        fs@,
        flat as nat,
        focused,
        a.spell_cursor,
    ));
    let add_selected = focused && a.spell_cursor >= flat && a.spell_cursor - flat == fs.len();
    SpellPanel::Slots { tradition, ability, blocks, focus_points: a.character.focus_points, focus, add_selected }
}

/// How a slot line of the build list is shown.
#[derive(Debug, Clone, Copy, PartialEq, Eq, Structural)]
pub enum SlotLook {
    /// Under the cursor.
    Cursor,
    /// Above the character's level.
    Beyond,
    /// Filled, but its prerequisites no longer hold.
    Invalid,
    Filled,
    Empty,
}

/// A line of the build list.
pub enum ListLine {
    /// A level heading; `separated` for every level after the first, `beyond` above
    /// the character's level.
    Heading { level: u8, separated: bool, beyond: bool },
    /// A slot: its marker, its text and how it is shown.
    Slot { marker: char, text: String, look: SlotLook },
}

/// The level whose heading stands last before position `j`, 0 when none does.
pub open spec fn level_in_force(v: Seq<EntryView>, j: int) -> u8
    decreases j,
{
    if j <= 0 || j > v.len() {
        0
    } else {
        match v[j - 1] {
            EntryView::Header(l) => l,
            _ => level_in_force(v, j - 1),
        }
    }
}

/// The marker of a slot: a warning for a filled slot that is no longer valid, a
/// check for a filled one, a circle for an empty one.
pub open spec fn slot_marker(filled: bool, valid: bool) -> char {
    if filled && !valid {
        '⚠'
    } else if filled {
        '✓'
    } else {
        '○'
    }
}

/// How the slot at position `j` is shown.
pub open spec fn slot_look(v: Seq<EntryView>, j: int, filled: bool, valid: bool, char_level: u8, focused: bool, cursor: usize) -> SlotLook {
    if focused && j == cursor {
        SlotLook::Cursor
    } else if level_in_force(v, j) > char_level {
        SlotLook::Beyond
    } else if filled && !valid {
        SlotLook::Invalid
    } else if filled {
        SlotLook::Filled
    } else {
        SlotLook::Empty
    }
}

/// `l` is the line of entry `j` of the build list.
pub open spec fn list_line_of(v: Seq<EntryView>, j: int, l: ListLine, char_level: u8, focused: bool, cursor: usize) -> bool {
    match v[j] {
        EntryView::Header(lvl) => l == ListLine::Heading { level: lvl, separated: lvl > 1, beyond: lvl > char_level },
        EntryView::Slot(slot, _, filled, valid) => l matches ListLine::Slot { marker, text, look } && marker
            == slot_marker(filled is Some, valid) && text@ == slot_display(slot_label(slot), filled) && look
            == slot_look(v, j, filled is Some, valid, char_level, focused, cursor),
    }
}

/// The lines of the build list: a heading per level and a line per slot, marked and
/// shown by state; slots above the character's level are dimmed.
pub fn list_lines(a: &App) -> (r: Vec<ListLine>)
    ensures
        r@.len() == a.progression@.len(),
        forall|j: int| 0 <= j < r@.len() ==> list_line_of(
            entries_view(a.progression@),
            j,
            #[trigger] r@[j],
            a.character.level,
            a.focus == Focus::BuildSelector,
            a.build_cursor,
        ),
{
    let ghost v = entries_view(a.progression@);
    let focused = a.focus == Focus::BuildSelector;
    let char_level = a.character.level;
    let mut current: u8 = 0;
    let mut out: Vec<ListLine> = Vec::new();
    let mut j: usize = 0;
    while j < a.progression.len()
        invariant
            j <= a.progression@.len(),
            v == entries_view(a.progression@),
            focused == (a.focus == Focus::BuildSelector),
            char_level == a.character.level,
            current == level_in_force(v, j as int),
            out@.len() == j,
            forall|k: int| 0 <= k < j ==> list_line_of(v, k, #[trigger] out@[k], char_level, focused, a.build_cursor),
        decreases a.progression@.len() - j,
    {
        let line = match &a.progression[j] {
            ProgressionEntry::LevelHeader(lvl) => {
                current = *lvl;
                ListLine::Heading { level: *lvl, separated: *lvl > 1, beyond: *lvl > char_level }
            },
            ProgressionEntry::Slot(state) => {
                let filled = state.filled.is_some();
                let marker = if filled && !state.valid {
                    '⚠'
                } else if filled {
                    '✓'
                } else {
                    '○'
                };
                let look = if focused && j == a.build_cursor {
                    SlotLook::Cursor
                } else if current > char_level {
                    SlotLook::Beyond
                } else if filled && !state.valid {
                    SlotLook::Invalid
                } else if filled {
                    SlotLook::Filled
                } else {
                    SlotLook::Empty
                };
                ListLine::Slot { marker, text: state.display(), look }
            },
        };
        assert(list_line_of(v, j as int, line, char_level, focused, a.build_cursor));
        out.push(line);
        assert(out@[j as int] == line);
        j = j + 1;
    }
    out
}

/// A list of a deity's domains, each marked when it is one of its primary domains.
pub open spec fn domain_marks(domains: Seq<Seq<char>>, primary: Seq<Seq<char>>) -> Seq<(Seq<char>, bool)> {
    domains.map_values(|d: Seq<char>| (d, primary.contains(d)))
}

fn contains_string(v: &Vec<String>, s: &str) -> (r: bool)
    ensures
        r == strs(v@).contains(s@),
{
    let mut i: usize = 0;
    while i < v.len()
        invariant
            i <= v@.len(),
            forall|k: int| 0 <= k < i ==> strs(v@)[k] != s@,
        decreases v@.len() - i,
    {
        if str_eq(v[i].as_str(), s) {
            assert(strs(v@)[i as int] == s@);
            return true;
        }
        i = i + 1;
    }
    false
}

/// The deity's domains in order, primary ones marked.
pub fn domain_lines(domains: &Vec<String>, primary: &Vec<String>) -> (r: Vec<(String, bool)>)
    ensures
        r@.map_values(|e: (String, bool)| (e.0@, e.1)) == domain_marks(strs(domains@), strs(primary@)),
{
    let ghost target = domain_marks(strs(domains@), strs(primary@));
    let mut out: Vec<(String, bool)> = Vec::new();
    let mut i: usize = 0;
    while i < domains.len()
        invariant
            i <= domains@.len(),
            target == domain_marks(strs(domains@), strs(primary@)),
            out@.map_values(|e: (String, bool)| (e.0@, e.1)) == target.take(i as int),
        decreases domains@.len() - i,
    {
        let ghost before = out@;
        let e = (owned(domains[i].as_str()), contains_string(primary, domains[i].as_str()));
        assert((e.0@, e.1) == target[i as int]);
        out.push(e);
        assert(out@.map_values(|e: (String, bool)| (e.0@, e.1)) =~= before.map_values(|e: (String, bool)| (e.0@, e.1)).push(
            target[i as int],
        ));
        assert(target.take(i + 1) =~= target.take(i as int).push(target[i as int]));
        i = i + 1;
    }
    assert(target.take(domains@.len() as int) =~= target);
    out
}

/// Whether an ability is the character's key ability (its name or abbreviation
/// matched without regard to ASCII case against the abbreviation).
pub fn is_key_ability(key: &Option<String>, a: Ability) -> (r: bool)
    ensures
        r == match *key {
            Some(k) => eq_ci(k@, abbr_spec(a)),
            None => false,
        },
{
    match key {
        Some(k) => crate::text::eq_ignore_ascii_case(k.as_str(), a.abbr()),
        None => false,
    }
}

/// How an ability appears in a boost group's column.
#[derive(Debug, Clone, Copy, PartialEq, Eq, Structural)]
pub enum BoostMark {
    /// Boosted by the source itself.
    Fixed,
    /// Picked as a free boost.
    Chosen,
    Open,
}

/// The marks of a boost group's column, one per ability in the standard order: the
/// ability, its mark, and whether it is a flaw of the group.
pub open spec fn group_marks_spec(g: BoostGroupView) -> Seq<(Ability, BoostMark, bool)> {
    Seq::new(
        6,
        |i: int| {
            let a = ability_at(i);
            (
                a,
                if g.fixed.contains(a) {
                    BoostMark::Fixed
                } else if g.chosen.contains(a) {
                    BoostMark::Chosen
                } else {
                    BoostMark::Open
                },
                g.flaws.contains(a),
            )
        },
    )
}

/// The marks of a boost group's column.
pub fn group_marks(g: &BoostGroup) -> (r: Vec<(Ability, BoostMark, bool)>)
    ensures
        r@ == group_marks_spec(g@),
{
    let ghost target = group_marks_spec(g@);
    let mut out: Vec<(Ability, BoostMark, bool)> = Vec::new();
    let mut i: usize = 0;
    while i < 6
        invariant
            i <= 6,
            target == group_marks_spec(g@),
            out@ == target.take(i as int),
        decreases 6 - i,
    {
        let a = Ability::from_index(i);
        let mark = if contains_ability(&g.fixed, a) {
            BoostMark::Fixed
        } else if contains_ability(&g.chosen, a) {
            BoostMark::Chosen
        } else {
            BoostMark::Open
        };
        out.push((a, mark, contains_ability(&g.flaws, a)));
        assert(out@ =~= target.take(i + 1));
        i = i + 1;
    }
    assert(target.take(6) =~= target);
    out
}

/// A rarity worth a badge.
#[derive(Debug, Clone, Copy, PartialEq, Eq, Structural)]
pub enum Rarity {
    Uncommon,
    Rare,
    Unique,
}

/// The badge of a recorded rarity, read without regard to case; common and unknown
/// rarities have none.
pub open spec fn rarity_of_spec(r: Option<Seq<char>>) -> Option<Rarity> {
    match r {
        Some(t) => {
            let l = lowercase(t);
            if l == "uncommon"@ {
                Some(Rarity::Uncommon)
            } else if l == "rare"@ {
                Some(Rarity::Rare)
            } else if l == "unique"@ {
                Some(Rarity::Unique)
            } else {
                None
            }
        },
        None => None,
    }
}

/// The badge of a document's rarity.
pub fn rarity_of(r: &Option<String>) -> (b: Option<Rarity>)
    ensures
        b == rarity_of_spec(opt_str(*r)),
{
    match r {
        Some(t) => {
            let l = crate::text::to_lowercase(t.as_str());
            if str_eq(l.as_str(), "uncommon") {
                Some(Rarity::Uncommon)
            } else if str_eq(l.as_str(), "rare") {
                Some(Rarity::Rare)
            } else if str_eq(l.as_str(), "unique") {
                Some(Rarity::Unique)
            } else {
                None
            }
        },
        None => None,
    }
}

} // verus!
