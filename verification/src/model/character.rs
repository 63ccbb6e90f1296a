//! The derived character sheet.
use vstd::prelude::*;
use vstd::string::StringExecFns;
use crate::model::abilities::{Abilities, AbilitiesView};
use crate::model::feat::{FeatChoice, FeatChoiceView, feats_view};
use crate::model::proficiencies::{Proficiencies, ProficienciesView, untrained_profs};
use crate::model::spell::{SpellCaster, SpellCasterView};
use crate::text::{decimal, decimal_string, opt_str, owned, strs};

verus! {

/// One weapon's attack line.
#[derive(Debug, Clone)]
pub struct WeaponAttack {
    pub display: String,
    pub attack_bonus: i32,
    pub damage: String,
}

impl View for WeaponAttack {
    type V = (Seq<char>, i32, Seq<char>);

    open spec fn view(&self) -> (Seq<char>, i32, Seq<char>) {
        (self.display@, self.attack_bonus, self.damage@)
    }
}

/// Views of a list of weapon attacks.
pub open spec fn attacks_view(v: Seq<WeaponAttack>) -> Seq<(Seq<char>, i32, Seq<char>)> {
    v.map_values(|w: WeaponAttack| w@)
}

/// A character as derived from build choices.
#[derive(Debug, Clone)]
pub struct Character {
    pub name: String,
    pub level: u8,
    pub ancestry: Option<String>,
    pub heritage: Option<String>,
    pub background: Option<String>,
    pub class: Option<String>,
    pub deity: Option<String>,
    pub key_ability: Option<String>,
    pub alignment: Option<String>,
    pub size: Option<String>,
    pub speed: u32,
    pub hp_max: u32,
    pub ancestry_hp: u32,
    pub class_hp: u32,
    pub abilities: Abilities,
    pub proficiencies: Proficiencies,
    pub feats: Vec<FeatChoice>,
    pub spell_caster: Option<SpellCaster>,
    // Derived combat stats (recomputed by recalculate)
    pub ac: i32,
    pub perception_bonus: i32,
    pub fortitude_bonus: i32,
    pub reflex_bonus: i32,
    pub will_bonus: i32,
    pub class_dc: i32,
    pub melee_attack: i32,
    pub ranged_attack: i32,
    pub spell_attack: i32,
    pub spell_dc: i32,
    pub weapon_attacks: Vec<WeaponAttack>,
    pub shield_ac_bonus: i32,
    pub focus_points: u8,
    pub languages: Vec<String>,
    pub favored_weapon: Option<String>,
}

/// Abstract value of a `Character`.
pub struct CharacterView {
    pub name: Seq<char>,
    pub level: u8,
    pub ancestry: Option<Seq<char>>,
    pub heritage: Option<Seq<char>>,
    pub background: Option<Seq<char>>,
    pub class: Option<Seq<char>>,
    pub deity: Option<Seq<char>>,
    pub key_ability: Option<Seq<char>>,
    pub alignment: Option<Seq<char>>,
    pub size: Option<Seq<char>>,
    pub speed: u32,
    pub hp_max: u32,
    pub ancestry_hp: u32,
    pub class_hp: u32,
    pub abilities: AbilitiesView,
    pub proficiencies: ProficienciesView,
    pub feats: Seq<FeatChoiceView>,
    pub spell_caster: Option<SpellCasterView>,
    pub ac: i32,
    pub perception_bonus: i32,
    pub fortitude_bonus: i32,
    pub reflex_bonus: i32,
    pub will_bonus: i32,
    pub class_dc: i32,
    pub melee_attack: i32,
    pub ranged_attack: i32,
    pub spell_attack: i32,
    pub spell_dc: i32,
    pub weapon_attacks: Seq<(Seq<char>, i32, Seq<char>)>,
    pub shield_ac_bonus: i32,
    pub focus_points: u8,
    pub languages: Seq<Seq<char>>,
    pub favored_weapon: Option<Seq<char>>,
}

pub open spec fn caster_view(o: Option<SpellCaster>) -> Option<SpellCasterView> {
    match o {
        Some(c) => Some(c@),
        None => None,
    }
}

impl View for Character {
    type V = CharacterView;

    open spec fn view(&self) -> CharacterView {
        CharacterView {
            name: self.name@,
            level: self.level,
            ancestry: opt_str(self.ancestry),
            heritage: opt_str(self.heritage),
            background: opt_str(self.background),
            class: opt_str(self.class),
            deity: opt_str(self.deity),
            key_ability: opt_str(self.key_ability),
            alignment: opt_str(self.alignment),
            size: opt_str(self.size),
            speed: self.speed,
            hp_max: self.hp_max,
            ancestry_hp: self.ancestry_hp,
            class_hp: self.class_hp,
            abilities: self.abilities@,
            proficiencies: self.proficiencies@,
            feats: feats_view(self.feats@),
            spell_caster: caster_view(self.spell_caster),
            ac: self.ac,
            perception_bonus: self.perception_bonus,
            fortitude_bonus: self.fortitude_bonus,
            reflex_bonus: self.reflex_bonus,
            will_bonus: self.will_bonus,
            class_dc: self.class_dc,
            melee_attack: self.melee_attack,
            ranged_attack: self.ranged_attack,
            spell_attack: self.spell_attack,
            spell_dc: self.spell_dc,
            weapon_attacks: attacks_view(self.weapon_attacks@),
            shield_ac_bonus: self.shield_ac_bonus,
            focus_points: self.focus_points,
            languages: strs(self.languages@),
            favored_weapon: opt_str(self.favored_weapon),
        }
    }
}

/// A fresh character: the given name, level 1, speed 25, everything else empty or zero.
pub open spec fn fresh_character(name: Seq<char>) -> CharacterView {
    CharacterView {
        name: name,
        level: 1,
        ancestry: None,
        heritage: None,
        background: None,
        class: None,
        deity: None,
        key_ability: None,
        alignment: None,
        size: None,
        speed: 25,
        hp_max: 0,
        ancestry_hp: 0,
        class_hp: 0,
        abilities: AbilitiesView { boosts: Seq::empty(), flaws: Seq::empty() },
        proficiencies: untrained_profs(),
        feats: Seq::empty(),
        spell_caster: None,
        ac: 0,
        perception_bonus: 0,
        fortitude_bonus: 0,
        reflex_bonus: 0,
        will_bonus: 0,
        class_dc: 0,
        melee_attack: 0,
        ranged_attack: 0,
        spell_attack: 0,
        spell_dc: 0,
        weapon_attacks: Seq::empty(),
        shield_ac_bonus: 0,
        focus_points: 0,
        languages: Seq::empty(),
        favored_weapon: None,
    }
}

/// "ANCESTRY [HERITAGE ]/ CLASS LEVEL", with "???" for a missing ancestry or class.
pub open spec fn summary_spec(
    ancestry: Option<Seq<char>>,
    heritage: Option<Seq<char>>,
    class: Option<Seq<char>>,
    level: u8,
) -> Seq<char> {
    let a = match ancestry {
        Some(x) => x,
        None => "???"@,
    };
    let c = match class {
        Some(x) => x,
        None => "???"@,
    };
    let h = match heritage {
        Some(x) => seq![' '] + x,
        None => Seq::empty(),
    };
    a + h + " / "@ + c + seq![' '] + decimal(level as nat)
}

impl Character {
    pub fn new(name: &str) -> (r: Self)
        ensures
            r@ == fresh_character(name@),
    {
        let r = Character {
            name: owned(name),
            level: 1,
            ancestry: None,
            heritage: None,
            background: None,
            class: None,
            deity: None,
            key_ability: None,
            alignment: None,
            size: None,
            speed: 25,
            hp_max: 0,
            ancestry_hp: 0,
            class_hp: 0,
            abilities: Abilities::new(),
            proficiencies: Proficiencies::new(),
            feats: Vec::new(),
            spell_caster: None,
            ac: 0,
            perception_bonus: 0,
            fortitude_bonus: 0,
            reflex_bonus: 0,
            will_bonus: 0,
            class_dc: 0,
            melee_attack: 0,
            ranged_attack: 0,
            spell_attack: 0,
            spell_dc: 0,
            weapon_attacks: Vec::new(),
            shield_ac_bonus: 0,
            focus_points: 0,
            languages: Vec::new(),
            favored_weapon: None,
        };
        assert(r@.abilities.boosts =~= Seq::empty());
        assert(r@.abilities.flaws =~= Seq::empty());
        assert(r@.feats =~= Seq::empty());
        assert(r@.weapon_attacks =~= Seq::empty());
        assert(r@.languages =~= Seq::empty());
        r
    }

    pub fn summary_line(&self) -> (r: String)
        ensures
            r@ == summary_spec(
                opt_str(self.ancestry),
                opt_str(self.heritage),
                opt_str(self.class),
                self.level,
            ),
    {
        let mut s = String::new();
        match &self.ancestry {
            Some(a) => s.append(a.as_str()),
            None => s.append("???"),
        }
        match &self.heritage {
            Some(h) => {
                s.append(" ");
                s.append(h.as_str());
            },
            None => {},
        }
        s.append(" / ");
        match &self.class {
            Some(c) => s.append(c.as_str()),
            None => s.append("???"),
        }
        s.append(" ");
        let d = decimal_string(self.level as u64);
        s.append(d.as_str());
        proof {
            reveal_strlit(" ");
        }
        assert(s@ =~= summary_spec(
            opt_str(self.ancestry),
            opt_str(self.heritage),
            opt_str(self.class),
            self.level,
        ));
        s
    }
}

} // verus!
