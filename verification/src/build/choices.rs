//! All user decisions that define a character build.
//!
//! Derived state (ability scores, HP, proficiencies) is computed
//! by `recalculate()` from these choices.
use vstd::prelude::*;
use crate::build::maps::{LevelMap, NameMap};
use crate::build::mechanics::proficiency::ProficiencyAdvance;
use crate::model::abilities::{Ability, BoostSpec};
use crate::model::equipment::Equipment;
use crate::model::feat::FeatType;
use crate::model::proficiencies::Rank;
use crate::model::types::{DivineFont, Sanctification};
use crate::text::{opt_str, owned};

verus! {

/// All user decisions that define a character build.
pub struct BuildChoices {
    pub name: String,
    pub level: u8,
    // Slot selections (name only)
    pub ancestry: Option<String>,
    pub heritage: Option<String>,
    pub background: Option<String>,
    pub class: Option<String>,
    pub deity: Option<String>,
    pub subclass: Option<String>,
    // Parsed document data (extracted on selection)
    pub ancestry_data: Option<AncestryData>,
    pub background_data: Option<BackgroundData>,
    pub class_data: Option<ClassData>,
    /// Ability boost choices keyed by source.
    pub ability_choices: NameMap<AbilityChoiceSet>,
    /// Skill increase choices keyed by level.
    pub skill_increases: LevelMap<String>,
    /// Feat selections keyed by slot ("Ancestry Feat_1", etc.).
    pub feats: NameMap<FeatSelection>,
    /// Initial trained skill selections at L1.
    pub initial_skills: Vec<String>,
    /// Prepared spells keyed by spell rank.
    pub prepared_spells: LevelMap<Vec<SpellSlotChoice>>,
    /// Alternate ancestry boosts toggle.
    pub use_alternate_ancestry: bool,
    /// Focus spells.
    pub focus_spells: Vec<SpellSlotChoice>,
    /// Equipment (weapons, armor, shield, items, money).
    pub equipment: Equipment,
    /// Deity extracted data.
    pub deity_data: Option<DeityData>,
    /// Bonus languages chosen by the player (capped at INT mod).
    pub bonus_languages: Vec<String>,
    // Deity choice fields
    pub chosen_domains: Vec<String>,
    pub chosen_divine_font: Option<DivineFont>,
}

#[derive(Debug, Clone)]
pub struct AncestryData {
    pub size: Option<String>,
    pub speed: u32,
    pub hp: u32,
    pub boost_spec: BoostSpec,
    pub granted_languages: Vec<String>,
}

#[derive(Debug, Clone)]
pub struct DeityData {
    pub domains: Vec<String>,
    pub primary_domains: Vec<String>,
    pub divine_font: Vec<DivineFont>,
    pub favored_weapon: Option<String>,
    pub divine_skill: Option<String>,
    pub sanctification: Vec<Sanctification>,
    pub edicts: Option<String>,
    pub anathema: Option<String>,
    pub cleric_spells: Vec<String>,
}

#[derive(Debug, Clone)]
pub struct BackgroundData {
    pub boost_spec: BoostSpec,
    pub granted_skills: Vec<String>,
    pub granted_lores: Vec<String>,
    pub granted_feat: Option<String>,
}

#[derive(Debug, Clone)]
pub struct ClassData {
    pub hp: u32,
    pub key_ability: Option<String>,
    pub boost_spec: BoostSpec,
    pub perception: Rank,
    pub fortitude: Rank,
    pub reflex: Rank,
    pub will: Rank,
    pub unarmored: Rank,
    pub light_armor: Rank,
    pub medium_armor: Rank,
    pub heavy_armor: Rank,
    pub simple_weapons: Rank,
    pub martial_weapons: Rank,
    pub unarmed: Rank,
    pub granted_skills: Vec<String>,
    pub proficiency_advances: Vec<ProficiencyAdvance>,
    /// Document category for this class's subclass (e.g. "bloodline").
    pub subclass_category: Option<String>,
    /// Class features granted automatically by level.
    pub class_features: Vec<ClassFeatureEntry>,
    /// Number of additional trained skills from class (beyond fixed grants).
    pub additional_skill_count: u8,
    /// Spell slots per day table: spell_slots[level-1] = slots per rank,
    /// each inner list being [cantrips, 1st, 2nd, ...].
    pub spell_slots: Vec<Vec<String>>,
    /// Spellcasting tradition (e.g. "Arcane", "Divine").
    pub tradition: Option<String>,
    /// Casting ability (e.g. "Intelligence", "Wisdom").
    pub casting_ability: Option<String>,
}

/// A class feature auto-granted at a specific level.
#[derive(Debug, Clone)]
pub struct ClassFeatureEntry {
    pub name: String,
    pub level: u8,
    /// True if this entry represents a class feat slot (e.g. "barbarian feat").
    pub is_feat_slot: bool,
}

impl View for ClassFeatureEntry {
    type V = (Seq<char>, u8, bool);

    open spec fn view(&self) -> (Seq<char>, u8, bool) {
        (self.name@, self.level, self.is_feat_slot)
    }
}

/// Views of a list of class features.
pub open spec fn features_view(v: Seq<ClassFeatureEntry>) -> Seq<(Seq<char>, u8, bool)> {
    v.map_values(|f: ClassFeatureEntry| f@)
}

#[derive(Debug, Clone)]
pub struct SpellSlotChoice {
    pub name: String,
    pub rank: u8,
    pub source_id: Option<String>,
}

impl DeepView for SpellSlotChoice {
    type V = (Seq<char>, u8, Option<Seq<char>>);

    open spec fn deep_view(&self) -> (Seq<char>, u8, Option<Seq<char>>) {
        (self.name@, self.rank, opt_str(self.source_id))
    }
}

#[derive(Debug, Clone)]
pub struct AbilityChoiceSet {
    pub fixed: Vec<Ability>,
    pub chosen: Vec<Ability>,
    pub flaws: Vec<Ability>,
}

impl DeepView for AbilityChoiceSet {
    type V = (Seq<Ability>, Seq<Ability>, Seq<Ability>);

    open spec fn deep_view(&self) -> (Seq<Ability>, Seq<Ability>, Seq<Ability>) {
        (self.fixed@, self.chosen@, self.flaws@)
    }
}

#[derive(Debug, Clone)]
pub struct FeatSelection {
    pub name: String,
    pub feat_type: FeatType,
    pub level: u8,
    pub source_id: Option<String>,
    pub source_context: Option<String>,
}

/// Abstract value of a `FeatSelection`.
pub struct FeatSelectionView {
    pub name: Seq<char>,
    pub feat_type: FeatType,
    pub level: u8,
    pub source_id: Option<Seq<char>>,
    pub source_context: Option<Seq<char>>,
}

impl DeepView for FeatSelection {
    type V = FeatSelectionView;

    open spec fn deep_view(&self) -> FeatSelectionView {
        FeatSelectionView {
            name: self.name@,
            feat_type: self.feat_type,
            level: self.level,
            source_id: opt_str(self.source_id),
            source_context: opt_str(self.source_context),
        }
    }
}

/// `c` is a new build named `name`: level 1, nothing chosen.
pub open spec fn is_new_build(c: BuildChoices, name: Seq<char>) -> bool {
    &&& c.name@ == name
    &&& c.level == 1
    &&& c.ancestry is None
    &&& c.heritage is None
    &&& c.background is None
    &&& c.class is None
    &&& c.deity is None
    &&& c.subclass is None
    &&& c.ancestry_data is None
    &&& c.background_data is None
    &&& c.class_data is None
    &&& c.ability_choices.view().len() == 0
    &&& c.skill_increases.view().len() == 0
    &&& c.feats.view().len() == 0
    &&& c.initial_skills@.len() == 0
    &&& c.prepared_spells.view().len() == 0
    &&& !c.use_alternate_ancestry
    &&& c.focus_spells@.len() == 0
    &&& c.equipment.weapons@.len() == 0
    &&& c.equipment.armor@.len() == 0
    &&& c.equipment.shield is None
    &&& c.equipment.items@.len() == 0
    &&& c.deity_data is None
    &&& c.bonus_languages@.len() == 0
    &&& c.chosen_domains@.len() == 0
    &&& c.chosen_divine_font is None
}

impl BuildChoices {
    /// A new build: the given name, level 1, nothing chosen.
    pub fn new(name: &str) -> (r: Self)
        ensures
            is_new_build(r, name@),
    {
        BuildChoices {
            name: owned(name),
            level: 1,
            ancestry: None,
            heritage: None,
            background: None,
            class: None,
            deity: None,
            subclass: None,
            ancestry_data: None,
            background_data: None,
            class_data: None,
            ability_choices: NameMap::new(),
            skill_increases: LevelMap::new(),
            feats: NameMap::new(),
            initial_skills: Vec::new(),
            prepared_spells: LevelMap::new(),
            use_alternate_ancestry: false,
            focus_spells: Vec::new(),
            equipment: Equipment::empty(),
            deity_data: None,
            bonus_languages: Vec::new(),
            chosen_domains: Vec::new(),
            chosen_divine_font: None,
        }
    }
}

} // verus!
