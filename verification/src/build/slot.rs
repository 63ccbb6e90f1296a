//! Build slots in the level-by-level progression.
use vstd::prelude::*;
use vstd::string::StringExecFns;
use crate::text::{decimal, decimal_string, opt_str, owned};

verus! {

/// A type of build choice slot in the character progression.
#[derive(Debug, Clone, Copy, PartialEq, Eq, Hash, Structural)]
pub enum BuildSlot {
    Ancestry,
    Heritage,
    Background,
    Class,
    Subclass,
    AbilityBoosts,
    AncestryFeat,
    ClassFeat,
    ClassFeature,
    SkillFeat,
    GeneralFeat,
    SkillIncrease,
    Deity,
    SkillSelection,
}

pub open spec fn slot_label(s: BuildSlot) -> Seq<char> {
    match s {
        BuildSlot::Ancestry => "Ancestry"@,
        BuildSlot::Heritage => "Heritage"@,
        BuildSlot::Background => "Background"@,
        BuildSlot::Class => "Class"@,
        BuildSlot::Subclass => "Subclass"@,
        BuildSlot::AbilityBoosts => "Ability Boosts"@,
        BuildSlot::AncestryFeat => "Ancestry Feat"@,
        BuildSlot::ClassFeat => "Class Feat"@,
        BuildSlot::ClassFeature => "Class Feature"@,
        BuildSlot::SkillFeat => "Skill Feat"@,
        BuildSlot::GeneralFeat => "General Feat"@,
        BuildSlot::SkillIncrease => "Skill Increase"@,
        BuildSlot::Deity => "Deity"@,
        BuildSlot::SkillSelection => "Skill Selection"@,
    }
}

pub open spec fn slot_category(s: BuildSlot) -> Option<Seq<char>> {
    match s {
        BuildSlot::Ancestry => Some("ancestry"@),
        BuildSlot::Heritage => Some("heritage"@),
        BuildSlot::Background => Some("background"@),
        BuildSlot::Class => Some("class"@),
        BuildSlot::AncestryFeat => Some("feat"@),
        BuildSlot::ClassFeat => Some("feat"@),
        BuildSlot::SkillFeat => Some("feat"@),
        BuildSlot::GeneralFeat => Some("feat"@),
        BuildSlot::Deity => Some("deity"@),
        BuildSlot::ClassFeature => Some("class-feature"@),
        BuildSlot::Subclass | BuildSlot::AbilityBoosts | BuildSlot::SkillIncrease
        | BuildSlot::SkillSelection => None,
    }
}

/// Key under which a feat slot's selection is stored: "LABEL_LEVEL".
pub open spec fn slot_key(s: BuildSlot, level: u8) -> Seq<char> {
    slot_label(s) + seq!['_'] + decimal(level as nat)
}

impl BuildSlot {
    pub fn label(&self) -> (r: &'static str)
        ensures
            r@ == slot_label(*self),
    {
        match self {
            BuildSlot::Ancestry => "Ancestry",
            BuildSlot::Heritage => "Heritage",
            BuildSlot::Background => "Background",
            BuildSlot::Class => "Class",
            BuildSlot::Subclass => "Subclass",
            BuildSlot::AbilityBoosts => "Ability Boosts",
            BuildSlot::AncestryFeat => "Ancestry Feat",
            BuildSlot::ClassFeat => "Class Feat",
            BuildSlot::ClassFeature => "Class Feature",
            BuildSlot::SkillFeat => "Skill Feat",
            BuildSlot::GeneralFeat => "General Feat",
            BuildSlot::SkillIncrease => "Skill Increase",
            BuildSlot::Deity => "Deity",
            BuildSlot::SkillSelection => "Skill Selection",
        }
    }

    /// Document category to search when filling this slot.
    pub fn search_category(&self) -> (r: Option<&'static str>)
        ensures
            match r {
                Some(c) => slot_category(*self) == Some(c@),
                None => slot_category(*self) is None,
            },
    {
        match self {
            BuildSlot::Ancestry => Some("ancestry"),
            BuildSlot::Heritage => Some("heritage"),
            BuildSlot::Background => Some("background"),
            BuildSlot::Class => Some("class"),
            BuildSlot::AncestryFeat => Some("feat"),
            BuildSlot::ClassFeat => Some("feat"),
            BuildSlot::SkillFeat => Some("feat"),
            BuildSlot::GeneralFeat => Some("feat"),
            BuildSlot::Deity => Some("deity"),
            BuildSlot::ClassFeature => Some("class-feature"),
            // Subclass category is dynamic; it comes from the class data
            BuildSlot::Subclass | BuildSlot::AbilityBoosts | BuildSlot::SkillIncrease
            | BuildSlot::SkillSelection => None,
        }
    }

    /// The key "LABEL_LEVEL" for this slot at `level`.
    pub fn key_at(&self, level: u8) -> (r: String)
        ensures
            r@ == slot_key(*self, level),
    {
        let mut s = owned(self.label());
        s.append("_");
        let d = decimal_string(level as u64);
        s.append(d.as_str());
        proof {
            reveal_strlit("_");
        }
        assert(s@ =~= slot_key(*self, level));
        s
    }
}

/// Tracks whether a slot has been filled.
#[derive(Debug, Clone)]
pub struct SlotState {
    pub slot: BuildSlot,
    pub level: u8,
    pub filled: Option<String>,
    pub valid: bool,
}

/// Abstract value of a slot: kind, level, filled name, validity.
pub open spec fn slot_view(s: SlotState) -> (BuildSlot, u8, Option<Seq<char>>, bool) {
    (s.slot, s.level, opt_str(s.filled), s.valid)
}

/// "LABEL: NAME", or "LABEL: —" when empty.
pub open spec fn slot_display(label: Seq<char>, filled: Option<Seq<char>>) -> Seq<char> {
    match filled {
        Some(n) => label + ": "@ + n,
        None => label + ": —"@,
    }
}

impl SlotState {
    pub fn new(slot: BuildSlot, level: u8) -> (r: Self)
        ensures
            slot_view(r) == (slot, level, None::<Seq<char>>, true),
    {
        Self { slot, level, filled: None, valid: true }
    }

    pub fn display(&self) -> (r: String)
        ensures
            r@ == slot_display(slot_label(self.slot), opt_str(self.filled)),
    {
        let mut s = owned(self.slot.label());
        match &self.filled {
            Some(name) => {
                s.append(": ");
                s.append(name.as_str());
            },
            None => {
                s.append(": —");
            },
        }
        s
    }
}

} // verus!
