//! Feat choices recorded on a character.
use vstd::prelude::*;
use crate::text::opt_str;

verus! {

#[derive(Debug, Clone, Copy, PartialEq, Eq, Structural)]
pub enum FeatType {
    Ancestry,
    Class,
    General,
    Skill,
    Heritage,
    Bonus,
}

#[derive(Debug, Clone)]
pub struct FeatChoice {
    pub name: String,
    pub feat_type: FeatType,
    pub level: u8,
    pub slot: String,
    pub source_id: Option<String>,
}

/// Abstract value of a `FeatChoice`.
pub struct FeatChoiceView {
    pub name: Seq<char>,
    pub feat_type: FeatType,
    pub level: u8,
    pub slot: Seq<char>,
    pub source_id: Option<Seq<char>>,
}

impl View for FeatChoice {
    type V = FeatChoiceView;

    open spec fn view(&self) -> FeatChoiceView {
        FeatChoiceView {
            name: self.name@,
            feat_type: self.feat_type,
            level: self.level,
            slot: self.slot@,
            source_id: opt_str(self.source_id),
        }
    }
}

/// Views of a list of feat choices.
pub open spec fn feats_view(v: Seq<FeatChoice>) -> Seq<FeatChoiceView> {
    v.map_values(|f: FeatChoice| f@)
}

} // verus!
