//! Mechanics extraction: document data -> structured game data.
//!
//! Each submodule handles one domain (ancestry, background, class, etc.)
//! and provides `extract_*` functions that take a `Document` and return
//! typed game data.
pub mod ancestry;
pub mod background;
pub mod deity;
pub mod equipment;
pub mod proficiency;
pub mod boosts;
pub mod class;
pub mod skills;
pub mod subclass;

use vstd::prelude::*;
use vstd::string::StringExecFns;
use crate::model::proficiencies::Rank;
use crate::text::owned;

verus! {

/// A grant of proficiency rank in a named target.
#[derive(Debug, Clone, PartialEq, Eq)]
pub struct ProficiencyGrant {
    pub target: String,
    pub rank: Rank,
}

impl View for ProficiencyGrant {
    type V = (Seq<char>, Rank);

    open spec fn view(&self) -> (Seq<char>, Rank) {
        (self.target@, self.rank)
    }
}

/// Views of a list of grants.
pub open spec fn grants_view(v: Seq<ProficiencyGrant>) -> Seq<(Seq<char>, Rank)> {
    v.map_values(|g: ProficiencyGrant| g@)
}

/// Error type for mechanics extraction failures.
#[derive(Debug)]
pub enum MechanicsError {
    MissingField(String),
    Parse(String),
}

/// The message of an error: "missing field: ..." or "parse error: ...".
pub open spec fn error_message(e: MechanicsError) -> Seq<char> {
    match e {
        MechanicsError::MissingField(s) => "missing field: "@ + s@,
        MechanicsError::Parse(s) => "parse error: "@ + s@,
    }
}

impl MechanicsError {
    /// The error's message.
    pub fn message(&self) -> (r: String)
        ensures
            r@ == error_message(*self),
    {
        match self {
            MechanicsError::MissingField(s) => {
                let mut m = owned("missing field: ");
                m.append(s.as_str());
                m
            },
            MechanicsError::Parse(s) => {
                let mut m = owned("parse error: ");
                m.append(s.as_str());
                m
            },
        }
    }
}

} // verus!
