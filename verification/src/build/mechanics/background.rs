//! Background data read from background documents.
use vstd::prelude::*;
use crate::build::choices::BackgroundData;
use crate::build::mechanics::boosts::{doc_flaws, extract_boost_spec, fixed_abilities, free_count};
use crate::build::mechanics::skills::{array_items, extract_skill_grants, granted_lores, granted_skills};
use crate::document::{Document, first_str};
use crate::text::{opt_str, strs};

verus! {

/// A background offering exactly two fixed boosts and no free one gets one free boost.
pub open spec fn background_free(fixed: Seq<crate::model::abilities::Ability>, free: nat) -> nat {
    if fixed.len() == 2 && free == 0 {
        1
    } else {
        free
    }
}

/// `r` is the background data read from `doc`.
pub open spec fn background_data_of(r: BackgroundData, doc: Document) -> bool {
    &&& r.boost_spec.fixed@ == fixed_abilities(strs(doc.attribute@))
    &&& r.boost_spec.free == background_free(
            fixed_abilities(strs(doc.attribute@)),
            free_count(strs(doc.attribute@))
        )
    &&& r.boost_spec.flaws@ == doc_flaws(doc)
    &&& strs(r.granted_skills@) == granted_skills(array_items(doc, "skill"@))
    &&& strs(r.granted_lores@) == granted_lores(array_items(doc, "skill"@))
    &&& opt_str(r.granted_feat) == first_str(doc, "feat"@)
}

/// Extract background feat, skill grants, and boost spec.
pub fn extract_background_data(doc: &Document) -> (r: BackgroundData)
    requires
        free_count(strs(doc.attribute@)) <= 255,
    ensures
        background_data_of(r, *doc),
{
    let mut spec = extract_boost_spec(doc);
    // Backgrounds list 2 attribute options + 1 free
    if spec.fixed.len() == 2 && spec.free == 0 {
        spec.free = 1;
    }
    let grants = extract_skill_grants(doc);
    let granted_feat = doc.first_str("feat");
    BackgroundData {
        boost_spec: spec,
        granted_skills: grants.skills,
        granted_lores: grants.lores,
        granted_feat,
    }
}

} // verus!
