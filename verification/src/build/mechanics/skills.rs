//! Granted skills and lore skills read from documents.
use vstd::prelude::*;
use crate::document::{Document, Value, field, value_array, value_str};
use crate::scan::{strip_suffixes, strip_suffixes_chars, trim_chars};
use crate::text::{
    chars_of, contains, ends_with, has_infix, has_suffix, lowercase, owned, string_of, strs,
    to_lowercase, trim,
};

verus! {

/// Skills extracted from a document's `skill` field.
pub struct SkillGrants {
    /// Standard skills (e.g. "Intimidation", "Athletics").
    pub skills: Vec<String>,
    /// Lore topics (e.g. "Warfare", "Heraldry"), without the " Lore" suffix.
    pub lores: Vec<String>,
}

impl Default for SkillGrants {
    fn default() -> (r: SkillGrants)
        ensures
            r.skills@.len() == 0,
            r.lores@.len() == 0,
    {
        SkillGrants { skills: Vec::new(), lores: Vec::new() }
    }
}

/// A skill name names a lore when it ends with " Lore" or contains "Lore".
pub open spec fn is_lore(name: Seq<char>) -> bool {
    has_suffix(name, " Lore"@) || has_infix(name, "Lore"@)
}

/// The lore topic of a lore skill name: without trailing " Lore" and "Lore", trimmed.
pub open spec fn lore_topic(name: Seq<char>) -> Seq<char> {
    trim(strip_suffixes(strip_suffixes(name, " Lore"@), "Lore"@))
}

/// The standard skills among the string items, in order.
pub open spec fn granted_skills(items: Seq<Value>) -> Seq<Seq<char>>
    decreases items.len(),
{
    if items.len() == 0 {
        Seq::empty()
    } else {
        granted_skills(items.drop_last()) + match value_str(items.last()) {
            Some(s) => if is_lore(s) {
                Seq::empty()
            } else {
                seq![s]
            },
            None => Seq::empty(),
        }
    }
}

/// The lore topics among the string items, in order.
pub open spec fn granted_lores(items: Seq<Value>) -> Seq<Seq<char>>
    decreases items.len(),
{
    if items.len() == 0 {
        Seq::empty()
    } else {
        granted_lores(items.drop_last()) + match value_str(items.last()) {
            Some(s) => if is_lore(s) {
                seq![lore_topic(s)]
            } else {
                Seq::empty()
            },
            None => Seq::empty(),
        }
    }
}

/// The items of a document's array field `key`, or none.
pub open spec fn array_items(doc: Document, key: Seq<char>) -> Seq<Value> {
    match field(doc, key) {
        Some(v) => match value_array(v) {
            Some(a) => a,
            None => Seq::empty(),
        },
        None => Seq::empty(),
    }
}

/// The items of a document's array field, by reference.
pub fn array_items_exec<'a>(doc: &'a Document, key: &str) -> (r: Option<&'a Vec<Value>>)
    ensures
        match r {
            Some(a) => array_items(*doc, key@) == a@,
            None => array_items(*doc, key@) == Seq::<Value>::empty(),
        },
{
    match doc.field(key) {
        Some(v) => v.as_array(),
        None => None,
    }
}

/// File a skill name under lores or standard skills.
fn classify_skill(name: &str, grants: &mut SkillGrants)
    ensures
        is_lore(name@) ==> strs(final(grants).lores@) == strs(old(grants).lores@).push(lore_topic(name@))
            && final(grants).skills@ == old(grants).skills@,
        !is_lore(name@) ==> strs(final(grants).skills@) == strs(old(grants).skills@).push(name@)
            && final(grants).lores@ == old(grants).lores@,
{
    if ends_with(name, " Lore") || contains(name, "Lore") {
        let v = chars_of(name);
        let a = strip_suffixes_chars(&v, &chars_of(" Lore"));
        let b = strip_suffixes_chars(&a, &chars_of("Lore"));
        let t = trim_chars(&b, 0, b.len());
        assert(b@.subrange(0, b@.len() as int) =~= b@);
        grants.lores.push(string_of(&t));
        assert(strs(grants.lores@) =~= strs(old(grants).lores@).push(lore_topic(name@)));
    } else {
        grants.skills.push(owned(name));
        assert(strs(grants.skills@) =~= strs(old(grants).skills@).push(name@));
    }
}

fn classify_items(items: &Vec<Value>) -> (r: SkillGrants)
    ensures
        strs(r.skills@) == granted_skills(items@),
        strs(r.lores@) == granted_lores(items@),
{
    let mut result = SkillGrants::default();
    let mut i: usize = 0;
    assert(strs(result.skills@) =~= granted_skills(items@.take(0)));
    assert(strs(result.lores@) =~= granted_lores(items@.take(0)));
    while i < items.len()
        invariant
            i <= items@.len(),
            strs(result.skills@) == granted_skills(items@.take(i as int)),
            strs(result.lores@) == granted_lores(items@.take(i as int)),
        decreases items@.len() - i,
    {
        assert(items@.take(i + 1).drop_last() =~= items@.take(i as int));
        match items[i].as_str() {
            Some(name) => {
                classify_skill(name, &mut result);
            },
            None => {},
        }
        i = i + 1;
    }
    assert(items@.take(items@.len() as int) =~= items@);
    result
}

/// Extract skill grants from the `skill` extra field (used by backgrounds).
pub fn extract_skill_grants(doc: &Document) -> (r: SkillGrants)
    ensures
        strs(r.skills@) == granted_skills(array_items(*doc, "skill"@)),
        strs(r.lores@) == granted_lores(array_items(*doc, "skill"@)),
{
    match array_items_exec(doc, "skill") {
        Some(arr) => classify_items(arr),
        None => {
            let r = SkillGrants::default();
            assert(strs(r.skills@) =~= Seq::<Seq<char>>::empty());
            assert(strs(r.lores@) =~= Seq::<Seq<char>>::empty());
            r
        },
    }
}

/// A class skill entry is kept unless its lower-cased text mentions "additional",
/// "skill" or "number".
pub open spec fn is_named_skill(s: Seq<char>) -> bool {
    let l = lowercase(s);
    !has_infix(l, "additional"@) && !has_infix(l, "skill"@) && !has_infix(l, "number"@)
}

/// The named skills among the string items, in order.
pub open spec fn class_skills(items: Seq<Value>) -> Seq<Seq<char>>
    decreases items.len(),
{
    if items.len() == 0 {
        Seq::empty()
    } else {
        class_skills(items.drop_last()) + match value_str(items.last()) {
            Some(s) => if is_named_skill(s) {
                seq![s]
            } else {
                Seq::empty()
            },
            None => Seq::empty(),
        }
    }
}

/// Extract granted skills from `skill_proficiency` (used by classes).
pub fn extract_class_skill_grants(doc: &Document) -> (r: Vec<String>)
    ensures
        strs(r@) == class_skills(array_items(*doc, "skill_proficiency"@)),
{
    let mut skills: Vec<String> = Vec::new();
    let arr = match array_items_exec(doc, "skill_proficiency") {
        Some(a) => a,
        None => {
            assert(strs(skills@) =~= Seq::<Seq<char>>::empty());
            return skills;
        },
    };
    let mut i: usize = 0;
    assert(strs(skills@) =~= class_skills(arr@.take(0)));
    while i < arr.len()
        invariant
            i <= arr@.len(),
            strs(skills@) == class_skills(arr@.take(i as int)),
        decreases arr@.len() - i,
    {
        assert(arr@.take(i + 1).drop_last() =~= arr@.take(i as int));
        let ghost prev = strs(skills@);
        match arr[i].as_str() {
            Some(s) => {
                let lower = to_lowercase(s);
                // Skip meta entries like "additional skills equal to ..."
                if !contains(lower.as_str(), "additional") && !contains(lower.as_str(), "skill")
                    && !contains(lower.as_str(), "number") {
                    skills.push(owned(s));
                    assert(strs(skills@) =~= prev.push(s@));
                }
            },
            None => {},
        }
        i = i + 1;
    }
    assert(arr@.take(arr@.len() as int) =~= arr@);
    skills
}

} // verus!
