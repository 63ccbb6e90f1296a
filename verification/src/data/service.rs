//! Cache keys and search sizes of the document service.
use vstd::prelude::*;
use vstd::string::StringExecFns;
use crate::text::{owned, str_eq};

verus! {

/// The filters rendered as ":field=value" each, in order.
pub open spec fn filters_text(filters: Seq<(String, String)>) -> Seq<char>
    decreases filters.len(),
{
    if filters.len() == 0 {
        Seq::empty()
    } else {
        filters_text(filters.drop_last()) + ":"@ + filters.last().0@ + "="@ + filters.last().1@
    }
}

/// The cache key of a category search: "cat:CATEGORY" then ":field=value" per filter.
pub open spec fn memo_key_spec(category: Seq<char>, filters: Seq<(String, String)>) -> Seq<char> {
    "cat:"@ + category + filters_text(filters)
}

/// Cache key of a category search.
pub fn memo_key(category: &str, filters: &Vec<(String, String)>) -> (r: String)
    ensures
        r@ == memo_key_spec(category@, filters@),
{
    let mut key = owned("cat:");
    key.append(category);
    let mut i: usize = 0;
    assert(filters@.take(0) =~= Seq::<(String, String)>::empty());
    while i < filters.len()
        invariant
            i <= filters@.len(),
            key@ == "cat:"@ + category@ + filters_text(filters@.take(i as int)),
        decreases filters@.len() - i,
    {
        assert(filters@.take(i + 1).drop_last() =~= filters@.take(i as int));
        let ghost prev = key@;
        key.append(":");
        key.append(filters[i].0.as_str());
        key.append("=");
        key.append(filters[i].1.as_str());
        assert(key@ =~= prev + ":"@ + filters@[i as int].0@ + "="@ + filters@[i as int].1@);
        i = i + 1;
    }
    assert(filters@.take(filters@.len() as int) =~= filters@);
    key
}

/// The cache key of a document shown by name: "show:NAME:CATEGORY".
pub open spec fn show_key_spec(name: Seq<char>, category: Option<Seq<char>>) -> Seq<char> {
    "show:"@ + name + ":"@ + match category {
        Some(c) => c,
        None => Seq::empty(),
    }
}

/// Cache key of a document shown by name.
pub fn show_key(name: &str, category: &Option<String>) -> (r: String)
    ensures
        r@ == show_key_spec(name@, crate::text::opt_str(*category)),
{
    let mut key = owned("show:");
    key.append(name);
    key.append(":");
    match category {
        Some(c) => {
            key.append(c.as_str());
        },
        None => {},
    }
    key
}

/// How many documents a category search asks for: 500 for heritages and feats,
/// 200 otherwise.
pub fn search_size(category: &str) -> (r: usize)
    ensures
        r == (if category@ == "heritage"@ || category@ == "feat"@ { 500usize } else { 200usize }),
{
    if str_eq(category, "heritage") || str_eq(category, "feat") {
        500
    } else {
        200
    }
}

} // verus!
