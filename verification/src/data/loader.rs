//! Messages between the builder and the background document loader.
use vstd::prelude::*;
use crate::document::Document;

verus! {

/// A request for documents.
pub enum LoadRequest {
    /// Search a category, with field filters (field, value).
    SearchCategory { category: String, filters: Vec<(String, String)> },
    /// Show one document by name, optionally within a category.
    ShowDocument { name: String, category: Option<String> },
}

/// `r` searches category `cat` with the given filters.
pub open spec fn search_of(r: LoadRequest, cat: Seq<char>, fs: Seq<(Seq<char>, Seq<char>)>) -> bool {
    match r {
        LoadRequest::SearchCategory { category, filters } => category@ == cat && filters@.map_values(
            |f: (String, String)| (f.0@, f.1@),
        ) == fs,
        _ => false,
    }
}

/// What the loader answers.
pub enum LoadResult {
    Documents(Vec<Document>),
    Error(String),
}

} // verus!
