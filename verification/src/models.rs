//! The one entity of the pipeline: a normalized, displayable search result.

use vstd::prelude::*;

verus! {

/// One normalized movie search result, ready to be shown to the user.
///
/// A list of these built by the normalizer is never empty, keeps the order
/// of the upstream hits, carries `"N/A"` wherever the upstream gave no
/// release date, and marks exactly its first element as most relevant.
#[derive(Debug)]
pub struct MovieData {
    pub title: String,
    pub release_date: String,
    pub is_most_relevant: bool,
}

impl MovieData {
    /// Plain constructor: every field is taken verbatim.
    pub fn new(title: String, release_date: String, is_most_relevant: bool) -> (m: MovieData)
        ensures
            m.title == title,
            m.release_date == release_date,
            m.is_most_relevant == is_most_relevant,
    {
        MovieData { title, release_date, is_most_relevant }
    }
}

} // verus!
