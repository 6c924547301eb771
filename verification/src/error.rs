//! The error taxonomy of the normalization pipeline.

use vstd::prelude::*;

verus! {

/// What can go wrong while normalizing a raw search response.
///
/// The two variants are deliberately distinct outcomes: a shape error is a
/// bug in the upstream data and fatal, while an empty result set is an
/// expected, user-facing condition that callers handle gracefully.
#[derive(Debug)]
pub enum Error {
    /// A structurally valid response held zero hits.
    ResultNotFound(String),
    /// A raw hit was missing its required title field.
    Shape(String),
}

impl Error {
    /// The message carried by this error, whichever variant it is.
    pub open spec fn spec_message(self) -> Seq<char> {
        match self {
            Error::ResultNotFound(s) => s@,
            Error::Shape(s) => s@,
        }
    }

    /// The human-readable message of this error.
    pub fn message(&self) -> (m: &str)
        ensures
            m@ == self.spec_message(),
    {
        match self {
            Error::ResultNotFound(s) => s.as_str(),
            Error::Shape(s) => s.as_str(),
        }
    }

    /// Whether this is the graceful "no results" condition, the one outcome
    /// a caller treats as success.
    pub fn is_result_not_found(&self) -> (b: bool)
        ensures
            b == (self is ResultNotFound),
    {
        match self {
            Error::ResultNotFound(_) => true,
            Error::Shape(_) => false,
        }
    }
}

} // verus!
