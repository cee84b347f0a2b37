//! Error type for classification, fetching and storage.

use vstd::prelude::*;

verus! {

/// Everything that can go wrong while classifying an input, mapping a remote
/// record to a paper, or saving into the store.
#[derive(Clone, Debug)]
pub enum LearnerError {
    /// The input matched no known URL host and no known identifier pattern.
    InvalidIdentifier,
    /// A stored source string failed to parse back into [`crate::paper::Source`];
    /// the payload is the lowercased string that was rejected.
    InvalidSource(String),
    /// A transport-level failure, with the transport's message.
    Network(String),
    /// The identifier was well-formed but the remote source has no record for it.
    NotFound,
    /// The remote service returned an error payload, a response failed to
    /// parse, or a required field was absent; the payload describes it.
    ApiError(String),
    /// A URL could not be parsed during classification or extraction.
    InvalidUrl,
    /// The store already holds a paper with the same (source, identifier) pair.
    Duplicate,
}

impl LearnerError {
    /// Whether this error reports an attempt to save a paper whose
    /// (source, identifier) pair is already present in the store.
    pub fn is_duplicate_error(&self) -> (r: bool)
        ensures
            r == (self is Duplicate),
    {
        match self {
            LearnerError::Duplicate => true,
            _ => false,
        }
    }
}

} // verus!
