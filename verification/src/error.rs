//! The kinds of failure, and the failure that a stage reports.

use vstd::prelude::*;

verus! {

/// What went wrong, so that a caller can branch on it.
#[derive(Clone, Copy, Debug, PartialEq, Eq, Structural, Hash)]
pub enum ErrorKind {
    /// An input that is refused before any work: an empty URL or identifier,
    /// an episode number that is not positive, a nil series reference.
    InvalidInput,
    /// The transport failed, or the other side answered with an error.
    TransportFailure,
    /// A document could not be read.
    ParseFailure,
    /// A series or an episode that an operation needs is not there.
    NotFound,
    /// Enrichment failed after the base data was saved.
    EnrichmentFailure,
}

/// A failure: its kind and the cause in words.
#[derive(Clone, Debug, PartialEq, Eq)]
pub struct Failure {
    pub kind: ErrorKind,
    pub cause: String,
}

/// The model of a [`Failure`].
pub ghost struct FailureModel {
    pub kind: ErrorKind,
    pub cause: Seq<char>,
}

impl DeepView for Failure {
    type V = FailureModel;

    open spec fn deep_view(&self) -> FailureModel {
        FailureModel { kind: self.kind, cause: self.cause@ }
    }
}

impl Failure {
    /// A failure of the given kind with the given cause.
    pub fn new(kind: ErrorKind, cause: &str) -> (failure: Failure)
        ensures
            failure.deep_view() == (FailureModel { kind, cause: cause@ }),
    {
        Failure { kind, cause: cause.to_owned() }
    }

    /// A failure whose cause is a fixed phrase followed by a detail.
    pub fn with_detail(kind: ErrorKind, phrase: &str, detail: &str) -> (failure: Failure)
        ensures
            failure.deep_view() == (FailureModel { kind, cause: phrase@ + detail@ }),
    {
        Failure { kind, cause: crate::text::join(phrase, detail) }
    }

    /// A copy of this failure.
    pub fn duplicate(&self) -> (copy: Failure)
        ensures
            copy.deep_view() == self.deep_view(),
    {
        Failure { kind: self.kind, cause: self.cause.clone() }
    }
}

} // verus!
