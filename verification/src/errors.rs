//! The ways in which a run can end without a verdict.

use vstd::prelude::*;

verus! {

/// Why a batch of checks could not be brought into its final form.
#[derive(Copy, Clone, Debug, PartialEq, Eq, Structural)]
pub enum PostprocessError {
    /// One of the fixed search patterns was not accepted as a regular
    /// expression.
    InvalidPattern,
    /// The id of a check has fewer than two segments, so it has no category.
    MalformedProperty,
    /// A reachability marker carries no check id.
    MissingCheckId,
    /// Two reachability markers carry the same check id.
    DuplicateCheckId,
    /// A check whose location is unreachable has not passed.
    InconsistentReach,
}

/// The three kinds of fatal condition.
#[derive(Copy, Clone, Debug, PartialEq, Eq, Structural)]
pub enum FatalKind {
    /// The stream of the model checker's output could not be read.
    StreamFailure,
    /// The model checker's output is not of the expected shape.
    MalformedItem,
    /// The checks contradict what the pipeline relies on.
    InvariantViolation,
}

/// The kind that an error of the pipeline belongs to.
pub open spec fn spec_kind(e: PostprocessError) -> FatalKind {
    match e {
        PostprocessError::MalformedProperty | PostprocessError::MissingCheckId => {
            FatalKind::MalformedItem
        },
        PostprocessError::InvalidPattern
        | PostprocessError::DuplicateCheckId
        | PostprocessError::InconsistentReach => FatalKind::InvariantViolation,
    }
}

impl PostprocessError {
    /// The kind of fatal condition that the error belongs to.
    pub fn kind(&self) -> (k: FatalKind)
        ensures
            k == spec_kind(*self),
    {
        match self {
            PostprocessError::MalformedProperty | PostprocessError::MissingCheckId => {
                FatalKind::MalformedItem
            },
            PostprocessError::InvalidPattern
            | PostprocessError::DuplicateCheckId
            | PostprocessError::InconsistentReach => FatalKind::InvariantViolation,
        }
    }
}

} // verus!
