//! The fixed texts that the pipeline looks for in descriptions and ids.

use vstd::prelude::*;

verus! {

/// Marks a check on a construct that Kani does not support.
pub const UNSUPPORTED_CONSTRUCT_DESC: &'static str = "is not currently supported by Kani";

/// Marks a check that a loop was unwound far enough.
pub const UNWINDING_ASSERT_DESC: &'static str = "unwinding assertion loop";

/// Description of the check that stands for a call of an undefined function.
pub const ASSERTION_FALSE: &'static str = "assertion false";

/// Category of plain assertions.
pub const DEFAULT_ASSERTION: &'static str = "assertion";

/// Marks a synthetic check that only records whether a location is reachable.
pub const REACH_CHECK_DESC: &'static str = "[KANI_REACHABILITY_CHECK]";

/// Description given to the check of an undefined function.
pub const MISSING_DEFINITION_DESC: &'static str = "Function with missing definition is unreachable";

/// Category of the model checker's internal housekeeping checks.
pub const SANITY_CHECK: &'static str = "sanity_check";

/// Part of the categories of pointer-arithmetic checks.
pub const POINTER_ARITHMETIC: &'static str = "pointer_arithmetic";

/// Part of the categories of pointer-primitive checks.
pub const POINTER_PRIMITIVES: &'static str = "pointer_primitives";

/// Finds the check id inside the description of a reachability marker.
pub const MARKER_ID_PATTERN: &'static str = "KANI_CHECK_ID_.*_([0-9])*";

/// Finds the bracketed check-id token inside the description of a check.
pub const CHECK_TOKEN_PATTERN: &'static str = r"\[KANI_CHECK_ID_([^\]]*)\]";

/// Finds the bracketed check-id token, and the blank after it, that is taken
/// out of a description.
pub const STRIP_TOKEN_PATTERN: &'static str = r"\[KANI_CHECK_ID_.*_([0-9])*\] ";

} // verus!
