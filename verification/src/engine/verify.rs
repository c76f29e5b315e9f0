//! Verification results.
use vstd::prelude::*;

verus! {

/// Verification result comparing metadata, requested state, and observed state.
#[derive(Clone, Copy, Debug, PartialEq, Eq, Structural)]
pub enum Verification {
    /// Observed state matches expected state.
    Match,
    /// UUID or unique identifier does not match.
    MismatchUuid,
    /// Name does not match.
    MismatchName,
    /// Expected name is missing.
    MismatchNoName,
    /// Target type does not match.
    MismatchTargetType,
    /// CPU requirements do not match observed state.
    MismatchCpu,
    /// Verification could not determine a result.
    Unknown,
}

} // verus!
