use vstd::prelude::*;

verus! {

/// The failure kinds the validation layer and the instruction handlers report.
/// Every precondition that can break maps to exactly one of these, so a caller
/// can tell from the error alone which invariant was violated.
#[derive(Clone, Copy, Debug, PartialEq, Eq, Structural)]
pub enum ChallengeError {
    /// A caller-supplied account key differs from the expected one.
    KeyMismatch,
    /// A fingerprint count would exceed the 255-entry ceiling.
    CapacityExceeded,
    /// An empty solution batch was submitted where a non-empty one is required.
    EmptyInput,
    /// The record's storage holds no data yet, so the record does not exist.
    UninitializedAccount,
    /// The record's storage already holds data, so it cannot be created again.
    AlreadyInitialized,
    /// The record's balance is below the minimum positive threshold.
    UnfundedAccount,
    /// An account that must sign the operation has not authorized it.
    MissingSignature,
}

} // verus!
