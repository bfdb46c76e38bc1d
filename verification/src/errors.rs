//! Error taxonomy of the persistence core.

use vstd::prelude::*;

verus! {

/// Why a write was refused.
#[derive(Debug, Clone, Copy, PartialEq, Eq, Structural)]
pub enum WriteError {
    /// The expected version did not match the stored one: another writer
    /// committed first. The caller is expected to replay and retry.
    Conflict,
    /// Any other failure of the underlying store (connectivity,
    /// serialization, quota). Surfaced unchanged, never retried here.
    Storage,
}

/// Why a read or replay failed.
#[derive(Debug, Clone, Copy, PartialEq, Eq, Structural)]
pub enum ReadError {
    /// The persisted history is malformed: its first event is not a
    /// creation event, or its sequence numbers have gaps or duplicates.
    /// Fatal to the replay; never papered over with a partial state.
    InvariantViolation,
    /// Any other failure of the underlying store on a read path.
    Storage,
}

/// Domain-rule error of the user aggregate. The domain validation rules
/// themselves (name or email format, password hashing) are outside this
/// core, so the single placeholder variant of the original interface is
/// kept as is.
#[derive(Debug, Clone, Copy, PartialEq, Eq, Structural)]
pub enum UserError {
    /// No domain rule is defined for this operation.
    Unimplemented,
}

} // verus!
