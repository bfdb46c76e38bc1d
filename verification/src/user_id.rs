//! Identifier of a user aggregate instance.

use vstd::prelude::*;

verus! {

/// Relies on `uuid::Uuid::new_v4` and `uuid::Uuid::as_u128`: a freshly
/// generated version-4 identifier, handed over as its 128-bit value.
/// The value is random, so nothing is promised about it.
#[verifier::external_body]
pub(crate) fn fresh_uuid_value() -> u128 {
    uuid::Uuid::new_v4().as_u128()
}

/// Identifier of one user aggregate instance, stable for the instance's
/// lifetime. Carries the 128 bits of a UUID.
#[derive(Debug, Clone, Copy, PartialEq, Eq, Hash, Structural)]
pub struct UserId(pub u128);

impl UserId {
    /// Generates a fresh random identifier.
    pub fn new() -> Self {
        UserId(fresh_uuid_value())
    }

    /// The raw 128-bit value of the identifier.
    pub fn value_bits(&self) -> (r: u128)
        ensures
            r == self.0,
    {
        self.0
    }
}

} // verus!
