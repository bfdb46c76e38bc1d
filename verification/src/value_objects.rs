//! Value objects reserved for the domain layer around the core.
//!
//! The domain validation rules that would give these types content are
//! outside the persistence core, so they are carried as markers only.

use vstd::prelude::*;

verus! {

/// Marker for a user identifier in the domain layer.
pub struct UserId;

/// Marker for a validated email address.
pub struct Email;

/// Marker for a hashed password.
pub struct HashedPassword;

/// Marker for a validated user name.
pub struct UserName;

/// Marker for a user lifecycle status.
pub struct UserStatus;

} // verus!
