//! Declaration of the identifier type that the domain interfaces carry.
//!
//! Identities are `uuid::Uuid` values. They are opaque here: the library
//! never looks inside one, it only passes them through, so the declaration
//! below says nothing beyond the type's existence.

use vstd::prelude::*;

verus! {

/// Relies on the uuid crate's `Uuid` type: a 128-bit universally unique
/// identifier, carried through unread.
#[verifier::external_type_specification]
#[verifier::external_body]
pub struct ExUuid(uuid::Uuid);

} // verus!
