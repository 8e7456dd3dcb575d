//! Bidirectional, non-failing mapping between a domain representation and
//! a persistence representation, independent of the derivation engine.

use vstd::prelude::*;

verus! {

/// A helper trait to convert a domain model into a persistence model or
/// dao `T`.
pub trait ToPersistence<T> {
    /// Converts itself into a persistence model or dao.
    fn to_persistence(&self) -> T;
}

/// A helper trait to convert a persistence model or dao into a domain `T`.
pub trait ToDomain<T> {
    /// Reconstructs a domain `T` from the persistence model or dao
    /// `persistence`, without consuming it.
    fn to_domain(persistence: &Self) -> T;
}

} // verus!
