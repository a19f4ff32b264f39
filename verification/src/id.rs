//! Opaque identifiers for the entities of the domain.
//!
//! Storage assigns them from a per-store counter, so within one store an
//! identifier is never reused.

use vstd::prelude::*;

verus! {

#[derive(Clone, Copy, Debug, PartialEq, Eq, Structural, Hash)]
pub struct UserId(pub u64);

#[derive(Clone, Copy, Debug, PartialEq, Eq, Structural, Hash)]
pub struct BookId(pub u64);

#[derive(Clone, Copy, Debug, PartialEq, Eq, Structural, Hash)]
pub struct CheckoutId(pub u64);

} // verus!
