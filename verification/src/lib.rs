//! A library-lending backend core: bearer-token identity resolution,
//! role-gated administration, ownership-scoped book mutations, and the
//! checkout lifecycle, each with a verified contract over an in-memory
//! storage model.

use vstd::prelude::*;

pub mod auth;
pub mod book;
pub mod book_repo;
pub mod checkout_repo;
pub mod clock;
pub mod env;
pub mod error;
pub mod handler;
pub mod id;
pub mod registry;
pub mod requests;
pub mod role;
pub mod user;
pub mod user_repo;

verus! {

/// Sums two counters; the caller answers for the sum fitting.
pub fn add(left: u64, right: u64) -> (r: u64)
    requires
        left + right <= u64::MAX,
    ensures
        r == left + right,
{
    left + right
}

} // verus!
