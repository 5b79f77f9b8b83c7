//! An authentication-data adapter: stores and retrieves identity records
//! (users, linked provider accounts, sessions, verification tokens) on
//! behalf of an external authentication flow.
//!
//! The core of the library is the lookup resolver, which picks one of
//! several search strategies from a bag of optional criteria, the partial
//! update engine, which patches a stored record without disturbing fields
//! absent from the payload, and the CRUD facade, which maps every storage
//! interaction to a small outcome enumeration.

pub mod engine;
pub mod facade;
pub mod keys;
pub mod outcome;
pub mod records;
pub mod resolver;
pub mod store;
pub mod update;

use vstd::prelude::*;

verus! {

/// Liveness probe; answers a fixed greeting.
pub fn health() -> (r: &'static str)
    ensures
        r@ == "hello"@,
{
    "hello"
}

} // verus!
