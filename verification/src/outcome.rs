//! The response-outcome enumeration and the write-path state machine.
//!
//! Every operation of the facade reports one of these outcomes; a write
//! operation walks the states key-validation, lookup, commit, and each
//! failure is mapped to the nearest outcome before it ever reaches the
//! caller.

use vstd::prelude::*;

verus! {

/// The outcome of one adapter operation, as reported to the transport
/// layer.
#[derive(Clone, Copy, Debug, PartialEq, Eq, Structural)]
pub enum Outcome {
    /// The operation completed.
    Success,
    /// A record was inserted.
    Created,
    /// A read matched no record.
    NoContent,
    /// A write was asked for a record that is not there.
    NotFound,
    /// A required key parameter was missing; storage was never consulted.
    Unprocessable,
    /// An insert collided with an existing identity key.
    Conflict,
    /// The storage driver reported a failure.
    InternalError,
}

/// The write-path state machine: a write first validates that its key
/// parameter is present, then looks the record up, then commits.  The
/// first step to fail decides the outcome.
pub open spec fn spec_write_outcome(key_present: bool, found: bool, committed: bool) -> Outcome {
    if !key_present {
        Outcome::Unprocessable
    } else if !found {
        Outcome::NotFound
    } else if !committed {
        Outcome::InternalError
    } else {
        Outcome::Success
    }
}

/// Maps the three gates of a write operation (key supplied, record found,
/// commit succeeded) to its outcome.  A driver that performs the lookup
/// and the commit externally reports its result through this function.
pub fn write_outcome(key_present: bool, found: bool, committed: bool) -> (o: Outcome)
    ensures
        o == spec_write_outcome(key_present, found, committed),
{
    if !key_present {
        Outcome::Unprocessable
    } else if !found {
        Outcome::NotFound
    } else if !committed {
        Outcome::InternalError
    } else {
        Outcome::Success
    }
}

/// A write whose required key parameter is absent is rejected as
/// Unprocessable no matter what the storage layer would have answered:
/// the later gates are never consulted.
pub proof fn lemma_missing_key_is_unprocessable(found: bool, committed: bool)
    ensures
        spec_write_outcome(false, found, committed) == Outcome::Unprocessable,
{
}

} // verus!
