//! The error taxonomy of the escrow engine. Every error is returned
//! synchronously to the caller and aborts the whole operation; no partial
//! state is ever persisted.

use vstd::prelude::*;

verus! {

/// Why an escrow operation was refused.
#[derive(Clone, Copy, Debug, PartialEq, Eq, Structural)]
pub enum ContractError {
    /// The caller is not the identity the operation demands
    /// (the trusted worker, or the job's client).
    Unauthorized,
    /// The referenced job id has never been allocated.
    NotFound,
    /// A parameter is out of range (a rating outside 1..=5).
    InvalidInput,
    /// The job's current status forbids the operation.
    InvalidState,
    /// The job already carries a rating; a rating is set at most once.
    AlreadyRated,
    /// An address fails the well-formedness check of the addressing scheme.
    InvalidAddress,
}

} // verus!
