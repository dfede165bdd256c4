//! Errors returned by the arbitration contract.
use vstd::prelude::*;

verus! {

/// Why the arbitration contract refused a call.
#[derive(Clone, Copy, Debug, PartialEq, Eq, PartialOrd, Ord, Structural)]
pub enum Error {
    NotInitialized,
    AlreadyInitialized,
    Unauthorized,
    DisputeNotFound,
    /// The dispute, or the outcome it was to get, does not allow the call.
    InvalidStatus,
    /// No reason was given.
    InvalidReason,
    /// A dispute over this payout is already open.
    DisputeAlreadyRaised,
}

/// Why a call was refused, by what it returned, if it was.
pub open spec fn refused_with<T>(r: Result<T, Error>) -> Option<Error> {
    match r {
        Ok(_) => None,
        Err(e) => Some(e),
    }
}

} // verus!
