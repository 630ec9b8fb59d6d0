//! Why an operation was refused.

use vstd::prelude::*;

verus! {

/// The reasons for which an operation fails. A failed operation leaves the
/// registry exactly as it found it.
#[derive(Clone, Copy, Debug, PartialEq, Eq, Structural)]
pub enum Error {
    /// No wager is registered under the given identifier.
    NotFound,
    /// The wager already has an acceptor.
    AlreadyAccepted,
    /// The caller is not allowed to do this to the wager.
    Unauthorized,
    /// At least one of the two parties has not reported a score yet.
    ResultsIncomplete,
    /// The ledger refused to pay the winner.
    TransferFailed,
    /// The ledger refused to return the stake to the creator.
    RefundFailed,
}

} // verus!
