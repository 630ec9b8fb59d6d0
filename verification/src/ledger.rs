//! Orders to the ledger that holds the escrowed funds.

use vstd::prelude::*;
use crate::account::AccountId;

verus! {

/// A quantity of the ledger's token.
pub type Balance = u128;

/// A point in time, as the host reports it.
pub type Timestamp = u64;

/// An order to pay `amount` out of escrow to the account `to`.
///
/// The registry never moves funds itself. It names the transfer an operation
/// calls for; the host has the ledger carry it out and reports back whether
/// the ledger accepted it.
#[derive(Clone, Copy, Debug, PartialEq, Eq)]
pub struct Transfer {
    pub to: AccountId,
    pub amount: Balance,
}

} // verus!
