//! Notifications, one per successful operation.

use vstd::prelude::*;
use crate::account::AccountId;
use crate::ledger::Balance;

verus! {

/// A wager was created and its stake locked.
#[derive(Debug, PartialEq, Eq)]
pub struct ChallengeCreated {
    pub challenge_id: u32,
    pub challenger: AccountId,
    pub wager: Balance,
    pub task_type: String,
}

/// A wager found its second party.
#[derive(Clone, Copy, Debug, PartialEq, Eq)]
pub struct ChallengeAccepted {
    pub challenge_id: u32,
    pub acceptor: AccountId,
}

/// One of the two parties reported a score.
#[derive(Clone, Copy, Debug, PartialEq, Eq)]
pub struct ResultsSubmitted {
    pub challenge_id: u32,
    pub submitter: AccountId,
    pub result: u32,
}

/// Adjudication found a winner and the ledger paid them.
#[derive(Clone, Copy, Debug, PartialEq, Eq)]
pub struct WinnerDeclared {
    pub challenge_id: u32,
    pub winner: AccountId,
    pub amount_won: Balance,
}

/// An unaccepted wager was withdrawn and its stake returned.
#[derive(Clone, Copy, Debug, PartialEq, Eq)]
pub struct ChallengeCanceled {
    pub challenge_id: u32,
    pub challenger: AccountId,
}

} // verus!
