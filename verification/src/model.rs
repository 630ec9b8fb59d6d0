//! The registry as a mathematical object: what it holds, and what each
//! operation makes of it.

use vstd::prelude::*;
use crate::account::AccountId;
use crate::challenge::{ChallengeView, Status};
use crate::error::Error;
use crate::events::WinnerDeclared;
use crate::ledger::{Balance, Timestamp, Transfer};

verus! {

/// The mathematical content of a [`FitnessChallenge`](crate::contract::FitnessChallenge): the registered wagers
/// by identifier, and the number of wagers created so far.
pub struct ContractView {
    pub challenges: Map<u32, ChallengeView>,
    pub challenge_count: u32,
}

impl ContractView {
    /// The registry before anything was created.
    pub open spec fn init() -> Self {
        ContractView { challenges: Map::empty(), challenge_count: 0 }
    }

    /// What holds of every registry: each registered identifier was handed
    /// out before, and each record is well formed.
    pub open spec fn wf(self) -> bool {
        forall|id: u32| #[trigger]
            self.challenges.contains_key(id) ==> 1 <= id <= self.challenge_count
                && self.challenges[id].wf()
    }

    /// Whether `id` was handed out by an earlier creation.
    pub open spec fn allocated(self, id: u32) -> bool {
        1 <= id <= self.challenge_count
    }

    /// The identifier that the next creation hands out.
    pub open spec fn next_id(self) -> int {
        self.challenge_count + 1
    }

    /// The record under `id`, if one is registered.
    pub open spec fn lookup(self, id: u32) -> Result<ChallengeView, Error> {
        if self.challenges.contains_key(id) {
            Ok(self.challenges[id])
        } else {
            Err(Error::NotFound)
        }
    }

    /// The registry with `record` stored under `id`.
    pub open spec fn put(self, id: u32, record: ChallengeView) -> Self {
        ContractView { challenges: self.challenges.insert(id, record), ..self }
    }

    /// The part of the registry that a call about `id` can see: the counter,
    /// and the record under `id` if there is one.
    pub open spec fn window(self, id: u32) -> Self {
        ContractView { challenges: self.challenges.restrict(set![id]), ..self }
    }

    /// The stake held in escrow for the wager `id`: the stake of its record,
    /// and nothing where no record is registered.
    pub open spec fn escrow(self, id: u32) -> nat {
        if self.challenges.contains_key(id) {
            self.challenges[id].wager as nat
        } else {
            0
        }
    }

    /// The status of `id`: none if it was never handed out, `Canceled` if it
    /// was and its record is gone, else the status of its record.
    pub open spec fn status(self, id: u32) -> Option<Status> {
        if self.challenges.contains_key(id) {
            Some(self.challenges[id].status())
        } else if self.allocated(id) {
            Some(Status::Canceled)
        } else {
            None
        }
    }

    /// Creation: the next identifier is handed out and an open record of
    /// `caller` with the stake `wager` is stored under it.
    pub open spec fn create(self, caller: AccountId, wager: Balance, task_type: Seq<char>) -> Self
        recommends
            self.challenge_count < u32::MAX,
    {
        ContractView {
            challenges: self.challenges.insert(
                self.next_id() as u32,
                ChallengeView::open(caller, wager, task_type),
            ),
            challenge_count: self.next_id() as u32,
        }
    }

    /// Acceptance of `id` by `caller` at time `now`.
    pub open spec fn accept(self, id: u32, caller: AccountId, now: Timestamp) -> Result<
        Self,
        Error,
    > {
        match self.lookup(id) {
            Err(e) => Err(e),
            Ok(record) => match record.accept(caller, now) {
                Err(e) => Err(e),
                Ok(accepted) => Ok(self.put(id, accepted)),
            },
        }
    }

    /// A score for `id` reported by `caller`.
    pub open spec fn submit(self, id: u32, caller: AccountId, result: u32) -> Result<Self, Error> {
        match self.lookup(id) {
            Err(e) => Err(e),
            Ok(record) => match record.submit_result(caller, result) {
                Err(e) => Err(e),
                Ok(updated) => Ok(self.put(id, updated)),
            },
        }
    }

    /// Whether the payout for `id`, if one is owed, can be written as a
    /// [`Balance`].
    pub open spec fn payout_fits(self, id: u32) -> bool {
        self.challenges.contains_key(id) ==> self.challenges[id].payout_fits()
    }

    /// The transfer that adjudication of `id` calls for.
    pub open spec fn payout_due(self, id: u32) -> Result<Option<Transfer>, Error> {
        match self.lookup(id) {
            Err(e) => Err(e),
            Ok(record) => record.settlement(),
        }
    }

    /// Adjudication of `id`, where `transferred` says whether the ledger made
    /// the transfer that [`Self::payout_due`] names. Without a winner there
    /// is nothing to transfer and nothing to announce.
    pub open spec fn determine(self, id: u32, transferred: bool) -> Result<
        Option<WinnerDeclared>,
        Error,
    > {
        match self.payout_due(id) {
            Err(e) => Err(e),
            Ok(None) => Ok(None),
            Ok(Some(payout)) => if transferred {
                Ok(
                    Some(
                        WinnerDeclared {
                            challenge_id: id,
                            winner: payout.to,
                            amount_won: payout.amount,
                        },
                    ),
                )
            } else {
                Err(Error::TransferFailed)
            },
        }
    }

    /// The transfer that cancellation of `id` by `caller` calls for.
    pub open spec fn refund_due(self, id: u32, caller: AccountId) -> Result<Transfer, Error> {
        match self.lookup(id) {
            Err(e) => Err(e),
            Ok(record) => record.refund(caller),
        }
    }

    /// Cancellation of `id` by `caller`, where `refunded` says whether the
    /// ledger made the transfer that [`Self::refund_due`] names.
    pub open spec fn cancel(self, id: u32, caller: AccountId, refunded: bool) -> Result<
        Self,
        Error,
    > {
        match self.refund_due(id, caller) {
            Err(e) => Err(e),
            Ok(_) => if refunded {
                Ok(ContractView { challenges: self.challenges.remove(id), ..self })
            } else {
                Err(Error::RefundFailed)
            },
        }
    }
}

/// One call of an operation, with everything the host supplies to it.
pub enum Call {
    Create { caller: AccountId, wager: Balance, task_type: Seq<char> },
    Accept { challenge_id: u32, caller: AccountId, now: Timestamp },
    Submit { challenge_id: u32, caller: AccountId, result: u32 },
    Determine { challenge_id: u32, transferred: bool },
    Cancel { challenge_id: u32, caller: AccountId, refunded: bool },
}

/// The registry after `call`. A call that fails leaves it as it was, and so
/// does adjudication, which only reads.
pub open spec fn step(s: ContractView, call: Call) -> ContractView {
    match call {
        Call::Create { caller, wager, task_type } => s.create(caller, wager, task_type),
        Call::Accept { challenge_id, caller, now } => match s.accept(challenge_id, caller, now) {
            Ok(next) => next,
            Err(_) => s,
        },
        Call::Submit { challenge_id, caller, result } => match s.submit(
            challenge_id,
            caller,
            result,
        ) {
            Ok(next) => next,
            Err(_) => s,
        },
        Call::Determine { .. } => s,
        Call::Cancel { challenge_id, caller, refunded } => match s.cancel(
            challenge_id,
            caller,
            refunded,
        ) {
            Ok(next) => next,
            Err(_) => s,
        },
    }
}

/// The identifier that `call` is about: the one it names, and for a creation
/// the one it hands out.
pub open spec fn target(s: ContractView, call: Call) -> u32 {
    match call {
        Call::Create { .. } => s.next_id() as u32,
        Call::Accept { challenge_id, .. } => challenge_id,
        Call::Submit { challenge_id, .. } => challenge_id,
        Call::Determine { challenge_id, .. } => challenge_id,
        Call::Cancel { challenge_id, .. } => challenge_id,
    }
}

/// The error with which `call` fails on `s`, if it fails.
pub open spec fn failure(s: ContractView, call: Call) -> Option<Error> {
    match call {
        Call::Create { .. } => None,
        Call::Accept { challenge_id, caller, now } => match s.accept(challenge_id, caller, now) {
            Ok(_) => None,
            Err(e) => Some(e),
        },
        Call::Submit { challenge_id, caller, result } => match s.submit(
            challenge_id,
            caller,
            result,
        ) {
            Ok(_) => None,
            Err(e) => Some(e),
        },
        Call::Determine { challenge_id, transferred } => match s.determine(
            challenge_id,
            transferred,
        ) {
            Ok(_) => None,
            Err(e) => Some(e),
        },
        Call::Cancel { challenge_id, caller, refunded } => match s.cancel(
            challenge_id,
            caller,
            refunded,
        ) {
            Ok(_) => None,
            Err(e) => Some(e),
        },
    }
}

} // verus!
