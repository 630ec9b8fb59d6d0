//! The registry of wagers and the operations on it.

use vstd::prelude::*;
use std::collections::BTreeMap;
use crate::account::AccountId;
use crate::challenge::{Challenge, ChallengeView, Status};
use crate::error::Error;
use crate::events::{
    ChallengeAccepted,
    ChallengeCanceled,
    ChallengeCreated,
    ResultsSubmitted,
    WinnerDeclared,
};
use crate::ledger::{Balance, Timestamp, Transfer};
use crate::model::{step, Call, ContractView};

verus! {

/// The registry of wagers: the records by identifier, and the counter from
/// which identifiers are handed out.
#[derive(Debug)]
pub struct FitnessChallenge {
    challenges: BTreeMap<u32, Challenge>,
    challenge_count: u32,
}

impl View for FitnessChallenge {
    type V = ContractView;

    closed spec fn view(&self) -> ContractView {
        ContractView {
            challenges: self.challenges@.map_values(|record: Challenge| record@),
            challenge_count: self.challenge_count,
        }
    }
}

impl FitnessChallenge {
    #[verifier::type_invariant]
    spec fn inv(self) -> bool {
        forall|id: u32| #[trigger]
            self.challenges@.contains_key(id) ==> 1 <= id <= self.challenge_count
                && self.challenges@[id]@.wf()
    }

    /// An empty registry.
    pub fn new() -> (contract: FitnessChallenge)
        ensures
            contract@ == ContractView::init(),
    {
        let contract = FitnessChallenge { challenges: BTreeMap::new(), challenge_count: 0 };
        assert(contract@.challenges =~= Map::empty());
        contract
    }

    /// The part of a stored registry that a call about `challenge_id` needs:
    /// the counter as it was stored, and the record stored under
    /// `challenge_id`, if any.
    ///
    /// There is no such registry where a record is given under an identifier
    /// that the counter says was never handed out.
    pub fn load(challenge_count: u32, challenge_id: u32, record: Option<Challenge>) -> (r: Option<
        FitnessChallenge,
    >)
        ensures
            match r {
                Some(contract) => {
                    &&& contract@.wf()
                    &&& contract@.challenge_count == challenge_count
                    &&& contract@.challenges == match record {
                        Some(stored) => Map::<u32, ChallengeView>::empty().insert(
                            challenge_id,
                            stored@,
                        ),
                        None => Map::<u32, ChallengeView>::empty(),
                    }
                },
                None => record is Some && !(1 <= challenge_id <= challenge_count),
            },
    {
        let mut contract = FitnessChallenge { challenges: BTreeMap::new(), challenge_count };
        assert(contract@.challenges =~= Map::empty());
        match record {
            None => {},
            Some(stored) => {
                if challenge_id < 1 || challenge_id > challenge_count {
                    return None;
                }
                contract.put(challenge_id, stored);
            },
        }
        proof {
            use_type_invariant(&contract);
        }
        Some(contract)
    }

    /// The number of wagers created so far.
    pub fn challenge_count(&self) -> (count: u32)
        ensures
            count == self@.challenge_count,
            self@.wf(),
    {
        proof {
            use_type_invariant(self);
        }
        self.challenge_count
    }

    /// The record registered under `challenge_id`.
    pub fn get(&self, challenge_id: u32) -> (found: Option<&Challenge>)
        ensures
            self@.wf(),
            match found {
                Some(record) => self@.lookup(challenge_id) == Ok::<ChallengeView, Error>(record@),
                None => self@.lookup(challenge_id) == Err::<ChallengeView, Error>(Error::NotFound),
            },
    {
        proof {
            use_type_invariant(self);
        }
        self.challenges.get(&challenge_id)
    }

    /// Where `challenge_id` stands: nothing if it was never handed out,
    /// `Canceled` if it was and its record is gone, else the status of its
    /// record.
    pub fn status(&self, challenge_id: u32) -> (status: Option<Status>)
        ensures
            status == self@.status(challenge_id),
    {
        match self.get(challenge_id) {
            Some(record) => Some(record.status()),
            None => {
                if 1 <= challenge_id && challenge_id <= self.challenge_count {
                    Some(Status::Canceled)
                } else {
                    None
                }
            },
        }
    }

    /// Creates a wager: `caller` stakes `wager`, the value attached to the
    /// call, on the task `task_type`.
    ///
    /// The wager gets the next identifier, one above the last one handed out,
    /// and from then on `wager` is held in escrow for it. Creation cannot be
    /// refused; it needs an identifier to be left.
    pub fn create_challenge(&mut self, caller: AccountId, wager: Balance, task_type: String) -> (r:
        Result<(u32, ChallengeCreated), Error>)
        requires
            old(self)@.challenge_count < u32::MAX,
        ensures
            final(self)@ == old(self)@.create(caller, wager, task_type@),
            final(self)@ == step(old(self)@, Call::Create { caller, wager, task_type: task_type@ }),
            final(self)@.wf(),
            r matches Ok((challenge_id, created)) && {
                &&& challenge_id == old(self)@.next_id()
                &&& created.challenge_id == challenge_id
                &&& created.challenger == caller
                &&& created.wager == wager
                &&& created.task_type@ == task_type@
                &&& final(self)@.escrow(challenge_id) == wager
                &&& final(self)@.status(challenge_id) == Some(Status::Open)
            },
    {
        proof {
            use_type_invariant(&*self);
        }
        let challenge_id = self.challenge_count + 1;
        let created = ChallengeCreated {
            challenge_id,
            challenger: caller,
            wager,
            task_type: task_type.clone(),
        };
        self.challenge_count = challenge_id;
        self.put(challenge_id, Challenge::new(caller, wager, task_type));
        proof {
            use_type_invariant(&*self);
        }
        Ok((challenge_id, created))
    }

    /// Accepts the wager `challenge_id` for `caller` at time `now`.
    ///
    /// Fails with `NotFound` where no such wager is registered, and with
    /// `AlreadyAccepted` where it has an acceptor.
    pub fn accept_challenge(&mut self, challenge_id: u32, caller: AccountId, now: Timestamp) -> (r:
        Result<ChallengeAccepted, Error>)
        ensures
            final(self)@.wf(),
            final(self)@ == step(old(self)@, Call::Accept { challenge_id, caller, now }),
            match old(self)@.accept(challenge_id, caller, now) {
                Ok(next) => final(self)@ == next && r == Ok::<ChallengeAccepted, Error>(
                    ChallengeAccepted { challenge_id, acceptor: caller },
                ),
                Err(e) => final(self)@ == old(self)@ && r == Err::<ChallengeAccepted, Error>(e),
            },
    {
        proof {
            use_type_invariant(&*self);
        }
        let found = match self.get(challenge_id) {
            None => { return Err(Error::NotFound); },
            Some(record) => record.clone(),
        };
        match found.accept(caller, now) {
            Err(e) => Err(e),
            Ok(accepted) => {
                self.put(challenge_id, accepted);
                proof {
                    use_type_invariant(&*self);
                }
                Ok(ChallengeAccepted { challenge_id, acceptor: caller })
            },
        }
    }

    /// Records the score `result` that `caller` reports for the wager
    /// `challenge_id`.
    ///
    /// Fails with `NotFound` where no such wager is registered, and with
    /// `Unauthorized` where `caller` is neither its creator nor its acceptor.
    pub fn submit_results(&mut self, challenge_id: u32, result: u32, caller: AccountId) -> (r:
        Result<ResultsSubmitted, Error>)
        ensures
            final(self)@.wf(),
            final(self)@ == step(old(self)@, Call::Submit { challenge_id, caller, result }),
            match old(self)@.submit(challenge_id, caller, result) {
                Ok(next) => final(self)@ == next && r == Ok::<ResultsSubmitted, Error>(
                    ResultsSubmitted { challenge_id, submitter: caller, result },
                ),
                Err(e) => final(self)@ == old(self)@ && r == Err::<ResultsSubmitted, Error>(e),
            },
    {
        proof {
            use_type_invariant(&*self);
        }
        let found = match self.get(challenge_id) {
            None => { return Err(Error::NotFound); },
            Some(record) => record.clone(),
        };
        match found.submit_result(caller, result) {
            Err(e) => Err(e),
            Ok(updated) => {
                self.put(challenge_id, updated);
                proof {
                    use_type_invariant(&*self);
                }
                Ok(ResultsSubmitted { challenge_id, submitter: caller, result })
            },
        }
    }

    /// Whether the payout for `challenge_id`, if one is owed, can be written
    /// as a [`Balance`].
    pub fn payout_fits(&self, challenge_id: u32) -> (fits: bool)
        ensures
            fits == self@.payout_fits(challenge_id),
    {
        match self.get(challenge_id) {
            None => true,
            Some(record) => record.payout_fits(),
        }
    }

    /// Names the transfer that adjudication of `challenge_id` calls for:
    /// twice the stake to the party with the strictly higher score, or none
    /// on equal scores.
    ///
    /// Fails with `NotFound` where no such wager is registered, and with
    /// `ResultsIncomplete` where a score is missing.
    pub fn payout_due(&self, challenge_id: u32) -> (r: Result<Option<Transfer>, Error>)
        requires
            self@.payout_fits(challenge_id),
        ensures
            r == self@.payout_due(challenge_id),
            r matches Ok(Some(payout)) ==> payout.amount == 2 * self@.escrow(challenge_id),
    {
        match self.get(challenge_id) {
            None => Err(Error::NotFound),
            Some(record) => record.settlement(),
        }
    }

    /// Adjudicates the wager `challenge_id`. `transferred` says whether the
    /// ledger made the transfer that [`Self::payout_due`] names; where none
    /// is due it is not looked at.
    ///
    /// Fails with `NotFound` and `ResultsIncomplete` as [`Self::payout_due`]
    /// does, and with `TransferFailed` where a payout is due and the ledger
    /// did not make it. The registry stays as it is in every case, so a wager
    /// can be adjudicated again.
    pub fn determine_winner(&self, challenge_id: u32, transferred: bool) -> (r: Result<
        Option<WinnerDeclared>,
        Error,
    >)
        requires
            self@.payout_fits(challenge_id),
        ensures
            r == self@.determine(challenge_id, transferred),
            r matches Ok(Some(declared)) ==> declared.amount_won == 2 * self@.escrow(challenge_id),
    {
        match self.payout_due(challenge_id) {
            Err(e) => Err(e),
            Ok(None) => Ok(None),
            Ok(Some(payout)) => {
                if transferred {
                    Ok(
                        Some(
                            WinnerDeclared {
                                challenge_id,
                                winner: payout.to,
                                amount_won: payout.amount,
                            },
                        ),
                    )
                } else {
                    Err(Error::TransferFailed)
                }
            },
        }
    }

    /// Names the transfer that cancellation of `challenge_id` by `caller`
    /// calls for: the whole stake back to the creator.
    ///
    /// Fails with `NotFound` where no such wager is registered, with
    /// `Unauthorized` where `caller` is not its creator, and with
    /// `AlreadyAccepted` where it has an acceptor.
    pub fn refund_due(&self, challenge_id: u32, caller: AccountId) -> (r: Result<Transfer, Error>)
        ensures
            r == self@.refund_due(challenge_id, caller),
            r matches Ok(refund) ==> refund.to == caller && refund.amount == self@.escrow(
                challenge_id,
            ),
    {
        match self.get(challenge_id) {
            None => Err(Error::NotFound),
            Some(record) => record.refund(caller),
        }
    }

    /// Cancels the wager `challenge_id` for `caller`. `refunded` says whether
    /// the ledger made the transfer that [`Self::refund_due`] names.
    ///
    /// Fails as [`Self::refund_due`] does, and with `RefundFailed` where the
    /// ledger did not return the stake. On success the record is gone for
    /// good: its identifier is never handed out again.
    pub fn cancel_challenge(&mut self, challenge_id: u32, caller: AccountId, refunded: bool) -> (r:
        Result<ChallengeCanceled, Error>)
        ensures
            final(self)@.wf(),
            final(self)@ == step(old(self)@, Call::Cancel { challenge_id, caller, refunded }),
            match old(self)@.cancel(challenge_id, caller, refunded) {
                Ok(next) => final(self)@ == next && r == Ok::<ChallengeCanceled, Error>(
                    ChallengeCanceled { challenge_id, challenger: caller },
                ),
                Err(e) => final(self)@ == old(self)@ && r == Err::<ChallengeCanceled, Error>(e),
            },
    {
        proof {
            use_type_invariant(&*self);
        }
        match self.refund_due(challenge_id, caller) {
            Err(e) => Err(e),
            Ok(_) => {
                if !refunded {
                    return Err(Error::RefundFailed);
                }
                self.remove(challenge_id);
                proof {
                    use_type_invariant(&*self);
                }
                Ok(ChallengeCanceled { challenge_id, challenger: caller })
            },
        }
    }

    /// Stores `record` under `challenge_id`, in place of what was there.
    fn put(&mut self, challenge_id: u32, record: Challenge)
        requires
            old(self)@.allocated(challenge_id),
        ensures
            final(self)@ == old(self)@.put(challenge_id, record@),
    {
        proof {
            use_type_invariant(&*self);
            use_type_invariant(&record);
        }
        let mut challenges = BTreeMap::new();
        core::mem::swap(&mut self.challenges, &mut challenges);
        assert(self@.challenges =~= Map::empty());
        challenges.insert(challenge_id, record);
        assert(challenges@.map_values(|record: Challenge| record@) =~= old(self)@.challenges.insert(
            challenge_id,
            record@,
        ));
        self.challenges = challenges;
    }

    /// Takes the record under `challenge_id` out of the registry.
    fn remove(&mut self, challenge_id: u32)
        ensures
            final(self)@ == (ContractView {
                challenges: old(self)@.challenges.remove(challenge_id),
                ..old(self)@
            }),
    {
        proof {
            use_type_invariant(&*self);
        }
        let mut challenges = BTreeMap::new();
        core::mem::swap(&mut self.challenges, &mut challenges);
        assert(self@.challenges =~= Map::empty());
        challenges.remove(&challenge_id);
        assert(challenges@.map_values(|record: Challenge| record@) =~= old(self)@.challenges.remove(
            challenge_id,
        ));
        self.challenges = challenges;
    }
}

} // verus!
