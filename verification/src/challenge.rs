//! A single wager and the rules that move it through its life.

use vstd::prelude::*;
use crate::account::AccountId;
use crate::error::Error;
use crate::ledger::{Balance, Timestamp, Transfer};

verus! {

/// Where a wager stands. The status is derived from the record, not stored.
#[derive(Clone, Copy, Debug, PartialEq, Eq, Structural)]
pub enum Status {
    /// Nobody has accepted yet; the creator may still cancel.
    Open,
    /// A second party has accepted; at least one score is missing.
    Accepted,
    /// Both scores are in; the wager can be adjudicated.
    Resolved,
    /// The creator withdrew the wager before anyone accepted it.
    Canceled,
}

/// The mathematical content of a [`Challenge`].
pub struct ChallengeView {
    pub creator: AccountId,
    pub acceptor: Option<AccountId>,
    pub task_type: Seq<char>,
    pub wager: Balance,
    pub start_time: Option<Timestamp>,
    pub creator_result: Option<u32>,
    pub acceptor_result: Option<u32>,
}

impl ChallengeView {
    /// The record of a wager that `creator` has just created.
    pub open spec fn open(creator: AccountId, wager: Balance, task_type: Seq<char>) -> Self {
        ChallengeView {
            creator,
            acceptor: None,
            task_type,
            wager,
            start_time: None,
            creator_result: None,
            acceptor_result: None,
        }
    }

    /// What holds of every record: the start time is there exactly when the
    /// acceptor is, and only an acceptor can have reported the acceptor's
    /// score.
    pub open spec fn wf(self) -> bool {
        &&& self.acceptor is Some <==> self.start_time is Some
        &&& self.acceptor_result is Some ==> self.acceptor is Some
    }

    pub open spec fn is_creator(self, who: AccountId) -> bool {
        who == self.creator
    }

    pub open spec fn is_acceptor(self, who: AccountId) -> bool {
        self.acceptor == Some(who)
    }

    /// Whether `who` is one of the two parties of the wager.
    pub open spec fn is_party(self, who: AccountId) -> bool {
        self.is_creator(who) || self.is_acceptor(who)
    }

    /// The status of a registered wager; such a wager is never `Canceled`.
    pub open spec fn status(self) -> Status {
        if self.acceptor is None {
            Status::Open
        } else if self.creator_result is Some && self.acceptor_result is Some {
            Status::Resolved
        } else {
            Status::Accepted
        }
    }

    /// Acceptance by `caller` at time `now`: refused once an acceptor is set.
    pub open spec fn accept(self, caller: AccountId, now: Timestamp) -> Result<Self, Error> {
        if self.acceptor is Some {
            Err(Error::AlreadyAccepted)
        } else {
            Ok(ChallengeView { acceptor: Some(caller), start_time: Some(now), ..self })
        }
    }

    /// A score reported by `caller`. The creator's report overwrites the
    /// creator's score, the acceptor's report the acceptor's; a creator who
    /// also accepted reports as creator. Anyone else is refused.
    pub open spec fn submit_result(self, caller: AccountId, result: u32) -> Result<Self, Error> {
        if self.is_creator(caller) {
            Ok(ChallengeView { creator_result: Some(result), ..self })
        } else if self.is_acceptor(caller) {
            Ok(ChallengeView { acceptor_result: Some(result), ..self })
        } else {
            Err(Error::Unauthorized)
        }
    }

    /// The party with the strictly higher score, once both have reported.
    /// Equal scores have no winner.
    pub open spec fn winner(self) -> Result<Option<AccountId>, Error> {
        if self.creator_result is None || self.acceptor_result is None {
            Err(Error::ResultsIncomplete)
        } else if self.creator_result->0 > self.acceptor_result->0 {
            Ok(Some(self.creator))
        } else if self.creator_result->0 < self.acceptor_result->0 {
            Ok(self.acceptor)
        } else {
            Ok(None)
        }
    }

    /// What a winner is paid: twice the stake.
    pub open spec fn payout(self) -> int {
        2 * self.wager
    }

    /// Whether the payout, if one is owed, can be written as a [`Balance`].
    pub open spec fn payout_fits(self) -> bool {
        self.winner() matches Ok(Some(_)) ==> self.payout() <= Balance::MAX
    }

    /// The transfer that adjudication calls for: the payout to the winner,
    /// or none on equal scores.
    pub open spec fn settlement(self) -> Result<Option<Transfer>, Error> {
        match self.winner() {
            Err(e) => Err(e),
            Ok(None) => Ok(None),
            Ok(Some(winner)) => Ok(Some(Transfer { to: winner, amount: self.payout() as Balance })),
        }
    }

    /// The transfer that cancellation by `caller` calls for: the whole stake
    /// back to the creator. Only the creator may cancel, and only while the
    /// wager is unaccepted.
    pub open spec fn refund(self, caller: AccountId) -> Result<Transfer, Error> {
        if !self.is_creator(caller) {
            Err(Error::Unauthorized)
        } else if self.acceptor is Some {
            Err(Error::AlreadyAccepted)
        } else {
            Ok(Transfer { to: self.creator, amount: self.wager })
        }
    }
}

/// The record of one wager.
#[derive(Debug)]
pub struct Challenge {
    creator: AccountId,
    acceptor: Option<AccountId>,
    task_type: String,
    wager: Balance,
    start_time: Option<Timestamp>,
    creator_result: Option<u32>,
    acceptor_result: Option<u32>,
}

impl View for Challenge {
    type V = ChallengeView;

    closed spec fn view(&self) -> ChallengeView {
        ChallengeView {
            creator: self.creator,
            acceptor: self.acceptor,
            task_type: self.task_type@,
            wager: self.wager,
            start_time: self.start_time,
            creator_result: self.creator_result,
            acceptor_result: self.acceptor_result,
        }
    }
}

/// The outcome of a rule that yields a new record, over views.
pub open spec fn outcome_view(r: Result<Challenge, Error>) -> Result<ChallengeView, Error> {
    match r {
        Ok(c) => Ok(c@),
        Err(e) => Err(e),
    }
}

impl Clone for Challenge {
    fn clone(&self) -> (copy: Challenge)
        ensures
            copy@ == self@,
    {
        proof {
            use_type_invariant(self);
        }
        Challenge {
            creator: self.creator,
            acceptor: self.acceptor,
            task_type: self.task_type.clone(),
            wager: self.wager,
            start_time: self.start_time,
            creator_result: self.creator_result,
            acceptor_result: self.acceptor_result,
        }
    }
}

impl Challenge {
    #[verifier::type_invariant]
    pub(crate) open spec fn inv(self) -> bool {
        self@.wf()
    }

    /// Opens a wager of `wager` by `creator` on the task `task_type`.
    pub fn new(creator: AccountId, wager: Balance, task_type: String) -> (c: Challenge)
        ensures
            c@ == ChallengeView::open(creator, wager, task_type@),
    {
        Challenge {
            creator,
            acceptor: None,
            task_type,
            wager,
            start_time: None,
            creator_result: None,
            acceptor_result: None,
        }
    }

    /// Rebuilds a record from its fields, as a store hands them back. There
    /// is a record with these fields exactly when they are well formed.
    pub fn restore(
        creator: AccountId,
        acceptor: Option<AccountId>,
        task_type: String,
        wager: Balance,
        start_time: Option<Timestamp>,
        creator_result: Option<u32>,
        acceptor_result: Option<u32>,
    ) -> (r: Option<Challenge>)
        ensures
            ({
                let fields = ChallengeView {
                    creator,
                    acceptor,
                    task_type: task_type@,
                    wager,
                    start_time,
                    creator_result,
                    acceptor_result,
                };
                match r {
                    Some(record) => fields.wf() && record@ == fields,
                    None => !fields.wf(),
                }
            }),
    {
        if acceptor.is_some() != start_time.is_some() {
            return None;
        }
        if acceptor_result.is_some() && acceptor.is_none() {
            return None;
        }
        Some(
            Challenge {
                creator,
                acceptor,
                task_type,
                wager,
                start_time,
                creator_result,
                acceptor_result,
            },
        )
    }

    /// The account that created the wager.
    pub fn creator(&self) -> (creator: AccountId)
        ensures
            creator == self@.creator,
    {
        self.creator
    }

    /// The account that accepted the wager, once one has.
    pub fn acceptor(&self) -> (acceptor: Option<AccountId>)
        ensures
            acceptor == self@.acceptor,
    {
        self.acceptor
    }

    /// The task the wager is about.
    pub fn task_type(&self) -> (task_type: &str)
        ensures
            task_type@ == self@.task_type,
    {
        self.task_type.as_str()
    }

    /// The stake that the creator attached.
    pub fn wager(&self) -> (wager: Balance)
        ensures
            wager == self@.wager,
    {
        self.wager
    }

    /// When the wager was accepted, once it has been.
    pub fn start_time(&self) -> (start_time: Option<Timestamp>)
        ensures
            start_time == self@.start_time,
    {
        self.start_time
    }

    /// The score that the creator reported last, if any.
    pub fn creator_result(&self) -> (result: Option<u32>)
        ensures
            result == self@.creator_result,
    {
        self.creator_result
    }

    /// The score that the acceptor reported last, if any.
    pub fn acceptor_result(&self) -> (result: Option<u32>)
        ensures
            result == self@.acceptor_result,
    {
        self.acceptor_result
    }

    /// Whether `who` created the wager.
    pub fn is_creator(&self, who: AccountId) -> (yes: bool)
        ensures
            yes == self@.is_creator(who),
    {
        who == self.creator
    }

    /// Whether `who` accepted the wager.
    pub fn is_acceptor(&self, who: AccountId) -> (yes: bool)
        ensures
            yes == self@.is_acceptor(who),
    {
        self.acceptor == Some(who)
    }

    /// Whether `who` is one of the two parties of the wager.
    pub fn is_party(&self, who: AccountId) -> (yes: bool)
        ensures
            yes == self@.is_party(who),
    {
        self.is_creator(who) || self.is_acceptor(who)
    }

    /// Where the wager stands. A record is always well formed.
    pub fn status(&self) -> (status: Status)
        ensures
            status == self@.status(),
            self@.wf(),
    {
        proof {
            use_type_invariant(self);
        }
        if self.acceptor.is_none() {
            Status::Open
        } else if self.creator_result.is_some() && self.acceptor_result.is_some() {
            Status::Resolved
        } else {
            Status::Accepted
        }
    }

    /// Records the acceptance of the wager by `caller` at time `now`.
    pub fn accept(self, caller: AccountId, now: Timestamp) -> (r: Result<Challenge, Error>)
        ensures
            outcome_view(r) == self@.accept(caller, now),
    {
        proof {
            use_type_invariant(&self);
        }
        if self.acceptor.is_some() {
            return Err(Error::AlreadyAccepted);
        }
        Ok(
            Challenge {
                creator: self.creator,
                acceptor: Some(caller),
                task_type: self.task_type,
                wager: self.wager,
                start_time: Some(now),
                creator_result: self.creator_result,
                acceptor_result: self.acceptor_result,
            },
        )
    }

    /// Records the score `result` reported by `caller`.
    pub fn submit_result(self, caller: AccountId, result: u32) -> (r: Result<Challenge, Error>)
        ensures
            outcome_view(r) == self@.submit_result(caller, result),
    {
        proof {
            use_type_invariant(&self);
        }
        if caller == self.creator {
            Ok(
                Challenge {
                    creator: self.creator,
                    acceptor: self.acceptor,
                    task_type: self.task_type,
                    wager: self.wager,
                    start_time: self.start_time,
                    creator_result: Some(result),
                    acceptor_result: self.acceptor_result,
                },
            )
        } else if Some(caller) == self.acceptor {
            Ok(
                Challenge {
                    creator: self.creator,
                    acceptor: self.acceptor,
                    task_type: self.task_type,
                    wager: self.wager,
                    start_time: self.start_time,
                    creator_result: self.creator_result,
                    acceptor_result: Some(result),
                },
            )
        } else {
            Err(Error::Unauthorized)
        }
    }

    /// Compares the two scores.
    pub fn winner(&self) -> (r: Result<Option<AccountId>, Error>)
        ensures
            r == self@.winner(),
    {
        match (self.creator_result, self.acceptor_result) {
            (Some(creator_result), Some(acceptor_result)) => {
                if creator_result > acceptor_result {
                    Ok(Some(self.creator))
                } else if creator_result < acceptor_result {
                    Ok(self.acceptor)
                } else {
                    Ok(None)
                }
            },
            _ => Err(Error::ResultsIncomplete),
        }
    }

    /// Whether the payout, if one is owed, can be written as a [`Balance`].
    pub fn payout_fits(&self) -> (fits: bool)
        ensures
            fits == self@.payout_fits(),
    {
        match self.winner() {
            Ok(Some(_)) => self.wager <= Balance::MAX / 2,
            _ => true,
        }
    }

    /// Names the transfer that adjudication calls for.
    pub fn settlement(&self) -> (r: Result<Option<Transfer>, Error>)
        requires
            self@.payout_fits(),
        ensures
            r == self@.settlement(),
            r matches Ok(Some(transfer)) ==> transfer.amount == 2 * self@.wager,
    {
        match self.winner() {
            Err(e) => Err(e),
            Ok(None) => Ok(None),
            Ok(Some(winner)) => Ok(Some(Transfer { to: winner, amount: self.wager * 2 })),
        }
    }

    /// Names the transfer that cancellation by `caller` calls for.
    pub fn refund(&self, caller: AccountId) -> (r: Result<Transfer, Error>)
        ensures
            r == self@.refund(caller),
    {
        if self.creator != caller {
            return Err(Error::Unauthorized);
        }
        if self.acceptor.is_some() {
            return Err(Error::AlreadyAccepted);
        }
        Ok(Transfer { to: self.creator, amount: self.wager })
    }
}

} // verus!
