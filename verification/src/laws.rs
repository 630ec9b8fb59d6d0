//! What holds of every run of the registry.
//!
//! A run is a sequence of calls, each applied to the registry that the calls
//! before it left behind. The operations of
//! [`FitnessChallenge`](crate::contract::FitnessChallenge) are proved to act
//! on its view as [`step`] says, so what is shown here of runs holds of every
//! sequence of operations on a registry.

use vstd::prelude::*;
use crate::account::AccountId;
use crate::challenge::{ChallengeView, Status};
use crate::model::{failure, step, target, Call, ContractView};
use crate::error::Error;
use crate::ledger::{Balance, Timestamp, Transfer};

verus! {

/// The registry after all of `calls`, in order, starting from `s`.
pub open spec fn run(s: ContractView, calls: Seq<Call>) -> ContractView
    decreases calls.len(),
{
    if calls.len() == 0 {
        s
    } else {
        step(run(s, calls.drop_last()), calls.last())
    }
}

/// How many of `calls` are creations.
pub open spec fn creations(calls: Seq<Call>) -> nat
    decreases calls.len(),
{
    if calls.len() == 0 {
        0
    } else if calls.last() is Create {
        creations(calls.drop_last()) + 1
    } else {
        creations(calls.drop_last())
    }
}

/// The identifiers that the creations among `calls` hand out, in order, when
/// the run starts from `s`.
pub open spec fn created_ids(s: ContractView, calls: Seq<Call>) -> Seq<int>
    decreases calls.len(),
{
    if calls.len() == 0 {
        Seq::empty()
    } else if calls.last() is Create {
        created_ids(s, calls.drop_last()).push(run(s, calls.drop_last()).next_id())
    } else {
        created_ids(s, calls.drop_last())
    }
}

/// Whether the identifiers suffice for the creations among `calls`.
pub open spec fn ids_suffice(s: ContractView, calls: Seq<Call>) -> bool {
    s.challenge_count + creations(calls) <= u32::MAX
}

/// A call changes nothing but what it is about: the counter moves only on
/// creation, and then by one; no record but the one addressed is touched; a
/// record appears only under the fresh identifier.
pub proof fn lemma_step_frame(s: ContractView, call: Call, id: u32)
    requires
        call is Create ==> s.challenge_count < u32::MAX,
    ensures
        step(s, call).challenge_count == s.challenge_count + (if call is Create {
            1int
        } else {
            0int
        }),
        step(s, call).challenges.contains_key(id) ==> s.challenges.contains_key(id) || (call is Create
            && id == s.next_id()),
        s.challenges.contains_key(id) && !step(s, call).challenges.contains_key(id) ==> {
            &&& call matches Call::Cancel { challenge_id, caller, refunded }
            &&& challenge_id == id
            &&& refunded
            &&& s.challenges[id].status() == Status::Open
            &&& s.challenges[id].is_creator(caller)
        },
        id != target(s, call) ==> step(s, call).lookup(id) == s.lookup(id),
        failure(s, call) is Some ==> step(s, call) == s,
{
}

/// A call sees and changes only the counter and the record it is about: run
/// on that part of the registry alone, it fails or succeeds as on the whole,
/// names the same transfer, announces the same, and leaves that part as it
/// would within the whole. So a host that stores the records one by one need
/// load only the one that a call names.
pub proof fn lemma_window_suffices(s: ContractView, call: Call)
    requires
        call is Create ==> s.challenge_count < u32::MAX,
    ensures
        ({
            let id = target(s, call);
            let part = s.window(id);
            &&& target(part, call) == id
            &&& failure(part, call) == failure(s, call)
            &&& step(part, call) == step(s, call).window(id)
            &&& part.payout_fits(id) == s.payout_fits(id)
            &&& part.payout_due(id) == s.payout_due(id)
            &&& forall|transferred: bool| #[trigger]
                part.determine(id, transferred) == s.determine(id, transferred)
            &&& forall|caller: AccountId| #[trigger]
                part.refund_due(id, caller) == s.refund_due(id, caller)
            &&& part.status(id) == s.status(id)
        }),
{
    let id = target(s, call);
    let part = s.window(id);
    assert(step(part, call).challenges =~= step(s, call).window(id).challenges);
}

/// Every call keeps the registry well formed.
pub proof fn lemma_step_preserves_wf(s: ContractView, call: Call)
    requires
        s.wf(),
        call is Create ==> s.challenge_count < u32::MAX,
    ensures
        step(s, call).wf(),
{
}

/// A run moves the counter by the number of its creations, and keeps the
/// registry well formed.
pub proof fn lemma_run_counts(s: ContractView, calls: Seq<Call>)
    requires
        s.wf(),
        ids_suffice(s, calls),
    ensures
        run(s, calls).wf(),
        run(s, calls).challenge_count == s.challenge_count + creations(calls),
    decreases calls.len(),
{
    if calls.len() > 0 {
        lemma_run_counts(s, calls.drop_last());
        lemma_step_frame(run(s, calls.drop_last()), calls.last(), 0);
        lemma_step_preserves_wf(run(s, calls.drop_last()), calls.last());
    }
}

/// Identifiers are handed out in order and without gaps: in a run from `s`,
/// the creations return the identifiers that follow the counter of `s`, one
/// after the other, whatever else is called in between.
pub proof fn lemma_ids_follow_the_counter(s: ContractView, calls: Seq<Call>)
    requires
        s.wf(),
        ids_suffice(s, calls),
    ensures
        created_ids(s, calls).len() == creations(calls),
        forall|i: int|
            0 <= i < creations(calls) ==> #[trigger] created_ids(s, calls)[i] == s.challenge_count
                + 1 + i,
    decreases calls.len(),
{
    if calls.len() > 0 {
        lemma_ids_follow_the_counter(s, calls.drop_last());
        lemma_run_counts(s, calls.drop_last());
    }
}

/// From an empty registry, the creations of a run return exactly the
/// identifiers 1, 2, ... in order, up to their number, and that number is
/// where the counter then stands.
pub proof fn lemma_ids_are_sequential(calls: Seq<Call>)
    requires
        creations(calls) <= u32::MAX,
    ensures
        created_ids(ContractView::init(), calls) =~= Seq::new(creations(calls), |i: int| i + 1),
        run(ContractView::init(), calls).challenge_count == creations(calls),
{
    lemma_ids_follow_the_counter(ContractView::init(), calls);
    lemma_run_counts(ContractView::init(), calls);
}

/// A creation never lands on a registered record: the identifier it hands
/// out is unused.
pub proof fn lemma_created_id_is_fresh(s: ContractView)
    requires
        s.wf(),
        s.challenge_count < u32::MAX,
    ensures
        !s.challenges.contains_key(s.next_id() as u32),
        !s.allocated(s.next_id() as u32),
{
}

/// An identifier is never reused: once it was handed out and its record is
/// gone, no run brings a record back under it.
pub proof fn lemma_canceled_id_stays_out(s: ContractView, calls: Seq<Call>, id: u32)
    requires
        s.wf(),
        ids_suffice(s, calls),
        s.status(id) == Some(Status::Canceled),
    ensures
        run(s, calls).status(id) == Some(Status::Canceled),
    decreases calls.len(),
{
    if calls.len() > 0 {
        let before = run(s, calls.drop_last());
        lemma_canceled_id_stays_out(s, calls.drop_last(), id);
        lemma_run_counts(s, calls.drop_last());
        lemma_step_frame(before, calls.last(), id);
    }
}

/// After a creation with the stake `wager`, the escrow held for the new
/// wager is exactly `wager`.
pub proof fn lemma_escrow_after_create(
    s: ContractView,
    caller: AccountId,
    wager: Balance,
    task_type: Seq<char>,
)
    requires
        s.challenge_count < u32::MAX,
    ensures
        s.create(caller, wager, task_type).escrow(s.next_id() as u32) == wager,
        s.create(caller, wager, task_type).lookup(s.next_id() as u32) == Ok::<ChallengeView, Error>(
            ChallengeView::open(caller, wager, task_type),
        ),
{
}

/// As long as a wager is registered, its creator, its task and its stake are
/// what they were: no run changes them, so the escrow held for it stays
/// what the creator attached.
pub proof fn lemma_stake_is_fixed(s: ContractView, calls: Seq<Call>, id: u32)
    requires
        s.wf(),
        ids_suffice(s, calls),
        s.challenges.contains_key(id),
        run(s, calls).challenges.contains_key(id),
    ensures
        run(s, calls).challenges[id].creator == s.challenges[id].creator,
        run(s, calls).challenges[id].task_type == s.challenges[id].task_type,
        run(s, calls).challenges[id].wager == s.challenges[id].wager,
        run(s, calls).escrow(id) == s.escrow(id),
    decreases calls.len(),
{
    if calls.len() > 0 {
        let before = run(s, calls.drop_last());
        lemma_run_counts(s, calls.drop_last());
        lemma_step_frame(before, calls.last(), id);
        lemma_stake_is_fixed(s, calls.drop_last(), id);
    }
}

/// A wager is accepted once: after an acceptance, every further acceptance
/// of the same wager fails with `AlreadyAccepted`, whoever asks and
/// whenever.
pub proof fn lemma_second_accept_fails(
    s: ContractView,
    id: u32,
    first: AccountId,
    at: Timestamp,
    second: AccountId,
    later: Timestamp,
)
    requires
        s.accept(id, first, at) is Ok,
    ensures
        s.accept(id, first, at)->Ok_0.accept(id, second, later) == Err::<ContractView, Error>(
            Error::AlreadyAccepted,
        ),
        step(s.accept(id, first, at)->Ok_0, Call::Accept { challenge_id: id, caller: second, now: later })
            == s.accept(id, first, at)->Ok_0,
{
}

/// Acceptance is final: an accepted wager stays registered, with the same
/// acceptor and the same start time, through every run. So it can neither
/// be accepted again nor canceled, however many calls lie in between.
pub proof fn lemma_acceptance_is_final(s: ContractView, calls: Seq<Call>, id: u32)
    requires
        s.wf(),
        ids_suffice(s, calls),
        s.challenges.contains_key(id),
        s.challenges[id].acceptor is Some,
    ensures
        run(s, calls).challenges.contains_key(id),
        run(s, calls).challenges[id].acceptor == s.challenges[id].acceptor,
        run(s, calls).challenges[id].start_time == s.challenges[id].start_time,
        forall|caller: AccountId, now: Timestamp| #[trigger]
            run(s, calls).accept(id, caller, now) == Err::<ContractView, Error>(
                Error::AlreadyAccepted,
            ),
        forall|caller: AccountId, refunded: bool| #[trigger]
            run(s, calls).cancel(id, caller, refunded) is Err,
    decreases calls.len(),
{
    if calls.len() > 0 {
        let before = run(s, calls.drop_last());
        lemma_acceptance_is_final(s, calls.drop_last(), id);
        lemma_run_counts(s, calls.drop_last());
        lemma_step_frame(before, calls.last(), id);
    }
}

/// Only the two parties report scores: a report by anyone else fails with
/// `Unauthorized`, and the call leaves the registry, both scores included,
/// as it was.
pub proof fn lemma_outsider_cannot_submit(s: ContractView, id: u32, caller: AccountId, result: u32)
    requires
        s.challenges.contains_key(id),
        !s.challenges[id].is_party(caller),
    ensures
        s.submit(id, caller, result) == Err::<ContractView, Error>(Error::Unauthorized),
        step(s, Call::Submit { challenge_id: id, caller, result }) == s,
{
}

/// A report changes only the reporter's own score: the creator's report
/// leaves the acceptor's score alone, and the acceptor's the creator's.
pub proof fn lemma_submit_sets_own_score(s: ContractView, id: u32, caller: AccountId, result: u32)
    requires
        s.submit(id, caller, result) is Ok,
    ensures
        ({
            let before = s.challenges[id];
            let after = s.submit(id, caller, result)->Ok_0.challenges[id];
            if before.is_creator(caller) {
                after == (ChallengeView { creator_result: Some(result), ..before })
            } else {
                after == (ChallengeView { acceptor_result: Some(result), ..before })
            }
        }),
{
}

/// The strictly higher score wins twice the stake, and equal scores win
/// nothing: with both scores in, the payout goes to the creator where the
/// creator's score is higher, to the acceptor where the acceptor's is, and
/// no transfer is due where they are equal.
pub proof fn lemma_higher_score_wins(record: ChallengeView)
    requires
        record.wf(),
        record.status() == Status::Resolved,
        record.payout_fits(),
    ensures
        record.creator_result->0 > record.acceptor_result->0 ==> record.settlement() == Ok::<
            Option<Transfer>,
            Error,
        >(Some(Transfer { to: record.creator, amount: (2 * record.wager) as Balance })),
        record.creator_result->0 < record.acceptor_result->0 ==> record.settlement() == Ok::<
            Option<Transfer>,
            Error,
        >(Some(Transfer { to: record.acceptor->0, amount: (2 * record.wager) as Balance })),
        record.creator_result->0 == record.acceptor_result->0 ==> record.settlement() == Ok::<
            Option<Transfer>,
            Error,
        >(None),
{
}

/// In a well-formed registry a payout is due exactly when both scores are in
/// and differ, and it always goes to one of the two parties.
pub proof fn lemma_payout_goes_to_a_party(s: ContractView, id: u32)
    requires
        s.wf(),
        s.challenges.contains_key(id),
    ensures
        s.payout_due(id) matches Ok(Some(_)) <==> s.status(id) == Some(Status::Resolved)
            && s.challenges[id].creator_result != s.challenges[id].acceptor_result,
        s.payout_due(id) matches Ok(Some(payout)) ==> s.challenges[id].is_party(payout.to),
{
}

/// A wager can be canceled only while it is open: once it has an acceptor,
/// cancellation fails for every caller, with `AlreadyAccepted` for the
/// creator and `Unauthorized` for anyone else.
pub proof fn lemma_cancel_after_acceptance_fails(
    s: ContractView,
    id: u32,
    caller: AccountId,
    refunded: bool,
)
    requires
        s.challenges.contains_key(id),
        s.challenges[id].acceptor is Some,
    ensures
        s.cancel(id, caller, refunded) == Err::<ContractView, Error>(
            if s.challenges[id].is_creator(caller) {
                Error::AlreadyAccepted
            } else {
                Error::Unauthorized
            },
        ),
{
}

/// Cancellation of an open wager by its creator returns the whole stake and
/// removes the record: the refund named is the stake, to the creator, and
/// once the ledger has made it the wager is `Canceled`.
pub proof fn lemma_cancel_refunds_the_stake(s: ContractView, id: u32, caller: AccountId)
    requires
        s.wf(),
        s.status(id) == Some(Status::Open),
        s.challenges[id].is_creator(caller),
    ensures
        s.refund_due(id, caller) == Ok::<Transfer, Error>(
            Transfer { to: caller, amount: s.challenges[id].wager },
        ),
        s.cancel(id, caller, true) is Ok,
        s.cancel(id, caller, true)->Ok_0.status(id) == Some(Status::Canceled),
        s.cancel(id, caller, true)->Ok_0.escrow(id) == 0,
        s.cancel(id, caller, false) == Err::<ContractView, Error>(Error::RefundFailed),
{
}

} // verus!
