use fitbet::account::AccountId;
use fitbet::challenge::{Challenge, Status};
use fitbet::contract::FitnessChallenge;
use fitbet::error::Error;
use fitbet::events::ChallengeAccepted;
use fitbet::ledger::Transfer;

fn dana() -> AccountId {
    AccountId([0x11; 32])
}

fn eli() -> AccountId {
    AccountId([0x22; 32])
}

fn stored() -> Challenge {
    Challenge::new(dana(), 40, String::from("lunges"))
}

#[test]
fn load_without_a_record_keeps_the_counter() {
    let part = FitnessChallenge::load(7, 3, None).unwrap();
    assert_eq!(part.challenge_count(), 7);
    assert!(part.get(3).is_none());
    assert_eq!(part.status(3), Some(Status::Canceled));
    assert_eq!(part.status(8), None);
    let empty = FitnessChallenge::load(0, 0, None).unwrap();
    assert_eq!(empty.challenge_count(), 0);
    assert_eq!(empty.status(0), None);
}

#[test]
fn load_with_a_record_holds_it_under_its_id() {
    let part = FitnessChallenge::load(7, 3, Some(stored())).unwrap();
    assert_eq!(part.challenge_count(), 7);
    let record = part.get(3).unwrap();
    assert_eq!(record.creator(), dana());
    assert_eq!(record.wager(), 40);
    assert_eq!(record.task_type(), "lunges");
    assert!(part.get(2).is_none());
    assert!(part.get(4).is_none());
    assert!(FitnessChallenge::load(7, 1, Some(stored())).is_some());
    assert!(FitnessChallenge::load(7, 7, Some(stored())).is_some());
}

#[test]
fn load_refuses_a_record_under_an_id_never_handed_out() {
    assert!(FitnessChallenge::load(7, 0, Some(stored())).is_none());
    assert!(FitnessChallenge::load(7, 8, Some(stored())).is_none());
    assert!(FitnessChallenge::load(0, 1, Some(stored())).is_none());
    assert!(FitnessChallenge::load(u32::MAX, u32::MAX, Some(stored())).is_some());
}

#[test]
fn creation_on_a_loaded_counter_continues_the_ids() {
    let mut part = FitnessChallenge::load(41, 0, None).unwrap();
    let (id, created) = part
        .create_challenge(eli(), 9, String::from("rowing"))
        .unwrap();
    assert_eq!(id, 42);
    assert_eq!(created.challenge_id, 42);
    assert_eq!(part.challenge_count(), 42);
    assert_eq!(part.get(42).unwrap().creator(), eli());
}

#[test]
fn a_call_on_the_loaded_part_agrees_with_the_whole() {
    let mut whole = FitnessChallenge::new();
    for _ in 0..3 {
        whole
            .create_challenge(dana(), 40, String::from("lunges"))
            .unwrap();
    }
    let mut part =
        FitnessChallenge::load(whole.challenge_count(), 2, whole.get(2).cloned()).unwrap();

    assert_eq!(
        part.refund_due(2, dana()),
        Ok(Transfer { to: dana(), amount: 40 })
    );
    assert_eq!(part.refund_due(2, dana()), whole.refund_due(2, dana()));
    assert_eq!(part.refund_due(2, eli()), whole.refund_due(2, eli()));

    let on_part = part.accept_challenge(2, eli(), 500);
    let on_whole = whole.accept_challenge(2, eli(), 500);
    assert_eq!(on_part, Ok(ChallengeAccepted { challenge_id: 2, acceptor: eli() }));
    assert_eq!(on_part, on_whole);
    assert_eq!(part.get(2).unwrap().acceptor(), whole.get(2).unwrap().acceptor());
    assert_eq!(part.get(2).unwrap().start_time(), Some(500));

    assert_eq!(part.accept_challenge(2, dana(), 600), Err(Error::AlreadyAccepted));
    assert_eq!(whole.accept_challenge(2, dana(), 600), Err(Error::AlreadyAccepted));
    assert_eq!(part.determine_winner(2, true), whole.determine_winner(2, true));
    assert_eq!(part.challenge_count(), whole.challenge_count());
    assert_eq!(whole.get(1).unwrap().acceptor(), None);
    assert_eq!(whole.get(3).unwrap().acceptor(), None);
}
