use geo_escrow::config::{Config, LOCK_DURATION_SECONDS, REWARD_AMOUNT};
use geo_escrow::errors::ProtocolError;
use geo_escrow::system::System;

fn fresh_system() -> System {
    System::initialize(Config::standard())
}

fn submit_ok(sys: &mut System, id: u64, balance: u64, deposit: u64, now: i64) -> u64 {
    sys.submit_data(
        id,
        "hash".to_string(),
        "51.5".to_string(),
        "-0.1".to_string(),
        42,
        deposit,
        balance,
        now,
    )
    .expect("submission should succeed")
}

#[test]
fn submit_creates_record_and_debits_deposit() {
    let mut sys = fresh_system();
    let rest = submit_ok(&mut sys, 7, 1000, 100, 50);
    assert_eq!(rest, 900);
    assert_eq!(sys.record_count(), 1);
    let rec = sys.get_record(7).expect("record should be live");
    assert_eq!(rec.submitter, 7);
    assert_eq!(rec.content_hash, "hash");
    assert_eq!(rec.latitude, "51.5");
    assert_eq!(rec.longitude, "-0.1");
    assert_eq!(rec.price, 42);
    assert_eq!(rec.deposit_amount, 100);
    assert_eq!(rec.created_at, 50);
    assert_eq!(rec.approve_votes, 0);
    assert_eq!(rec.reject_votes, 0);
}

#[test]
fn submit_rejects_empty_fields() {
    let mut sys = fresh_system();
    let r = sys.submit_data(7, "".to_string(), "1".to_string(), "2".to_string(), 0, 10, 100, 0);
    assert_eq!(r, Err(ProtocolError::InvalidArgument));
    let r = sys.submit_data(7, "h".to_string(), "".to_string(), "2".to_string(), 0, 10, 100, 0);
    assert_eq!(r, Err(ProtocolError::InvalidArgument));
    let r = sys.submit_data(7, "h".to_string(), "1".to_string(), "".to_string(), 0, 10, 100, 0);
    assert_eq!(r, Err(ProtocolError::InvalidArgument));
    assert_eq!(sys.record_count(), 0);
}

#[test]
fn second_submission_is_duplicate() {
    let mut sys = fresh_system();
    submit_ok(&mut sys, 7, 1000, 100, 50);
    let r = sys.submit_data(
        7,
        "other".to_string(),
        "0".to_string(),
        "0".to_string(),
        1,
        5,
        900,
        60,
    );
    assert_eq!(r, Err(ProtocolError::DuplicateRecord));
    assert_eq!(sys.record_count(), 1);
}

#[test]
fn independent_submitters_coexist() {
    let mut sys = fresh_system();
    submit_ok(&mut sys, 7, 1000, 100, 50);
    submit_ok(&mut sys, 8, 500, 200, 51);
    assert_eq!(sys.record_count(), 2);
    assert!(sys.contains_record(7));
    assert!(sys.contains_record(8));
}

#[test]
fn insufficient_balance_is_transfer_failure() {
    let mut sys = fresh_system();
    let r = sys.submit_data(7, "h".to_string(), "1".to_string(), "2".to_string(), 0, 100, 99, 0);
    assert_eq!(r, Err(ProtocolError::TransferFailure));
    assert_eq!(sys.record_count(), 0);
}

#[test]
fn vote_requires_credential() {
    let mut sys = fresh_system();
    submit_ok(&mut sys, 7, 1000, 100, 50);
    let r = sys.vote(7, 0, true);
    assert_eq!(r, Err(ProtocolError::Unauthorized));
    let rec = sys.get_record(7).unwrap();
    assert_eq!((rec.approve_votes, rec.reject_votes), (0, 0));
}

#[test]
fn vote_on_unknown_record_not_found() {
    let mut sys = fresh_system();
    let r = sys.vote(7, 1, true);
    assert_eq!(r, Err(ProtocolError::RecordNotFound));
}

#[test]
fn votes_accumulate() {
    let mut sys = fresh_system();
    submit_ok(&mut sys, 7, 1000, 100, 50);
    assert_eq!(sys.vote(7, 5, true), Ok((1, 0)));
    assert_eq!(sys.vote(7, 1, true), Ok((2, 0)));
    assert_eq!(sys.vote(7, 9, false), Ok((2, 1)));
    let rec = sys.get_record(7).unwrap();
    assert_eq!((rec.approve_votes, rec.reject_votes), (2, 1));
}

#[test]
fn withdraw_time_lock_boundary() {
    let mut sys = fresh_system();
    submit_ok(&mut sys, 7, 1000, 100, 100);
    let r = sys.withdraw(7, 7, 100 + LOCK_DURATION_SECONDS - 1, 900, 0);
    assert_eq!(r, Err(ProtocolError::TooEarly));
    assert_eq!(sys.record_count(), 1);
    let r = sys.withdraw(7, 7, 100 + LOCK_DURATION_SECONDS, 900, 0);
    assert!(r.is_ok());
    assert_eq!(sys.record_count(), 0);
}

#[test]
fn tie_vote_releases() {
    let mut sys = fresh_system();
    submit_ok(&mut sys, 7, 1000, 100, 0);
    for _ in 0..3 {
        sys.vote(7, 1, true).unwrap();
        sys.vote(7, 1, false).unwrap();
    }
    let r = sys.withdraw(7, 7, 1000, 900, 0).expect("tie should release");
    assert_eq!((r.approve_votes, r.reject_votes), (3, 3));
}

#[test]
fn reject_majority_blocks_release() {
    let mut sys = fresh_system();
    submit_ok(&mut sys, 7, 1000, 100, 0);
    for _ in 0..2 {
        sys.vote(7, 1, true).unwrap();
    }
    for _ in 0..3 {
        sys.vote(7, 1, false).unwrap();
    }
    let r = sys.withdraw(7, 7, 1000, 900, 0);
    assert_eq!(r, Err(ProtocolError::VoteRejected));
    assert_eq!(sys.record_count(), 1);
}

#[test]
fn vote_still_possible_after_maturity() {
    let mut sys = fresh_system();
    submit_ok(&mut sys, 7, 1000, 100, 0);
    assert_eq!(sys.vote(7, 1, false), Ok((0, 1)));
    let r = sys.withdraw(7, 7, 1000, 900, 0);
    assert_eq!(r, Err(ProtocolError::VoteRejected));
    assert_eq!(sys.vote(7, 1, true), Ok((1, 1)));
    assert!(sys.withdraw(7, 7, 1000, 900, 0).is_ok());
}

#[test]
fn only_submitter_may_withdraw() {
    let mut sys = fresh_system();
    submit_ok(&mut sys, 7, 1000, 100, 0);
    sys.vote(7, 1, true).unwrap();
    let r = sys.withdraw(8, 7, 1000, 900, 0);
    assert_eq!(r, Err(ProtocolError::Unauthorized));
    assert_eq!(sys.record_count(), 1);
    assert!(sys.withdraw(7, 7, 1000, 900, 0).is_ok());
}

#[test]
fn withdraw_on_unknown_record_not_found() {
    let mut sys = fresh_system();
    let r = sys.withdraw(7, 7, 1000, 900, 0);
    assert_eq!(r, Err(ProtocolError::RecordNotFound));
}

#[test]
fn refund_overflow_is_transfer_failure() {
    let mut sys = fresh_system();
    submit_ok(&mut sys, 7, 1000, 100, 0);
    let r = sys.withdraw(7, 7, 1000, u64::MAX, 0);
    assert_eq!(r, Err(ProtocolError::TransferFailure));
    assert_eq!(sys.record_count(), 1);
}

#[test]
fn withdrawal_is_terminal() {
    let mut sys = fresh_system();
    submit_ok(&mut sys, 7, 1000, 100, 0);
    sys.withdraw(7, 7, 1000, 900, 0).expect("first withdrawal succeeds");
    assert_eq!(sys.vote(7, 1, true), Err(ProtocolError::RecordNotFound));
    assert_eq!(sys.withdraw(7, 7, 1001, 1000, 0), Err(ProtocolError::RecordNotFound));
    let rest = submit_ok(&mut sys, 7, 1000, 250, 2000);
    assert_eq!(rest, 750);
    let rec = sys.get_record(7).unwrap();
    assert_eq!((rec.approve_votes, rec.reject_votes), (0, 0));
    assert_eq!(rec.deposit_amount, 250);
    assert_eq!(rec.created_at, 2000);
}

#[test]
fn reward_minted_exactly_once() {
    let mut sys = fresh_system();
    submit_ok(&mut sys, 7, 1000, 100, 0);
    let receipt = sys.withdraw(7, 7, 1000, 900, 30).unwrap();
    assert_eq!(receipt.reward_minted, REWARD_AMOUNT);
    assert_eq!(receipt.reward_minted, 10_000_000);
    assert_eq!(receipt.credential_balance_after, 30 + REWARD_AMOUNT);
    let again = sys.withdraw(7, 7, 1001, receipt.submitter_balance_after, 30 + REWARD_AMOUNT);
    assert_eq!(again, Err(ProtocolError::RecordNotFound));
}

#[test]
fn custody_is_conserved_over_a_round_trip() {
    let mut sys = fresh_system();
    let balance: u64 = 123_456;
    let deposit: u64 = 9_999;
    let after_submit = submit_ok(&mut sys, 7, balance, deposit, 0);
    assert_eq!(after_submit, balance - deposit);
    assert_eq!(sys.get_record(7).unwrap().deposit_amount, deposit);
    let receipt = sys.withdraw(7, 7, 1000, after_submit, 0).unwrap();
    assert_eq!(receipt.refunded, deposit);
    assert_eq!(receipt.submitter_balance_after, balance);
}

#[test]
fn config_rejects_negative_lock_duration() {
    assert_eq!(Config::new(-1, 5), None);
    let cfg = Config::new(0, 5).unwrap();
    assert_eq!(cfg.lock_duration, 0);
    assert_eq!(cfg.reward_amount, 5);
}

#[test]
fn standard_config_uses_observed_constants() {
    let cfg = Config::standard();
    assert_eq!(cfg.lock_duration, 10);
    assert_eq!(cfg.reward_amount, 10_000_000);
    let sys = System::initialize(cfg);
    assert_eq!(sys.config(), cfg);
    assert_eq!(sys.record_count(), 0);
}
