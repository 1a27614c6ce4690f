use transaction_driver::committee::Committee;
use transaction_driver::driver::{report_failures, Action, DriveAttempt, Event, ExecutionEffects, ConsensusPosition, Reply};
use transaction_driver::error::{ErrorKind, TransactionDriverError};
use transaction_driver::policy::{Phase, PhaseTimeoutPolicy};
use transaction_driver::selector::RetrySelector;

const TX: [u8; 4] = [7, 7, 7, 7];

fn committee(stakes: &[u64], threshold: u64) -> Committee {
    Committee::new(stakes.to_vec(), threshold).expect("stakes fit")
}

fn policy() -> PhaseTimeoutPolicy {
    PhaseTimeoutPolicy { submit_ms: 2000, consensus_position_ms: 2000, effects_ms: 2000, finality_ms: 2000 }
}

fn effects(digest: u8) -> ExecutionEffects {
    ExecutionEffects { transaction_digest: TX.to_vec(), effects_digest: vec![digest; 4], success: true }
}

/// Runs a fresh attempt through submission, position and effects, up to
/// waiting for finality.
fn to_finality(c: &Committee, sel: &mut RetrySelector, p: &PhaseTimeoutPolicy) -> DriveAttempt {
    let mut a = DriveAttempt::new(c, TX.to_vec(), 100, 0);
    assert!(matches!(a.step(c, p, sel, 0, Event::Tick), Action::Contact(_, Phase::Submitting)));
    a.step(c, p, sel, 10, Event::Reply(0, Reply::SubmitAccepted));
    assert_eq!(a.phase, Phase::AwaitingConsensusPosition);
    a.step(c, p, sel, 20, Event::Reply(0, Reply::PositionAssigned(ConsensusPosition { round: 5, index: 1 })));
    assert_eq!(a.phase, Phase::AwaitingEffects);
    a.step(c, p, sel, 30, Event::Reply(1, Reply::EffectsFound(effects(9))));
    assert_eq!(a.phase, Phase::AwaitingFinality);
    a
}

#[test]
fn quorum_of_two_matching_attestations_succeeds() {
    let c = committee(&[40, 40, 20], 67);
    let mut sel = RetrySelector::new(3);
    let p = policy();
    let mut a = to_finality(&c, &mut sel, &p);
    assert_eq!(a.step(&c, &p, &mut sel, 40, Event::Reply(0, Reply::Attested(vec![9; 4]))), Action::Contact(1, Phase::AwaitingFinality));
    assert_eq!(a.step(&c, &p, &mut sel, 50, Event::Reply(1, Reply::Attested(vec![9; 4]))), Action::Finish);
    match a.outcome {
        Some(Ok(f)) => {
            assert_eq!(f.certificate.stake, 80);
            assert_eq!(f.certificate.signers, vec![true, true, false]);
            assert_eq!(f.certificate.effects_digest, vec![9; 4]);
            assert_eq!(f.effects.transaction_digest, TX.to_vec());
        }
        _ => panic!("expected success"),
    }
}

#[test]
fn conflicting_attestations_fail() {
    let c = committee(&[40, 40, 20], 67);
    let mut sel = RetrySelector::new(3);
    let p = policy();
    let mut a = to_finality(&c, &mut sel, &p);
    a.step(&c, &p, &mut sel, 40, Event::Reply(0, Reply::Attested(vec![9; 4])));
    assert_eq!(a.step(&c, &p, &mut sel, 50, Event::Reply(1, Reply::Attested(vec![8; 4]))), Action::Finish);
    assert_eq!(
        a.outcome.unwrap().err(),
        Some(TransactionDriverError::RpcFailure("1".to_string(), "conflicting effects digest".to_string()))
    );
}

#[test]
fn minority_conflict_still_fails_after_quorum_is_near() {
    let c = committee(&[40, 40, 20], 67);
    let mut sel = RetrySelector::new(3);
    let p = policy();
    let mut a = to_finality(&c, &mut sel, &p);
    a.step(&c, &p, &mut sel, 40, Event::Reply(0, Reply::Attested(vec![9; 4])));
    a.step(&c, &p, &mut sel, 45, Event::Reply(2, Reply::Attested(vec![3; 4])));
    assert!(matches!(a.outcome, Some(Err(TransactionDriverError::RpcFailure(_, _)))));
    assert_eq!(a.step(&c, &p, &mut sel, 50, Event::Reply(1, Reply::Attested(vec![9; 4]))), Action::Finish);
    assert!(matches!(a.outcome, Some(Err(_))));
}

#[test]
fn submission_timeout_after_transport_failures() {
    let c = committee(&[40, 40, 20], 67);
    let mut sel = RetrySelector::new(3);
    let p = policy();
    let mut a = DriveAttempt::new(&c, TX.to_vec(), 100, 0);
    let mut t: u64 = 0;
    while t < 2000 {
        let v = (t / 100 % 3) as usize;
        let r = a.step(&c, &p, &mut sel, t, Event::Reply(v, Reply::TransportFailure("unreachable".to_string())));
        assert_ne!(r, Action::Finish);
        assert_eq!(a.step(&c, &p, &mut sel, t + 50, Event::Tick) == Action::Finish, false);
        t += 100;
    }
    assert_eq!(a.step(&c, &p, &mut sel, 2000, Event::Tick), Action::Finish);
    let e = a.outcome.unwrap().err().unwrap();
    assert_eq!(e, TransactionDriverError::TimeoutSubmittingTransaction);
    assert_ne!(e.kind(), ErrorKind::RpcFailure);
}

#[test]
fn expired_round_reported() {
    let c = committee(&[40, 40, 20], 67);
    let mut sel = RetrySelector::new(3);
    let p = policy();
    let mut a = DriveAttempt::new(&c, TX.to_vec(), 100, 0);
    a.step(&c, &p, &mut sel, 0, Event::Reply(0, Reply::SubmitAccepted));
    assert_eq!(a.step(&c, &p, &mut sel, 5, Event::Reply(0, Reply::PositionUnknown(100))), Action::Wait);
    assert_eq!(a.step(&c, &p, &mut sel, 10, Event::Reply(0, Reply::PositionUnknown(101))), Action::Finish);
    assert_eq!(a.outcome.unwrap().err(), Some(TransactionDriverError::TransactionExpired("100".to_string())));
}

#[test]
fn finality_timeout_then_repoll_succeeds() {
    let c = committee(&[50, 30, 20], 67);
    let mut sel = RetrySelector::new(3);
    let p = policy();
    let mut a = to_finality(&c, &mut sel, &p);
    a.step(&c, &p, &mut sel, 40, Event::Reply(0, Reply::Attested(vec![9; 4])));
    assert_eq!(a.collector.stake, 50);
    assert_eq!(a.step(&c, &p, &mut sel, 2029, Event::Tick) == Action::Finish, false);
    assert_eq!(a.step(&c, &p, &mut sel, 2030, Event::Tick), Action::Finish);
    assert_eq!(a.outcome.unwrap().err(), Some(TransactionDriverError::TimeoutBeforeFinality));

    let pos = ConsensusPosition { round: 5, index: 1 };
    let mut b = DriveAttempt::resume_finality(&c, effects(9), pos, 100, 3000);
    assert_eq!(b.transaction_digest, TX.to_vec());
    b.step(&c, &p, &mut sel, 3010, Event::Reply(0, Reply::Attested(vec![9; 4])));
    assert_eq!(b.step(&c, &p, &mut sel, 3020, Event::Reply(1, Reply::Attested(vec![9; 4]))), Action::Finish);
    let f = b.outcome.unwrap().ok().unwrap();
    assert_eq!(f.certificate.stake, 80);
    assert_eq!(f.certificate.signers, vec![true, true, false]);
    assert_eq!(f.certificate.effects_digest, vec![9; 4]);
    assert_eq!(f.effects.effects_digest, vec![9; 4]);
    assert!(f.effects.success);
}

#[test]
fn rejection_is_final_and_contacts_no_one() {
    let c = committee(&[40, 40, 20], 67);
    let mut sel = RetrySelector::new(3);
    let p = policy();
    let mut a = DriveAttempt::new(&c, TX.to_vec(), 100, 0);
    a.step(&c, &p, &mut sel, 0, Event::Tick);
    assert_eq!(a.step(&c, &p, &mut sel, 5, Event::Reply(0, Reply::SubmitRejected("insufficient balance".to_string()))), Action::Finish);
    assert_eq!(a.outcome.as_ref().unwrap().as_ref().err(), Some(&TransactionDriverError::TransactionRejected("insufficient balance".to_string())));
    assert_eq!(a.step(&c, &p, &mut sel, 6, Event::Tick), Action::Finish);
    assert_eq!(a.step(&c, &p, &mut sel, 7, Event::Reply(1, Reply::SubmitAccepted)), Action::Finish);
    assert_eq!(a.step(&c, &p, &mut sel, 9000, Event::Tick), Action::Finish);
    assert_eq!(a.phase, Phase::Submitting);
}

#[test]
fn position_rejection_is_final() {
    let c = committee(&[40, 40, 20], 67);
    let mut sel = RetrySelector::new(3);
    let p = policy();
    let mut a = DriveAttempt::new(&c, TX.to_vec(), 100, 0);
    a.step(&c, &p, &mut sel, 0, Event::Reply(2, Reply::SubmitAccepted));
    assert_eq!(a.step(&c, &p, &mut sel, 5, Event::Reply(1, Reply::PositionRejected("conflict".to_string()))), Action::Finish);
    assert_eq!(a.outcome.unwrap().err(), Some(TransactionDriverError::TransactionRejected("conflict".to_string())));
}

#[test]
fn transport_failure_retries_elsewhere_with_same_digest() {
    let c = committee(&[40, 40, 20], 67);
    let mut sel = RetrySelector::new(3);
    let p = policy();
    let mut a = DriveAttempt::new(&c, TX.to_vec(), 100, 0);
    assert_eq!(a.step(&c, &p, &mut sel, 0, Event::Tick), Action::Contact(0, Phase::Submitting));
    assert_eq!(a.step(&c, &p, &mut sel, 5, Event::Reply(0, Reply::TransportFailure("reset".to_string()))), Action::Contact(1, Phase::Submitting));
    assert_eq!(sel.failures, vec![1, 0, 0]);
    a.step(&c, &p, &mut sel, 10, Event::Reply(1, Reply::SubmitAccepted));
    a.step(&c, &p, &mut sel, 20, Event::Reply(1, Reply::PositionAssigned(ConsensusPosition { round: 3, index: 0 })));
    let other = ExecutionEffects { transaction_digest: vec![1, 2, 3, 4], effects_digest: vec![9; 4], success: true };
    assert_eq!(a.step(&c, &p, &mut sel, 25, Event::Reply(1, Reply::EffectsFound(other))), Action::Wait);
    assert_eq!(a.phase, Phase::AwaitingEffects);
    a.step(&c, &p, &mut sel, 30, Event::Reply(1, Reply::EffectsFound(effects(9))));
    a.step(&c, &p, &mut sel, 40, Event::Reply(1, Reply::Attested(vec![9; 4])));
    a.step(&c, &p, &mut sel, 50, Event::Reply(2, Reply::Attested(vec![9; 4])));
    a.step(&c, &p, &mut sel, 60, Event::Reply(0, Reply::Attested(vec![9; 4])));
    let f = a.outcome.unwrap().ok().unwrap();
    assert_eq!(f.effects.transaction_digest, TX.to_vec());
    assert_eq!(f.certificate.stake, 100);
}

#[test]
fn each_phase_times_out_with_its_own_kind() {
    let c = committee(&[40, 40, 20], 67);
    let p = policy();
    let mut sel = RetrySelector::new(3);
    let mut a = DriveAttempt::new(&c, TX.to_vec(), 100, 0);
    a.step(&c, &p, &mut sel, 0, Event::Reply(0, Reply::SubmitAccepted));
    a.step(&c, &p, &mut sel, 2000, Event::Tick);
    assert_eq!(a.outcome.unwrap().err(), Some(TransactionDriverError::TimeoutWaitingForEffects));

    let mut b = DriveAttempt::new(&c, TX.to_vec(), 100, 0);
    b.step(&c, &p, &mut sel, 0, Event::Reply(0, Reply::SubmitAccepted));
    b.step(&c, &p, &mut sel, 100, Event::Reply(0, Reply::PositionAssigned(ConsensusPosition { round: 1, index: 0 })));
    b.step(&c, &p, &mut sel, 200, Event::Reply(2, Reply::EffectsNotFound));
    b.step(&c, &p, &mut sel, 300, Event::Reply(1, Reply::TransportFailure("timeout".to_string())));
    assert_eq!(b.step(&c, &p, &mut sel, 2099, Event::Tick) == Action::Finish, false);
    b.step(&c, &p, &mut sel, 2100, Event::Tick);
    assert_eq!(b.outcome.unwrap().err(), Some(TransactionDriverError::ExecutionDataNotFound(
        "validator 2: effects not found; validator 1: timeout".to_string()
    )));
}

#[test]
fn codec_faults_are_fatal() {
    let c = committee(&[40, 40, 20], 67);
    let p = policy();
    let mut sel = RetrySelector::new(3);
    let mut a = DriveAttempt::new(&c, TX.to_vec(), 100, 0);
    assert_eq!(a.step(&c, &p, &mut sel, 0, Event::CodecFault(true, "bad bytes".to_string())), Action::Finish);
    assert_eq!(a.outcome.unwrap().err(), Some(TransactionDriverError::SerializationError("bad bytes".to_string())));
    let mut b = DriveAttempt::new(&c, TX.to_vec(), 100, 0);
    b.step(&c, &p, &mut sel, 0, Event::CodecFault(false, "truncated".to_string()));
    assert_eq!(b.outcome.unwrap().err(), Some(TransactionDriverError::DeserializationError("truncated".to_string())));
}

#[test]
fn reply_from_unknown_validator_is_ignored() {
    let c = committee(&[40, 40, 20], 67);
    let p = policy();
    let mut sel = RetrySelector::new(3);
    let mut a = DriveAttempt::new(&c, TX.to_vec(), 100, 0);
    assert_eq!(a.step(&c, &p, &mut sel, 0, Event::Reply(3, Reply::SubmitRejected("x".to_string()))), Action::Wait);
    assert!(a.outcome.is_none());
}

#[test]
fn failure_report_lists_each_failure() {
    assert_eq!(report_failures(&vec![]), "");
    assert_eq!(report_failures(&vec![(12, "reset".to_string())]), "validator 12: reset");
    assert_eq!(
        report_failures(&vec![(0, "a".to_string()), (3, "b".to_string()), (0, "c".to_string())]),
        "validator 0: a; validator 3: b; validator 0: c"
    );
}

#[test]
fn effects_timeout_without_replies_has_empty_detail() {
    let c = committee(&[40, 40, 20], 67);
    let p = policy();
    let mut sel = RetrySelector::new(3);
    let mut a = DriveAttempt::new(&c, TX.to_vec(), 100, 0);
    a.step(&c, &p, &mut sel, 0, Event::Reply(0, Reply::SubmitAccepted));
    a.step(&c, &p, &mut sel, 10, Event::Reply(0, Reply::TransportFailure("reset".to_string())));
    a.step(&c, &p, &mut sel, 20, Event::Reply(0, Reply::PositionAssigned(ConsensusPosition { round: 1, index: 0 })));
    assert!(a.failures.is_empty());
    a.step(&c, &p, &mut sel, 2020, Event::Tick);
    assert_eq!(a.outcome.unwrap().err(), Some(TransactionDriverError::ExecutionDataNotFound(String::new())));
}

#[test]
fn late_replies_end_the_phase_with_its_timeout() {
    let c = committee(&[40, 40, 20], 67);
    let p = policy();
    let mut sel = RetrySelector::new(3);
    let mut a = DriveAttempt::new(&c, TX.to_vec(), 100, 0);
    a.step(&c, &p, &mut sel, 0, Event::Reply(0, Reply::SubmitAccepted));
    let mut t: u64 = 0;
    while t < 2000 {
        assert_eq!(a.step(&c, &p, &mut sel, t, Event::Reply(0, Reply::PositionUnknown(50))), Action::Wait);
        t += 250;
    }
    assert_eq!(a.step(&c, &p, &mut sel, 2000, Event::Reply(0, Reply::PositionUnknown(50))), Action::Finish);
    assert_eq!(a.outcome.unwrap().err(), Some(TransactionDriverError::TimeoutWaitingForEffects));

    let mut b = DriveAttempt::new(&c, TX.to_vec(), 100, 0);
    let r = b.step(&c, &p, &mut sel, 2500, Event::Reply(1, Reply::TransportFailure("reset".to_string())));
    assert_eq!(r, Action::Finish);
    assert_eq!(b.outcome.unwrap().err(), Some(TransactionDriverError::TimeoutSubmittingTransaction));

    let mut d = DriveAttempt::new(&c, TX.to_vec(), 100, 0);
    d.step(&c, &p, &mut sel, 2500, Event::Reply(1, Reply::SubmitAccepted));
    assert_eq!(d.outcome.unwrap().err(), Some(TransactionDriverError::TimeoutSubmittingTransaction));
}

#[test]
fn late_verdicts_still_decide() {
    let c = committee(&[40, 40, 20], 67);
    let p = policy();
    let mut sel = RetrySelector::new(3);
    let mut a = DriveAttempt::new(&c, TX.to_vec(), 100, 0);
    a.step(&c, &p, &mut sel, 5000, Event::Reply(2, Reply::SubmitRejected("bad signature".to_string())));
    assert_eq!(a.outcome.unwrap().err(), Some(TransactionDriverError::TransactionRejected("bad signature".to_string())));

    let mut b = DriveAttempt::new(&c, TX.to_vec(), 100, 0);
    b.step(&c, &p, &mut sel, 0, Event::Reply(0, Reply::SubmitAccepted));
    b.step(&c, &p, &mut sel, 9000, Event::Reply(0, Reply::PositionUnknown(101)));
    assert_eq!(b.outcome.unwrap().err(), Some(TransactionDriverError::TransactionExpired("100".to_string())));
}

#[test]
fn failures_and_selector_counts_follow_replies() {
    let c = committee(&[40, 40, 20], 67);
    let p = policy();
    let mut sel = RetrySelector::new(3);
    let mut a = DriveAttempt::new(&c, TX.to_vec(), 100, 0);
    a.step(&c, &p, &mut sel, 1, Event::Reply(2, Reply::TransportFailure("refused".to_string())));
    a.step(&c, &p, &mut sel, 2, Event::Reply(2, Reply::TransportFailure("refused".to_string())));
    assert_eq!(a.failures, vec![(2, "refused".to_string()), (2, "refused".to_string())]);
    assert_eq!(sel.failures, vec![0, 0, 2]);
    a.step(&c, &p, &mut sel, 3, Event::Reply(2, Reply::SubmitAccepted));
    assert_eq!(sel.failures, vec![0, 0, 0]);
    assert!(a.failures.is_empty());
    assert_eq!(a.phase_started_ms, 3);
}
