use ntbindings::errors::{to_string_result, SendError, StringResult};
use ntbindings::models::{AccountSnapshot, ContractState};
use ntbindings::submit::{
    MessageKind, SignedMessage, SubmitAction, SubmitEvent, SubmitPhase, Submitter,
};

fn deployed_snapshot(balance: u64) -> ContractState {
    ContractState::Exists(AccountSnapshot { balance, is_deployed: true, last_trans_lt: 7 })
}

fn undeployed_snapshot(balance: u64) -> ContractState {
    ContractState::Exists(AccountSnapshot { balance, is_deployed: false, last_trans_lt: 0 })
}

fn message(tag: u8) -> SignedMessage {
    SignedMessage { raw: vec![tag, 1, 2], hash: vec![tag; 32], expire_at: 1000 }
}

#[test]
fn happy_transfer_reaches_done_with_one_ok() {
    let (s, first) = Submitter::new();
    assert!(matches!(first, SubmitAction::FetchState));

    let (s, a) = s.step(SubmitEvent::StateFetched(deployed_snapshot(1_000_000_000)));
    assert!(matches!(a, Some(SubmitAction::Sign(MessageKind::Transfer))));

    let (s, a) = s.step(SubmitEvent::Signed(message(1)));
    assert!(matches!(a, Some(SubmitAction::PollBalance)));

    let (s, a) = s.step(SubmitEvent::Balance(1_000_000_000));
    match a {
        Some(SubmitAction::Broadcast(m, MessageKind::Transfer)) => {
            assert_eq!(m.hash, vec![1u8; 32]);
        }
        other => panic!("expected a transfer broadcast, got {:?}", other),
    }

    let (s, a) = s.step(SubmitEvent::BroadcastOk);
    assert!(matches!(a, Some(SubmitAction::PollBalance)));

    // the balance has not moved yet: keep polling
    let (s, a) = s.step(SubmitEvent::Balance(1_000_000_000));
    assert!(matches!(a, Some(SubmitAction::PollBalance)));

    // the debit shows: done, exactly one success report
    let (s, a) = s.step(SubmitEvent::Balance(998_000_000));
    assert!(matches!(a, Some(SubmitAction::Report(Ok(())))));
    assert!(matches!(s.phase, SubmitPhase::Done));

    // terminal: nothing more is ever asked
    let (s, a) = s.step(SubmitEvent::Balance(5));
    assert!(a.is_none());
    assert!(matches!(s.phase, SubmitPhase::Done));
}

#[test]
fn absent_sender_fails_without_broadcast() {
    let (s, _) = Submitter::new();
    let (s, a) = s.step(SubmitEvent::StateFetched(ContractState::NotExists));
    match a {
        Some(SubmitAction::Report(Err(SendError::ContractDoesntExist))) => {}
        other => panic!("expected the contract-doesnt-exist report, got {:?}", other),
    }
    assert!(matches!(
        s.phase,
        SubmitPhase::Failed(SendError::ContractDoesntExist)
    ));
    // whatever arrives later, the machine never asks for a broadcast
    let (s, a) = s.step(SubmitEvent::Signed(message(9)));
    assert!(a.is_none());
    let (_, a) = s.step(SubmitEvent::Balance(1));
    assert!(a.is_none());
}

#[test]
fn deploy_broadcast_precedes_transfer_broadcast() {
    let (s, _) = Submitter::new();
    let (s, a) = s.step(SubmitEvent::StateFetched(undeployed_snapshot(500)));
    assert!(matches!(a, Some(SubmitAction::Sign(MessageKind::Deploy))));

    let (s, a) = s.step(SubmitEvent::Signed(message(2)));
    assert!(matches!(a, Some(SubmitAction::PollBalance)));

    let (s, a) = s.step(SubmitEvent::Balance(500));
    match a {
        Some(SubmitAction::Broadcast(m, MessageKind::Deploy)) => {
            assert_eq!(m.hash, vec![2u8; 32]);
        }
        other => panic!("expected the deploy broadcast first, got {:?}", other),
    }

    let (s, a) = s.step(SubmitEvent::BroadcastOk);
    assert!(matches!(a, Some(SubmitAction::PollBalance)));

    // code appears, balance moves: deploy confirmed, now the transfer
    let (s, a) = s.step(SubmitEvent::Balance(400));
    assert!(matches!(a, Some(SubmitAction::Sign(MessageKind::Transfer))));

    let (s, a) = s.step(SubmitEvent::Signed(message(3)));
    assert!(matches!(a, Some(SubmitAction::PollBalance)));

    let (s, a) = s.step(SubmitEvent::Balance(400));
    match a {
        Some(SubmitAction::Broadcast(m, MessageKind::Transfer)) => {
            assert_eq!(m.hash, vec![3u8; 32]);
        }
        other => panic!("expected the transfer broadcast, got {:?}", other),
    }

    let (s, a) = s.step(SubmitEvent::BroadcastOk);
    assert!(matches!(a, Some(SubmitAction::PollBalance)));
    let (s, a) = s.step(SubmitEvent::Balance(300));
    assert!(matches!(a, Some(SubmitAction::Report(Ok(())))));
    assert!(matches!(s.phase, SubmitPhase::Done));
}

#[test]
fn retry_after_deploy_never_redeploys() {
    let (s, _) = Submitter::new();
    let (s, _) = s.step(SubmitEvent::StateFetched(undeployed_snapshot(500)));
    let (s, _) = s.step(SubmitEvent::Signed(message(10)));
    let (s, _) = s.step(SubmitEvent::Balance(500));
    let (s, _) = s.step(SubmitEvent::BroadcastOk);
    // deploy confirmed; the transfer attempt times out while confirming
    let (s, a) = s.step(SubmitEvent::Balance(400));
    assert!(matches!(a, Some(SubmitAction::Sign(MessageKind::Transfer))));
    let (s, _) = s.step(SubmitEvent::Signed(message(11)));
    let (s, _) = s.step(SubmitEvent::Balance(400));
    let (s, _) = s.step(SubmitEvent::BroadcastOk);
    let (s, a) = s.step(SubmitEvent::AttemptTimedOut("window elapsed".to_string()));
    // the retry asks for a fresh transfer signature, never a deploy again
    assert!(matches!(a, Some(SubmitAction::Sign(MessageKind::Transfer))));
    let (s, _) = s.step(SubmitEvent::Signed(message(12)));
    let (_, a) = s.step(SubmitEvent::Balance(400));
    match a {
        Some(SubmitAction::Broadcast(m, MessageKind::Transfer)) => {
            assert_eq!(m.hash, vec![12u8; 32]);
        }
        other => panic!("expected a transfer re-broadcast, got {:?}", other),
    }
}

#[test]
fn retry_resigns_before_rebroadcast() {
    let (s, _) = Submitter::new();
    let (s, _) = s.step(SubmitEvent::StateFetched(deployed_snapshot(100)));
    let (s, _) = s.step(SubmitEvent::Signed(message(4)));
    // the attempt window elapses while measuring: the unsent message is
    // dropped and a fresh signature is requested
    let (s, a) = s.step(SubmitEvent::AttemptTimedOut("window elapsed".to_string()));
    assert!(matches!(a, Some(SubmitAction::Sign(MessageKind::Transfer))));
    assert!(s.signed.is_none());

    // without a fresh signature no broadcast is asked for
    let (s, a) = s.step(SubmitEvent::Balance(100));
    assert!(a.is_none());

    // after re-signing the broadcast carries the new message
    let (s, _) = s.step(SubmitEvent::Signed(message(5)));
    let (_, a) = s.step(SubmitEvent::Balance(100));
    match a {
        Some(SubmitAction::Broadcast(m, _)) => assert_eq!(m.hash, vec![5u8; 32]),
        other => panic!("expected the re-signed broadcast, got {:?}", other),
    }
}

#[test]
fn retries_are_bounded() {
    let (mut s, _) = Submitter::new();
    let r = s.step(SubmitEvent::StateFetched(deployed_snapshot(100)));
    s = r.0;
    // four timeouts retry, the fifth attempt's timeout is terminal
    for _ in 0..4 {
        let (s2, a) = s.step(SubmitEvent::AttemptTimedOut("window elapsed".to_string()));
        assert!(matches!(a, Some(SubmitAction::Sign(MessageKind::Transfer))));
        s = s2;
    }
    let (s, a) = s.step(SubmitEvent::AttemptTimedOut("window elapsed".to_string()));
    match a {
        Some(SubmitAction::Report(Err(SendError::TransportError(m)))) => {
            assert_eq!(m, "window elapsed");
        }
        other => panic!("expected the terminal transport error, got {:?}", other),
    }
    assert!(matches!(s.phase, SubmitPhase::Failed(_)));
}

#[test]
fn sign_failure_is_terminal_with_sign_error_and_no_broadcast() {
    let (s, _) = Submitter::new();
    let (s, _) = s.step(SubmitEvent::StateFetched(deployed_snapshot(2_000_000)));
    let (s, a) = s.step(SubmitEvent::SignFailed);
    let report = match a {
        Some(SubmitAction::Report(r)) => r,
        other => panic!("expected a report, got {:?}", other),
    };
    match to_string_result(report) {
        StringResult::Error(m) => assert_eq!(m, "Sign error"),
        StringResult::Success(_) => panic!("a sign failure must not report success"),
    }
    assert!(matches!(s.phase, SubmitPhase::Failed(SendError::SignError)));
    // nothing was ever broadcast and nothing more will be
    let (_, a) = s.step(SubmitEvent::Balance(1));
    assert!(a.is_none());
}

#[test]
fn transport_failures_map_by_phase() {
    // fetch failure: transport error with the transport's message
    let (s, _) = Submitter::new();
    let (_, a) = s.step(SubmitEvent::FetchFailed("boom".to_string()));
    match a {
        Some(SubmitAction::Report(Err(SendError::TransportError(m)))) => assert_eq!(m, "boom"),
        other => panic!("expected a transport error, got {:?}", other),
    }

    // broadcast failure during the transfer: transport error
    let (s, _) = Submitter::new();
    let (s, _) = s.step(SubmitEvent::StateFetched(deployed_snapshot(10)));
    let (s, _) = s.step(SubmitEvent::Signed(message(6)));
    let (s, _) = s.step(SubmitEvent::Balance(10));
    let (_, a) = s.step(SubmitEvent::BroadcastFailed("refused".to_string()));
    match a {
        Some(SubmitAction::Report(Err(SendError::TransportError(m)))) => {
            assert_eq!(m, "refused");
        }
        other => panic!("expected a transport error, got {:?}", other),
    }

    // the same failure inside the deploy sub-procedure aborts as deploy error
    let (s, _) = Submitter::new();
    let (s, _) = s.step(SubmitEvent::StateFetched(undeployed_snapshot(10)));
    let (s, _) = s.step(SubmitEvent::Signed(message(7)));
    let (s, _) = s.step(SubmitEvent::Balance(10));
    let (_, a) = s.step(SubmitEvent::BroadcastFailed("refused".to_string()));
    match a {
        Some(SubmitAction::Report(Err(SendError::DeployError))) => {}
        other => panic!("expected a deploy error, got {:?}", other),
    }
}

#[test]
fn success_report_is_empty_string_result() {
    match to_string_result(Ok(())) {
        StringResult::Success(m) => assert_eq!(m, ""),
        StringResult::Error(m) => panic!("unexpected error: {}", m),
    }
    match to_string_result(Err(SendError::ContractDoesntExist)) {
        StringResult::Error(m) => assert_eq!(m, "Constract doesn't exist"),
        StringResult::Success(_) => panic!("an error must not report success"),
    }
    assert_eq!(SendError::DeployError.message(), "Deploy error");
    assert_eq!(
        SendError::TransportError("detail".to_string()).message(),
        "transport error"
    );
}
