use stelliberty_service::client::{is_heartbeat_ack, AttemptOutcome, ClientStep, IpcClient, IpcError};
use stelliberty_service::protocol::IpcResponse;

fn failing() -> AttemptOutcome {
    AttemptOutcome::Failed(IpcError::ConnectionFailed("refused".to_string()))
}

#[test]
fn defaults_and_builders() {
    let c = IpcClient::new();
    assert_eq!(c.timeout_ms(), 5000);
    assert_eq!(c.max_retries(), 3);
    let d = IpcClient::default();
    assert_eq!((d.timeout_ms(), d.max_retries()), (5000, 3));
    let c = c.with_max_retries(7).with_timeout(250);
    assert_eq!(c.max_retries(), 7);
    assert_eq!(c.timeout_ms(), 250);
}

#[test]
fn retries_are_bounded_with_growing_backoff() {
    let client = IpcClient::new().with_max_retries(2);
    let mut session = client.begin_send();
    let mut attempts = 1;
    let mut backoffs = Vec::new();
    loop {
        match session.on_outcome(failing()) {
            ClientStep::Retry { attempt, backoff_ms } => {
                assert_eq!(attempt, attempts);
                attempts += 1;
                backoffs.push(backoff_ms);
            }
            ClientStep::Finish(r) => {
                assert!(matches!(r, Err(IpcError::ConnectionFailed(_))));
                break;
            }
        }
    }
    assert_eq!(attempts, 3);
    assert_eq!(backoffs, vec![100, 200]);
}

#[test]
fn last_failure_is_returned() {
    let mut session = IpcClient::new().with_max_retries(1).begin_send();
    assert!(matches!(session.on_outcome(failing()), ClientStep::Retry { attempt: 1, backoff_ms: 100 }));
    match session.on_outcome(AttemptOutcome::Failed(IpcError::Timeout)) {
        ClientStep::Finish(Err(IpcError::Timeout)) => {}
        _ => panic!("expected the latest failure"),
    }
}

#[test]
fn zero_retries_means_one_attempt() {
    let mut session = IpcClient::new().with_max_retries(0).begin_send();
    assert!(matches!(session.on_outcome(failing()), ClientStep::Finish(Err(_))));
}

#[test]
fn error_reply_is_not_retried() {
    let mut session = IpcClient::new().begin_send();
    let step = session.on_outcome(AttemptOutcome::Reply(IpcResponse::Error {
        code: 2,
        message: "config file not found".to_string(),
    }));
    match step {
        ClientStep::Finish(Err(IpcError::ServiceError(code, message))) => {
            assert_eq!(code, 2);
            assert_eq!(message, "config file not found");
        }
        _ => panic!("expected a service error"),
    }
}

#[test]
fn reply_after_failure_succeeds() {
    let mut session = IpcClient::new().begin_send();
    assert!(matches!(session.on_outcome(failing()), ClientStep::Retry { .. }));
    assert!(matches!(
        session.on_outcome(AttemptOutcome::Reply(IpcResponse::HeartbeatAck)),
        ClientStep::Finish(Ok(IpcResponse::HeartbeatAck))
    ));
}

#[test]
fn only_a_clean_ack_means_running() {
    assert!(is_heartbeat_ack(&Ok(IpcResponse::HeartbeatAck)));
    assert!(!is_heartbeat_ack(&Ok(IpcResponse::Success { message: None })));
    assert!(!is_heartbeat_ack(&Err(IpcError::Timeout)));
}
