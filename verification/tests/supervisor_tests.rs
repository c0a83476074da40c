use local_sent_bridge::errors::BridgeError;
use local_sent_bridge::protocol::ConfirmDecision;
use local_sent_bridge::supervisor::validate_listen_request;
use local_sent_bridge::supervisor::ProbeOutcome;
use local_sent_bridge::supervisor::SupervisorState;

#[test]
fn stop_twice_is_idempotent() {
    let mut sup = SupervisorState::new();
    assert!(sup.begin_start(None).is_ok());
    let payload = sup.complete_start(4242, 7777, true);
    assert!(payload.running);
    assert_eq!(payload.pid, Some(4242));

    let first = sup.stop();
    assert!(!first.running);
    assert_eq!(first.pid, None);

    let second = sup.stop();
    assert!(!second.running);
    assert_eq!(second.pid, None);
    assert_eq!(sup.child, None);
    assert!(!sup.stdin_open);
    assert_eq!(sup.port, None);
}

#[test]
fn start_while_running_fails_with_already_running() {
    let mut sup = SupervisorState::new();
    assert!(sup.begin_start(None).is_ok());
    sup.complete_start(100, 7777, true);
    let denied = sup.begin_start(Some(ProbeOutcome::StillRunning));
    assert_eq!(denied, Err(BridgeError::AlreadyRunning));
    assert_eq!(sup.child, Some(100));
}

#[test]
fn status_after_exit_reports_not_running_and_clears_state() {
    let mut sup = SupervisorState::new();
    assert!(sup.begin_start(None).is_ok());
    sup.complete_start(100, 7777, true);
    assert!(sup.stdin_open);
    assert_eq!(sup.port, Some(7777));

    let payload = sup.status(Some(ProbeOutcome::Exited)).expect("probe worked");
    assert!(!payload.running);
    assert_eq!(payload.pid, None);
    assert_eq!(sup.child, None);
    assert!(!sup.stdin_open);
    assert_eq!(sup.port, None);
}

#[test]
fn start_after_observed_exit_is_allowed() {
    let mut sup = SupervisorState::new();
    assert!(sup.begin_start(None).is_ok());
    sup.complete_start(100, 7777, true);
    assert!(sup.begin_start(Some(ProbeOutcome::Exited)).is_ok());
    assert_eq!(sup.child, None);
}

#[test]
fn status_while_running_reports_pid() {
    let mut sup = SupervisorState::new();
    assert!(sup.begin_start(None).is_ok());
    sup.complete_start(4242, 7777, true);
    let payload = sup.status(Some(ProbeOutcome::StillRunning)).expect("probe worked");
    assert!(payload.running);
    assert_eq!(payload.pid, Some(4242));
}

#[test]
fn probe_failure_surfaces_as_io_failure() {
    let mut sup = SupervisorState::new();
    assert!(sup.begin_start(None).is_ok());
    sup.complete_start(100, 7777, true);
    let err = sup.status(Some(ProbeOutcome::ProbeFailed(b"gone".to_vec())));
    assert_eq!(err, Err(BridgeError::IoFailure(b"gone".to_vec())));
    // the state is left untouched for the next probe
    assert_eq!(sup.child, Some(100));
}

#[test]
fn respond_without_session_fails_with_no_active_session() {
    let sup = SupervisorState::new();
    let decision = ConfirmDecision { id: 7, accept: true };
    assert_eq!(sup.respond(&decision), Err(BridgeError::NoActiveSession));
}

#[test]
fn respond_writes_exact_approve_line() {
    let mut sup = SupervisorState::new();
    assert!(sup.begin_start(None).is_ok());
    sup.complete_start(100, 7777, true);
    let line = sup.respond(&ConfirmDecision { id: 7, accept: true }).expect("session live");
    assert_eq!(line, b"approve 7\n".to_vec());
}

#[test]
fn respond_writes_exact_reject_line() {
    let mut sup = SupervisorState::new();
    assert!(sup.begin_start(None).is_ok());
    sup.complete_start(100, 7777, true);
    let line = sup.respond(&ConfirmDecision { id: 9035, accept: false }).expect("session live");
    assert_eq!(line, b"reject 9035\n".to_vec());
}

#[test]
fn listen_request_validation() {
    assert_eq!(validate_listen_request(0, false, false), Err(BridgeError::InvalidPort));
    assert_eq!(validate_listen_request(7777, true, false), Err(BridgeError::TlsConfigMismatch));
    assert_eq!(validate_listen_request(7777, false, true), Err(BridgeError::TlsConfigMismatch));
    assert_eq!(validate_listen_request(7777, true, true), Ok(()));
    assert_eq!(validate_listen_request(7777, false, false), Ok(()));
}
