use stelliberty_service::server::{operation_response, status_response};
use stelliberty_service::protocol::IpcResponse;
use stelliberty_service::supervisor::{
    check_start_paths, decide_after_termination, format_io_error_hint, spawn_args, ExitProbe,
    IoErrorClass, ProcessTracker, StartRequest, StopAction, StopPolicy, SupervisorError,
    TerminationOutcome,
};

fn request(core: &str) -> StartRequest {
    StartRequest {
        core_path: core.to_string(),
        config_path: "/etc/core/config.yaml".to_string(),
        data_dir: "/var/lib/core".to_string(),
        external_controller: String::new(),
    }
}

#[test]
fn missing_binary_is_a_configuration_error_naming_the_path() {
    let req = request("/bin/true_missing");
    let err = check_start_paths(&req, false, true).unwrap_err();
    assert!(matches!(err, SupervisorError::BinaryNotFound { .. }));
    assert!(err.message().contains("/bin/true_missing"));
    let mut tracker = ProcessTracker::new();
    assert!(!tracker.is_running(ExitProbe::StillRunning));
    match operation_response(Err(err)) {
        IpcResponse::Error { code, message } => {
            assert_eq!(code, 1);
            assert!(message.contains("/bin/true_missing"));
        }
        _ => panic!("expected an Error response"),
    }
}

#[test]
fn missing_config_is_reported_after_the_binary() {
    let req = request("/usr/bin/core");
    let err = check_start_paths(&req, true, false).unwrap_err();
    assert!(matches!(err, SupervisorError::ConfigNotFound { .. }));
    assert!(err.message().contains("/etc/core/config.yaml"));
    assert!(matches!(check_start_paths(&req, false, false), Err(SupervisorError::BinaryNotFound { .. })));
    assert!(check_start_paths(&req, true, true).is_ok());
}

#[test]
fn spawn_arguments_always_carry_the_controller() {
    let mut req = request("/usr/bin/core");
    assert_eq!(
        spawn_args(&req),
        vec!["-d", "/var/lib/core", "-f", "/etc/core/config.yaml", "-ext-ctl", ""]
    );
    req.external_controller = "127.0.0.1:9090".to_string();
    assert_eq!(spawn_args(&req)[5], "127.0.0.1:9090");
}

#[test]
fn stop_on_a_stopped_supervisor_changes_nothing() {
    let mut tracker = ProcessTracker::new();
    assert_eq!(tracker.begin_stop(), None);
    assert_eq!(tracker.tracked_pid(), None);
    assert_eq!(tracker.begin_stop(), None);
}

#[test]
fn after_stop_nothing_runs() {
    let mut tracker = ProcessTracker::new();
    tracker.record_started(request("/usr/bin/core"), 4242, 1_000);
    assert_eq!(tracker.tracked_pid(), Some(4242));
    let status = tracker.get_status(ExitProbe::StillRunning, 62_500);
    assert!(status.is_running);
    assert_eq!(status.pid, Some(4242));
    assert_eq!(status.uptime, 61);
    assert_eq!(tracker.begin_stop(), Some(4242));
    assert!(!tracker.is_running(ExitProbe::StillRunning));
    let status = tracker.get_status(ExitProbe::StillRunning, 70_000);
    assert!(!status.is_running);
    assert_eq!(status.pid, None);
    assert_eq!(status.uptime, 0);
}

#[test]
fn exited_process_is_forgotten() {
    let mut tracker = ProcessTracker::new();
    tracker.record_started(request("/usr/bin/core"), 7, 0);
    assert!(!tracker.is_running(ExitProbe::Exited));
    assert_eq!(tracker.tracked_pid(), None);
    tracker.record_started(request("/usr/bin/core"), 8, 0);
    assert!(!tracker.is_running(ExitProbe::ProbeFailed));
    assert_eq!(tracker.tracked_pid(), None);
}

#[test]
fn termination_fallbacks() {
    let windows = StopPolicy { force_kill_available: true, escalate_unconfirmed: false };
    let unix = StopPolicy { force_kill_available: false, escalate_unconfirmed: false };
    let strict = StopPolicy { force_kill_available: false, escalate_unconfirmed: true };
    assert!(matches!(decide_after_termination(5, TerminationOutcome::Exited, windows), StopAction::Done));
    assert!(matches!(
        decide_after_termination(5, TerminationOutcome::WaitTimedOut, windows),
        StopAction::ForceKill { pid: 5 }
    ));
    assert!(matches!(decide_after_termination(5, TerminationOutcome::WaitTimedOut, unix), StopAction::Done));
    assert!(matches!(
        decide_after_termination(5, TerminationOutcome::WaiterFailed, strict),
        StopAction::Fail(SupervisorError::WaitTimedOut { pid: 5 })
    ));
    let failed = TerminationOutcome::KillFailed {
        class: IoErrorClass::PermissionDenied,
        detail: "operation not permitted".to_string(),
    };
    match decide_after_termination(5, failed, unix) {
        StopAction::Fail(e) => {
            let m = e.message();
            assert!(m.starts_with("failed to stop the core: operation not permitted\n"));
            assert!(m.ends_with(&format_io_error_hint(IoErrorClass::PermissionDenied)));
        }
        _ => panic!("expected a failure"),
    }
}

#[test]
fn hints_differ_by_class() {
    assert_eq!(format_io_error_hint(IoErrorClass::Other), "hint: see the system log for details");
    assert_ne!(format_io_error_hint(IoErrorClass::NotFound), format_io_error_hint(IoErrorClass::AddrInUse));
}

#[test]
fn status_and_success_responses() {
    let mut tracker = ProcessTracker::new();
    tracker.record_started(request("/usr/bin/core"), 99, 0);
    let status = tracker.get_status(ExitProbe::StillRunning, 5_000);
    match status_response(&status, 120) {
        IpcResponse::Status { clash_running, clash_pid, service_uptime } => {
            assert!(clash_running);
            assert_eq!(clash_pid, Some(99));
            assert_eq!(service_uptime, 120);
        }
        _ => panic!("expected Status"),
    }
    assert!(matches!(operation_response(Ok(())), IpcResponse::Success { message: None }));
}
