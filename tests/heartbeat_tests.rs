use stelliberty_service::heartbeat::{HeartbeatMonitor, CHECK_INTERVAL_MS};
use stelliberty_service::logbuf::LogRingBuffer;
use stelliberty_service::protocol::{IpcCommand, IpcResponse};
use stelliberty_service::server::{route_command, ServerAction};

#[test]
fn silence_signals_shutdown_exactly_once() {
    let mut m = HeartbeatMonitor::new(0);
    let mut fired = Vec::new();
    for k in 1..=6u64 {
        fired.push(m.check(k * CHECK_INTERVAL_MS));
    }
    assert_eq!(fired, vec![false, false, true, false, false, false]);
    assert!(m.is_triggered());
    assert_eq!(m.last_heartbeat_ms(), 0);
}

#[test]
fn exactly_seventy_seconds_is_not_yet_a_timeout() {
    let mut m = HeartbeatMonitor::new(1_000);
    assert!(!m.check(71_000));
    assert!(m.check(71_001));
}

#[test]
fn heartbeats_keep_the_daemon_alive() {
    let mut m = HeartbeatMonitor::new(0);
    let logs = LogRingBuffer::new();
    for k in 1..=10u64 {
        let now = k * CHECK_INTERVAL_MS;
        match route_command(IpcCommand::Heartbeat, &logs, &mut m, now, "1.0") {
            ServerAction::Reply(IpcResponse::HeartbeatAck) => {}
            _ => panic!("expected HeartbeatAck"),
        }
        assert!(!m.check(now + 1));
    }
    assert_eq!(m.last_heartbeat_ms(), 300_000);
}
