//! The daemon's side of an exchange: which handler a decoded command goes to,
//! and the response each handler's result becomes.
use crate::heartbeat::{HeartbeatMonitor, MonitorModel};
use crate::logbuf::{last_lines, LogRingBuffer};
use crate::protocol::{IpcCommand, IpcResponse};
use crate::supervisor::{ClashStatus, StartRequest, SupervisorError};
use vstd::prelude::*;

verus! {

/// Where a command goes once decoded.
pub enum ServerAction {
    /// Answer at once.
    Reply(IpcResponse),
    /// Start the managed process as requested.
    StartCore(StartRequest),
    /// Stop the managed process.
    StopCore,
    /// Take a status snapshot of the managed process.
    ReportStatus,
    /// Switch the connection to pushing live log lines.
    StreamLogs,
}

/// The application error code of a supervisor failure.
pub open spec fn error_code_spec(e: SupervisorError) -> i32 {
    match e {
        SupervisorError::BinaryNotFound { .. } => 1,
        SupervisorError::ConfigNotFound { .. } => 2,
        SupervisorError::SpawnFailed { .. } => 3,
        SupervisorError::TerminationFailed { .. } => 4,
        SupervisorError::WaitTimedOut { .. } => 5,
    }
}

/// The application error code of a supervisor failure.
pub fn error_code(e: &SupervisorError) -> (r: i32)
    ensures
        r == error_code_spec(*e),
{
    match e {
        SupervisorError::BinaryNotFound { .. } => 1,
        SupervisorError::ConfigNotFound { .. } => 2,
        SupervisorError::SpawnFailed { .. } => 3,
        SupervisorError::TerminationFailed { .. } => 4,
        SupervisorError::WaitTimedOut { .. } => 5,
    }
}

/// Dispatches `cmd`, received at `now_ms`. Log queries and version queries
/// are answered from `logs` and `version`; a heartbeat is recorded and
/// acknowledged; the rest is handed to the supervisor or the stream.
pub fn route_command(
    cmd: IpcCommand,
    logs: &LogRingBuffer,
    heartbeat: &mut HeartbeatMonitor,
    now_ms: u64,
    version: &str,
) -> (r: ServerAction)
    ensures
        cmd is Heartbeat ==> final(heartbeat).model() == (MonitorModel {
            last: now_ms as int,
            triggered: old(heartbeat).model().triggered,
        }),
        !(cmd is Heartbeat) ==> final(heartbeat).model() == old(heartbeat).model(),
        match cmd {
            IpcCommand::StartClash { core_path, config_path, data_dir, external_controller } =>
                r == ServerAction::StartCore(
                StartRequest { core_path, config_path, data_dir, external_controller },
            ),
            IpcCommand::StopClash => r is StopCore,
            IpcCommand::GetStatus => r is ReportStatus,
            IpcCommand::GetLogs { lines } => r is Reply && r->Reply_0 is Logs
                && r->Reply_0->Logs_lines@ == last_lines(logs@, lines as nat),
            IpcCommand::StreamLogs => r is StreamLogs,
            IpcCommand::GetVersion => r is Reply && r->Reply_0 is Version
                && r->Reply_0->Version_version@ == version@,
            IpcCommand::Heartbeat => r == ServerAction::Reply(IpcResponse::HeartbeatAck),
        },
{
    match cmd {
        IpcCommand::StartClash { core_path, config_path, data_dir, external_controller } => {
            ServerAction::StartCore(
                StartRequest { core_path, config_path, data_dir, external_controller },
            )
        },
        IpcCommand::StopClash => ServerAction::StopCore,
        IpcCommand::GetStatus => ServerAction::ReportStatus,
        IpcCommand::GetLogs { lines } => {
            ServerAction::Reply(IpcResponse::Logs { lines: logs.recent(lines) })
        },
        IpcCommand::StreamLogs => ServerAction::StreamLogs,
        IpcCommand::GetVersion => {
            ServerAction::Reply(IpcResponse::Version { version: String::from_str(version) })
        },
        IpcCommand::Heartbeat => {
            heartbeat.record_heartbeat(now_ms);
            ServerAction::Reply(IpcResponse::HeartbeatAck)
        },
    }
}

/// The response to a status query: the snapshot and the daemon's uptime.
pub fn status_response(status: &ClashStatus, service_uptime: u64) -> (r: IpcResponse)
    ensures
        r == (IpcResponse::Status {
            clash_running: status.is_running,
            clash_pid: status.pid,
            service_uptime,
        }),
{
    IpcResponse::Status { clash_running: status.is_running, clash_pid: status.pid, service_uptime }
}

/// The response to a start or stop: success, or an `Error` carrying the
/// failure's code and its message.
pub fn operation_response(result: Result<(), SupervisorError>) -> (r: IpcResponse)
    ensures
        result is Ok ==> r == (IpcResponse::Success { message: None }),
        result is Err ==> r is Error && r->Error_code == error_code_spec(result->Err_0)
            && r->Error_message@ == result->Err_0.message_spec(),
{
    match result {
        Ok(()) => IpcResponse::Success { message: None },
        Err(e) => {
            let code = error_code(&e);
            IpcResponse::Error { code, message: e.message() }
        },
    }
}

} // verus!
