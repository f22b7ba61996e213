//! The managed core process: its bookkeeping and every decision the
//! supervisor makes around spawning, probing and terminating it. The
//! operating-system calls themselves are made by the caller, which hands the
//! outcomes back here.
use vstd::prelude::*;

verus! {

/// A read-only snapshot of the supervised process.
pub struct ClashStatus {
    pub is_running: bool,
    pub pid: Option<u32>,
    /// Seconds since the process was started.
    pub uptime: u64,
}

/// What a start request names: the executable and what it is started with.
pub struct StartRequest {
    pub core_path: String,
    pub config_path: String,
    pub data_dir: String,
    /// The control API address; empty disables the API.
    pub external_controller: String,
}

/// The handle of the one process under supervision.
pub struct ManagedProcess {
    pub core_path: String,
    pub config_path: String,
    pub data_dir: String,
    pub external_controller: String,
    pub pid: u32,
    /// Monotonic clock reading, in milliseconds, taken when it was spawned.
    pub started_at_ms: u64,
}

/// How the operating system classified a failed spawn or termination.
#[derive(PartialEq, Eq, Structural, Clone, Copy, Debug)]
pub enum IoErrorClass {
    NotFound,
    PermissionDenied,
    AddrInUse,
    Other,
}

pub enum SupervisorError {
    BinaryNotFound { path: String },
    ConfigNotFound { path: String },
    SpawnFailed { class: IoErrorClass, detail: String },
    TerminationFailed { pid: u32, class: IoErrorClass, detail: String },
    WaitTimedOut { pid: u32 },
}

/// What a non-blocking look at the tracked process found.
#[derive(PartialEq, Eq, Structural, Clone, Copy, Debug)]
pub enum ExitProbe {
    StillRunning,
    Exited,
    ProbeFailed,
}

/// How a termination request and the bounded wait after it ended.
pub enum TerminationOutcome {
    /// The process exited within the grace period.
    Exited,
    /// Waiting for the exit reported an error.
    WaitFailed,
    /// The grace period elapsed first.
    WaitTimedOut,
    /// The waiting context itself failed.
    WaiterFailed,
    /// The termination request could not be delivered.
    KillFailed { class: IoErrorClass, detail: String },
}

/// What the platform offers once graceful termination is unconfirmed.
#[derive(Clone, Copy)]
pub struct StopPolicy {
    /// A forceful, tree-wide kill exists on this platform.
    pub force_kill_available: bool,
    /// Without a forceful kill, report an unconfirmed exit as an error.
    pub escalate_unconfirmed: bool,
}

/// What remains to be done after a termination attempt.
pub enum StopAction {
    Done,
    ForceKill { pid: u32 },
    Fail(SupervisorError),
}

/// The grace period granted to a process after the termination request.
pub const STOP_GRACE_MS: u64 = 3000;

pub open spec fn hint_text(class: IoErrorClass) -> Seq<char> {
    match class {
        IoErrorClass::NotFound =>
            "possible causes: the core path is wrong, the file is missing, or it is not executable\nhint: check that the core binary exists and is executable"@,
        IoErrorClass::PermissionDenied =>
            "possible causes: missing execute permission, a firewall block, or a port in use\nhint: check file permissions and firewall settings"@,
        IoErrorClass::AddrInUse =>
            "possible causes: the port is taken, or the core is already running\nhint: free the port or choose another one"@,
        IoErrorClass::Other => "hint: see the system log for details"@,
    }
}

/// The remediation hint shown with an operating-system failure.
pub fn format_io_error_hint(class: IoErrorClass) -> (r: String)
    ensures
        r@ == hint_text(class),
{
    match class {
        IoErrorClass::NotFound => String::from_str(
            "possible causes: the core path is wrong, the file is missing, or it is not executable\nhint: check that the core binary exists and is executable",
        ),
        IoErrorClass::PermissionDenied => String::from_str(
            "possible causes: missing execute permission, a firewall block, or a port in use\nhint: check file permissions and firewall settings",
        ),
        IoErrorClass::AddrInUse => String::from_str(
            "possible causes: the port is taken, or the core is already running\nhint: free the port or choose another one",
        ),
        IoErrorClass::Other => String::from_str("hint: see the system log for details"),
    }
}

impl SupervisorError {
    pub open spec fn message_spec(&self) -> Seq<char> {
        match self {
            SupervisorError::BinaryNotFound { path } => "core binary not found\npath: "@ + path@
                + "\nhint: check that the core binary is installed"@,
            SupervisorError::ConfigNotFound { path } => "config file not found\npath: "@ + path@
                + "\nhint: check that the config file was generated"@,
            SupervisorError::SpawnFailed { class, detail } => "failed to start the core: "@
                + detail@ + "\n"@ + hint_text(*class),
            SupervisorError::TerminationFailed { pid: _, class, detail } =>
                "failed to stop the core: "@ + detail@ + "\n"@ + hint_text(*class),
            SupervisorError::WaitTimedOut { pid: _ } =>
                "the core did not confirm its exit within the grace period"@,
        }
    }

    /// The text shown to the user for this error.
    pub fn message(&self) -> (r: String)
        ensures
            r@ == self.message_spec(),
    {
        match self {
            SupervisorError::BinaryNotFound { path } => String::from_str(
                "core binary not found\npath: ",
            ).concat(path.as_str()).concat("\nhint: check that the core binary is installed"),
            SupervisorError::ConfigNotFound { path } => String::from_str(
                "config file not found\npath: ",
            ).concat(path.as_str()).concat("\nhint: check that the config file was generated"),
            SupervisorError::SpawnFailed { class, detail } => {
                let hint = format_io_error_hint(*class);
                String::from_str("failed to start the core: ").concat(detail.as_str()).concat(
                    "\n",
                ).concat(hint.as_str())
            },
            SupervisorError::TerminationFailed { pid: _, class, detail } => {
                let hint = format_io_error_hint(*class);
                String::from_str("failed to stop the core: ").concat(detail.as_str()).concat(
                    "\n",
                ).concat(hint.as_str())
            },
            SupervisorError::WaitTimedOut { pid: _ } => String::from_str(
                "the core did not confirm its exit within the grace period",
            ),
        }
    }
}

/// Checks, before spawning, that both files a start request names exist.
/// A missing binary is reported before a missing configuration.
pub fn check_start_paths(req: &StartRequest, core_exists: bool, config_exists: bool) -> (r: Result<
    (),
    SupervisorError,
>)
    ensures
        !core_exists ==> r == Err::<(), SupervisorError>(
            SupervisorError::BinaryNotFound { path: req.core_path },
        ),
        core_exists && !config_exists ==> r == Err::<(), SupervisorError>(
            SupervisorError::ConfigNotFound { path: req.config_path },
        ),
        core_exists && config_exists ==> r is Ok,
{
    if !core_exists {
        Err(SupervisorError::BinaryNotFound { path: req.core_path.clone() })
    } else if !config_exists {
        Err(SupervisorError::ConfigNotFound { path: req.config_path.clone() })
    } else {
        Ok(())
    }
}

/// The command line the core is spawned with:
/// `-d <data_dir> -f <config_path> -ext-ctl <external_controller>`.
/// The controller argument is passed even when empty, which disables the API.
pub fn spawn_args(req: &StartRequest) -> (r: Vec<String>)
    ensures
        r@.len() == 6,
        r@[0]@ == "-d"@,
        r@[1]@ == req.data_dir@,
        r@[2]@ == "-f"@,
        r@[3]@ == req.config_path@,
        r@[4]@ == "-ext-ctl"@,
        r@[5]@ == req.external_controller@,
{
    let mut args: Vec<String> = Vec::new();
    args.push(String::from_str("-d"));
    args.push(req.data_dir.clone());
    args.push(String::from_str("-f"));
    args.push(req.config_path.clone());
    args.push(String::from_str("-ext-ctl"));
    args.push(req.external_controller.clone());
    args
}

pub open spec fn stop_action_spec(pid: u32, outcome: TerminationOutcome, policy: StopPolicy) -> StopAction {
    match outcome {
        TerminationOutcome::Exited => StopAction::Done,
        TerminationOutcome::KillFailed { class, detail } => if policy.force_kill_available {
            StopAction::ForceKill { pid }
        } else {
            StopAction::Fail(SupervisorError::TerminationFailed { pid, class, detail })
        },
        _ => if policy.force_kill_available {
            StopAction::ForceKill { pid }
        } else if policy.escalate_unconfirmed {
            StopAction::Fail(SupervisorError::WaitTimedOut { pid })
        } else {
            StopAction::Done
        },
    }
}

/// Decides what follows a termination attempt on process `pid`: nothing once
/// it exited; otherwise the forceful kill where the platform has one, and
/// else an error (always for an undelivered request, and for an unconfirmed
/// exit when the policy escalates).
pub fn decide_after_termination(pid: u32, outcome: TerminationOutcome, policy: StopPolicy) -> (r:
    StopAction)
    ensures
        r == stop_action_spec(pid, outcome, policy),
{
    match outcome {
        TerminationOutcome::Exited => StopAction::Done,
        TerminationOutcome::KillFailed { class, detail } => {
            if policy.force_kill_available {
                StopAction::ForceKill { pid }
            } else {
                StopAction::Fail(SupervisorError::TerminationFailed { pid, class, detail })
            }
        },
        _ => {
            if policy.force_kill_available {
                StopAction::ForceKill { pid }
            } else if policy.escalate_unconfirmed {
                StopAction::Fail(SupervisorError::WaitTimedOut { pid })
            } else {
                StopAction::Done
            }
        },
    }
}

/// Whole seconds from `started_at_ms` to `now_ms` (zero if the clock reads earlier).
pub open spec fn uptime_secs(started_at_ms: u64, now_ms: u64) -> u64 {
    if now_ms >= started_at_ms {
        ((now_ms - started_at_ms) / 1000) as u64
    } else {
        0
    }
}

/// Whether the tracked state `v` still has a live process after `probe`.
pub open spec fn running_after(v: Option<ManagedProcess>, probe: ExitProbe) -> bool {
    v is Some && probe == ExitProbe::StillRunning
}

/// What is tracked after reconciling `v` with `probe`.
pub open spec fn tracked_after(v: Option<ManagedProcess>, probe: ExitProbe) -> Option<
    ManagedProcess,
> {
    if running_after(v, probe) {
        v
    } else {
        None
    }
}

/// The snapshot of `v` at `now_ms`, given whether it is running.
pub open spec fn status_of(v: Option<ManagedProcess>, running: bool, now_ms: u64) -> ClashStatus {
    if running && v is Some {
        ClashStatus {
            is_running: true,
            pid: Some(v->0.pid),
            uptime: uptime_secs(v->0.started_at_ms, now_ms),
        }
    } else {
        ClashStatus { is_running: false, pid: None, uptime: 0 }
    }
}

/// The supervisor's record of the managed process: at most one handle, which
/// a new one may only replace after the old one was stopped.
pub struct ProcessTracker {
    current: Option<ManagedProcess>,
}

impl View for ProcessTracker {
    type V = Option<ManagedProcess>;

    closed spec fn view(&self) -> Option<ManagedProcess> {
        self.current
    }
}

impl ProcessTracker {
    /// A tracker with nothing under supervision.
    pub fn new() -> (r: ProcessTracker)
        ensures
            r@ is None,
    {
        ProcessTracker { current: None }
    }

    /// The process identifier of the tracked process, if any.
    pub fn tracked_pid(&self) -> (r: Option<u32>)
        ensures
            r == (if self@ is Some {
                Some(self@->0.pid)
            } else {
                None::<u32>
            }),
    {
        match &self.current {
            Some(p) => Some(p.pid),
            None => None,
        }
    }

    /// Records the process just spawned for `req`. Any earlier handle must
    /// have been given up through `begin_stop` first.
    pub fn record_started(&mut self, req: StartRequest, pid: u32, now_ms: u64)
        requires
            old(self)@ is None,
        ensures
            final(self)@ == Some(
                ManagedProcess {
                    core_path: req.core_path,
                    config_path: req.config_path,
                    data_dir: req.data_dir,
                    external_controller: req.external_controller,
                    pid,
                    started_at_ms: now_ms,
                },
            ),
    {
        self.current = Some(
            ManagedProcess {
                core_path: req.core_path,
                config_path: req.config_path,
                data_dir: req.data_dir,
                external_controller: req.external_controller,
                pid,
                started_at_ms: now_ms,
            },
        );
    }

    /// Gives up the tracked handle, whatever the termination that follows
    /// achieves, and returns the process to terminate. With nothing tracked
    /// it changes nothing and returns `None`.
    pub fn begin_stop(&mut self) -> (r: Option<u32>)
        ensures
            final(self)@ is None,
            old(self)@ is None ==> r is None,
            old(self)@ is Some ==> r == Some(old(self)@->0.pid),
    {
        match self.current.take() {
            Some(p) => Some(p.pid),
            None => None,
        }
    }

    /// Reconciles the record with what the operating system reported: a
    /// process that exited, or whose state cannot be read, is forgotten.
    pub fn is_running(&mut self, probe: ExitProbe) -> (r: bool)
        ensures
            r == running_after(old(self)@, probe),
            final(self)@ == tracked_after(old(self)@, probe),
    {
        if self.current.is_some() {
            match probe {
                ExitProbe::StillRunning => true,
                _ => {
                    self.current = None;
                    false
                },
            }
        } else {
            false
        }
    }

    /// Reconciles as `is_running` does, then reports the process at `now_ms`.
    pub fn get_status(&mut self, probe: ExitProbe, now_ms: u64) -> (r: ClashStatus)
        ensures
            final(self)@ == tracked_after(old(self)@, probe),
            r == status_of(old(self)@, running_after(old(self)@, probe), now_ms),
    {
        let running = self.is_running(probe);
        match &self.current {
            Some(p) if running => {
                let uptime: u64 = if now_ms >= p.started_at_ms {
                    (now_ms - p.started_at_ms) / 1000
                } else {
                    0
                };
                ClashStatus { is_running: true, pid: Some(p.pid), uptime }
            },
            _ => ClashStatus { is_running: false, pid: None, uptime: 0 },
        }
    }
}

/// After a stop, however its termination went, no process is reported as
/// running, whatever the operating system says next.
pub proof fn lemma_stopped_is_not_running(probe: ExitProbe)
    ensures
        !running_after(None, probe),
        tracked_after(None, probe) is None,
        status_of(None, running_after(None, probe), 0) == (ClashStatus {
            is_running: false,
            pid: None,
            uptime: 0,
        }),
{
}

} // verus!
