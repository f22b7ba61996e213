//! The client side of the channel: its settings and the retry discipline of
//! one `send_command` call. The caller performs each transport attempt and
//! reports its outcome; the session says whether to retry, after which
//! backoff, or what to return.
use crate::protocol::{FrameError, IpcResponse};
use vstd::prelude::*;

verus! {

/// Timeout applied to each stage of an exchange by default, in milliseconds.
pub const DEFAULT_TIMEOUT_MS: u64 = 5000;

/// Retries after the first attempt, by default.
pub const DEFAULT_MAX_RETRIES: usize = 3;

/// Timeout of the liveness probe, in milliseconds.
pub const PROBE_TIMEOUT_MS: u64 = 500;

/// Backoff step: the k-th retry waits k times this many milliseconds.
pub const BACKOFF_STEP_MS: u64 = 100;

/// A failed call, whether the transport failed or the daemon refused.
pub enum IpcError {
    ConnectionFailed(String),
    Timeout,
    Io(String),
    Serialization(String),
    Frame(FrameError),
    /// The daemon answered with an `Error` response.
    ServiceError(i32, String),
}

/// Settings of a client.
pub struct IpcClient {
    timeout_ms: u64,
    max_retries: usize,
}

/// How one transport attempt ended.
pub enum AttemptOutcome {
    /// A frame was exchanged and decoded.
    Reply(IpcResponse),
    /// Connecting, writing, reading or decoding failed, or a stage timed out.
    Failed(IpcError),
}

/// What the caller does next.
pub enum ClientStep {
    /// Wait `backoff_ms`, then make attempt number `attempt` (counted from 0).
    Retry { attempt: usize, backoff_ms: u64 },
    /// Return this from `send_command`.
    Finish(Result<IpcResponse, IpcError>),
}

/// The state of one `send_command` call.
pub struct SendSession {
    max_retries: usize,
    failures: usize,
}

/// The backoff before retry number `k` (from 1): `100 * k` milliseconds,
/// held at the largest `u64`.
pub open spec fn backoff_for(k: nat) -> u64 {
    if BACKOFF_STEP_MS * k <= u64::MAX {
        (BACKOFF_STEP_MS * k) as u64
    } else {
        u64::MAX
    }
}

/// The step that follows `outcome`, after `failures` earlier failed attempts.
pub open spec fn step_spec(max_retries: nat, failures: nat, outcome: AttemptOutcome) -> ClientStep {
    match outcome {
        AttemptOutcome::Reply(IpcResponse::Error { code, message }) => ClientStep::Finish(
            Err(IpcError::ServiceError(code, message)),
        ),
        AttemptOutcome::Reply(resp) => ClientStep::Finish(Ok(resp)),
        AttemptOutcome::Failed(e) => if failures + 1 > max_retries {
            ClientStep::Finish(Err(e))
        } else {
            ClientStep::Retry {
                attempt: (failures + 1) as usize,
                backoff_ms: backoff_for(failures + 1),
            }
        },
    }
}

/// The number of transport attempts a call makes when its attempts end in
/// `outcomes`, in turn, after `failures` failed attempts.
pub open spec fn attempts_made(max_retries: nat, failures: nat, outcomes: Seq<AttemptOutcome>) -> nat
    decreases outcomes.len(),
{
    if outcomes.len() == 0 {
        0
    } else {
        match step_spec(max_retries, failures, outcomes[0]) {
            ClientStep::Finish(_) => 1,
            ClientStep::Retry { .. } => 1 + attempts_made(
                max_retries,
                failures + 1,
                outcomes.drop_first(),
            ),
        }
    }
}

/// Whether a call's result is the clean acknowledgement of a heartbeat.
pub open spec fn is_ack(result: Result<IpcResponse, IpcError>) -> bool {
    match result {
        Ok(IpcResponse::HeartbeatAck) => true,
        _ => false,
    }
}

impl IpcClient {
    pub closed spec fn timeout_spec(&self) -> u64 {
        self.timeout_ms
    }

    pub closed spec fn max_retries_spec(&self) -> usize {
        self.max_retries
    }

    /// A client with a 5 s timeout and 3 retries.
    pub fn new() -> (r: IpcClient)
        ensures
            r.timeout_spec() == DEFAULT_TIMEOUT_MS,
            r.max_retries_spec() == DEFAULT_MAX_RETRIES,
    {
        IpcClient { timeout_ms: DEFAULT_TIMEOUT_MS, max_retries: DEFAULT_MAX_RETRIES }
    }

    /// The same client with the per-stage timeout set to `timeout_ms`.
    pub fn with_timeout(self, timeout_ms: u64) -> (r: IpcClient)
        ensures
            r.timeout_spec() == timeout_ms,
            r.max_retries_spec() == self.max_retries_spec(),
    {
        IpcClient { timeout_ms, max_retries: self.max_retries }
    }

    /// The same client with at most `max_retries` retries per call.
    pub fn with_max_retries(self, max_retries: usize) -> (r: IpcClient)
        ensures
            r.max_retries_spec() == max_retries,
            r.timeout_spec() == self.timeout_spec(),
    {
        IpcClient { timeout_ms: self.timeout_ms, max_retries }
    }

    /// The per-stage timeout in milliseconds.
    pub fn timeout_ms(&self) -> (r: u64)
        ensures
            r == self.timeout_spec(),
    {
        self.timeout_ms
    }

    /// The most retries a call makes after its first attempt.
    pub fn max_retries(&self) -> (r: usize)
        ensures
            r == self.max_retries_spec(),
    {
        self.max_retries
    }

    /// Opens the session of one call; the caller then makes attempt 0.
    pub fn begin_send(&self) -> (r: SendSession)
        ensures
            r.max_retries_spec() == self.max_retries_spec(),
            r.failures_spec() == 0,
    {
        SendSession { max_retries: self.max_retries, failures: 0 }
    }
}

impl Default for IpcClient {
    /// The same as `IpcClient::new()`.
    fn default() -> (r: IpcClient)
        ensures
            r.timeout_spec() == DEFAULT_TIMEOUT_MS,
            r.max_retries_spec() == DEFAULT_MAX_RETRIES,
    {
        IpcClient::new()
    }
}

impl SendSession {
    pub closed spec fn max_retries_spec(&self) -> usize {
        self.max_retries
    }

    /// Failed attempts so far.
    pub closed spec fn failures_spec(&self) -> usize {
        self.failures
    }

    /// Takes the outcome of the latest attempt. An `Error` reply ends the call
    /// at once as a service error; any other reply ends it successfully; a
    /// transport failure is retried after a backoff of 100 ms times the retry
    /// number until the retries are spent, and then ends the call with that
    /// latest failure.
    pub fn on_outcome(&mut self, outcome: AttemptOutcome) -> (r: ClientStep)
        requires
            old(self).failures_spec() <= old(self).max_retries_spec(),
        ensures
            r == step_spec(
                old(self).max_retries_spec() as nat,
                old(self).failures_spec() as nat,
                outcome,
            ),
            final(self).max_retries_spec() == old(self).max_retries_spec(),
            final(self).failures_spec() <= final(self).max_retries_spec(),
            r is Retry ==> final(self).failures_spec() == old(self).failures_spec() + 1,
    {
        match outcome {
            AttemptOutcome::Reply(resp) => {
                match resp {
                    IpcResponse::Error { code, message } => ClientStep::Finish(
                        Err(IpcError::ServiceError(code, message)),
                    ),
                    other => ClientStep::Finish(Ok(other)),
                }
            },
            AttemptOutcome::Failed(e) => {
                if self.failures >= self.max_retries {
                    ClientStep::Finish(Err(e))
                } else {
                    self.failures = self.failures + 1;
                    let backoff_ms: u64 = if self.failures as u64 <= u64::MAX / BACKOFF_STEP_MS {
                        BACKOFF_STEP_MS * self.failures as u64
                    } else {
                        u64::MAX
                    };
                    ClientStep::Retry { attempt: self.failures, backoff_ms }
                }
            },
        }
    }
}

/// Whether a probe's result shows a running daemon: only a clean
/// `HeartbeatAck` does; every error or other reply means "not running".
pub fn is_heartbeat_ack(result: &Result<IpcResponse, IpcError>) -> (r: bool)
    ensures
        r == is_ack(*result),
{
    match result {
        Ok(IpcResponse::HeartbeatAck) => true,
        _ => false,
    }
}

/// A client configured with `n` retries makes at most `n + 1` transport
/// attempts in one call, whatever the attempts' outcomes.
pub proof fn lemma_attempts_bounded(n: nat, failures: nat, outcomes: Seq<AttemptOutcome>)
    requires
        failures <= n,
    ensures
        attempts_made(n, failures, outcomes) <= n + 1 - failures,
    decreases outcomes.len(),
{
    if outcomes.len() > 0 {
        match step_spec(n, failures, outcomes[0]) {
            ClientStep::Finish(_) => {},
            ClientStep::Retry { .. } => {
                lemma_attempts_bounded(n, failures + 1, outcomes.drop_first());
            },
        }
    }
}

/// The backoffs between attempts never decrease: a later retry waits at
/// least as long as an earlier one.
pub proof fn lemma_backoff_non_decreasing(j: nat, k: nat)
    requires
        j <= k,
    ensures
        backoff_for(j) <= backoff_for(k),
{
    assert(BACKOFF_STEP_MS * j <= BACKOFF_STEP_MS * k) by (nonlinear_arith)
        requires
            j <= k,
    ;
}

/// An `Error` reply is never retried: the attempt that received it is the
/// last one, and the call fails with the daemon's code and message.
pub proof fn lemma_error_reply_not_retried(
    n: nat,
    failures: nat,
    outcomes: Seq<AttemptOutcome>,
    code: i32,
    message: String,
)
    requires
        outcomes.len() > 0,
        outcomes[0] == AttemptOutcome::Reply(IpcResponse::Error { code, message }),
    ensures
        attempts_made(n, failures, outcomes) == 1,
        step_spec(n, failures, outcomes[0]) == ClientStep::Finish(
            Err(IpcError::ServiceError(code, message)),
        ),
{
}

} // verus!
