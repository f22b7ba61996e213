//! Liveness of the companion application: the time of the last heartbeat and
//! the one-shot decision that the companion is gone.
use vstd::prelude::*;

verus! {

/// Silence longer than this, in milliseconds, means the companion is gone.
pub const HEARTBEAT_TIMEOUT_MS: u64 = 70_000;

/// The period of the monitor's checks, in milliseconds.
pub const CHECK_INTERVAL_MS: u64 = 30_000;

/// The heartbeat state shared by the server (which records heartbeats) and
/// the monitor (which checks them).
pub struct HeartbeatMonitor {
    last_heartbeat_ms: u64,
    triggered: bool,
}

/// The monitor's state as plain values: the time of the last heartbeat and
/// whether shutdown has been signalled.
pub struct MonitorModel {
    pub last: int,
    pub triggered: bool,
}

/// Whether a check at `now` signals shutdown.
pub open spec fn fires(m: MonitorModel, now: int) -> bool {
    !m.triggered && now - m.last > HEARTBEAT_TIMEOUT_MS
}

/// The state after a check at `now`.
pub open spec fn after_check(m: MonitorModel, now: int) -> MonitorModel {
    MonitorModel { last: m.last, triggered: m.triggered || fires(m, now) }
}

/// How many shutdown signals checks at the times `times` emit, when no
/// heartbeat arrives in between.
pub open spec fn signals_emitted(m: MonitorModel, times: Seq<int>) -> nat
    decreases times.len(),
{
    if times.len() == 0 {
        0
    } else {
        (if fires(m, times[0]) {
            1nat
        } else {
            0nat
        }) + signals_emitted(after_check(m, times[0]), times.drop_first())
    }
}

/// The times of `n` checks at the monitor's period after `start`.
pub open spec fn periodic_checks(start: int, n: nat) -> Seq<int> {
    Seq::new(n, |k: int| start + CHECK_INTERVAL_MS * (k + 1))
}

impl HeartbeatMonitor {
    pub closed spec fn model(&self) -> MonitorModel {
        MonitorModel { last: self.last_heartbeat_ms as int, triggered: self.triggered }
    }

    /// A monitor that counts the daemon's start at `now_ms` as a heartbeat.
    pub fn new(now_ms: u64) -> (r: HeartbeatMonitor)
        ensures
            r.model() == (MonitorModel { last: now_ms as int, triggered: false }),
    {
        HeartbeatMonitor { last_heartbeat_ms: now_ms, triggered: false }
    }

    /// Records a heartbeat received at `now_ms`.
    pub fn record_heartbeat(&mut self, now_ms: u64)
        ensures
            final(self).model() == (MonitorModel {
                last: now_ms as int,
                triggered: old(self).model().triggered,
            }),
    {
        self.last_heartbeat_ms = now_ms;
    }

    /// The time of the last heartbeat.
    pub fn last_heartbeat_ms(&self) -> (r: u64)
        ensures
            r as int == self.model().last,
    {
        self.last_heartbeat_ms
    }

    /// Whether shutdown has been signalled.
    pub fn is_triggered(&self) -> (r: bool)
        ensures
            r == self.model().triggered,
    {
        self.triggered
    }

    /// One periodic check at `now_ms`: returns true, once per lifetime, when
    /// more than the timeout has passed since the last heartbeat. It never
    /// touches the heartbeat time.
    pub fn check(&mut self, now_ms: u64) -> (r: bool)
        ensures
            r == fires(old(self).model(), now_ms as int),
            final(self).model() == after_check(old(self).model(), now_ms as int),
    {
        if !self.triggered && now_ms > self.last_heartbeat_ms && now_ms - self.last_heartbeat_ms
            > HEARTBEAT_TIMEOUT_MS {
            self.triggered = true;
            true
        } else {
            false
        }
    }
}

proof fn lemma_triggered_stays_silent(m: MonitorModel, times: Seq<int>)
    requires
        m.triggered,
    ensures
        signals_emitted(m, times) == 0,
    decreases times.len(),
{
    if times.len() > 0 {
        lemma_triggered_stays_silent(after_check(m, times[0]), times.drop_first());
    }
}

/// However many checks run, shutdown is signalled at most once.
pub proof fn lemma_signal_at_most_once(m: MonitorModel, times: Seq<int>)
    ensures
        signals_emitted(m, times) <= 1,
    decreases times.len(),
{
    if times.len() > 0 {
        if fires(m, times[0]) {
            lemma_triggered_stays_silent(after_check(m, times[0]), times.drop_first());
        } else {
            lemma_signal_at_most_once(after_check(m, times[0]), times.drop_first());
        }
    }
}

/// When any check runs more than the timeout after the last heartbeat, and
/// shutdown was not yet signalled, it is signalled exactly once.
pub proof fn lemma_signal_exactly_once(m: MonitorModel, times: Seq<int>, i: int)
    requires
        !m.triggered,
        0 <= i < times.len(),
        times[i] - m.last > HEARTBEAT_TIMEOUT_MS,
    ensures
        signals_emitted(m, times) == 1,
    decreases times.len(),
{
    if fires(m, times[0]) {
        lemma_triggered_stays_silent(after_check(m, times[0]), times.drop_first());
    } else {
        assert(i > 0);
        assert(times.drop_first()[i - 1] == times[i]);
        lemma_signal_exactly_once(after_check(m, times[0]), times.drop_first(), i - 1);
    }
}

/// With checks every 30 s and no heartbeat since `m.last`, three checks
/// (90 s of silence) are enough: shutdown is signalled exactly once, however
/// many more checks follow.
pub proof fn lemma_silence_signals_once(m: MonitorModel, n: nat)
    requires
        !m.triggered,
        n >= 3,
    ensures
        signals_emitted(m, periodic_checks(m.last, n)) == 1,
{
    let times = periodic_checks(m.last, n);
    assert(times[2] == m.last + CHECK_INTERVAL_MS * 3);
    lemma_signal_exactly_once(m, times, 2);
}

} // verus!
