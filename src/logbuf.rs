//! Bounded in-memory log store: the most recent log lines, oldest first.
use std::collections::VecDeque;
use crate::delay::{digit_char, digit_text};
use vstd::prelude::*;

verus! {

/// The number of lines the store keeps; older lines are evicted first.
pub const LOG_CAPACITY: usize = 1000;

/// A FIFO store of formatted log lines that never holds more than
/// `LOG_CAPACITY` of them.
pub struct LogRingBuffer {
    lines: VecDeque<String>,
}

impl View for LogRingBuffer {
    type V = Seq<String>;

    closed spec fn view(&self) -> Seq<String> {
        self.lines@
    }
}

/// What keeping at most `LOG_CAPACITY` of the lines `s` leaves: its newest ones.
pub open spec fn keep_newest(s: Seq<String>) -> Seq<String> {
    if s.len() > LOG_CAPACITY {
        s.subrange(s.len() - LOG_CAPACITY, s.len() as int)
    } else {
        s
    }
}

/// The last `n` lines of `s`, or all of them when there are fewer.
pub open spec fn last_lines(s: Seq<String>, n: nat) -> Seq<String> {
    if s.len() > n {
        s.subrange(s.len() - n, s.len() as int)
    } else {
        s
    }
}

impl LogRingBuffer {
    pub open spec fn wf(&self) -> bool {
        self@.len() <= LOG_CAPACITY
    }

    /// An empty store.
    pub fn new() -> (r: LogRingBuffer)
        ensures
            r@ == Seq::<String>::empty(),
            r.wf(),
    {
        LogRingBuffer { lines: VecDeque::with_capacity(LOG_CAPACITY) }
    }

    /// The number of lines held.
    pub fn len(&self) -> (r: usize)
        ensures
            r == self@.len(),
    {
        self.lines.len()
    }

    /// Appends `line` as the newest line, evicting the oldest line when the
    /// store would otherwise exceed its capacity.
    pub fn push(&mut self, line: String)
        requires
            old(self).wf(),
        ensures
            final(self).wf(),
            final(self)@ == keep_newest(old(self)@.push(line)),
    {
        self.lines.push_back(line);
        if self.lines.len() > LOG_CAPACITY {
            self.lines.pop_front();
        }
    }

    /// The newest `n` lines, oldest first; all lines when fewer are held.
    pub fn recent(&self, n: usize) -> (r: Vec<String>)
        ensures
            r@ == last_lines(self@, n as nat),
    {
        let len = self.lines.len();
        let start: usize = if len > n { len - n } else { 0 };
        let mut out: Vec<String> = Vec::new();
        let mut i: usize = start;
        while i < len
            invariant
                start <= i <= len,
                len == self.lines@.len(),
                out@ == self.lines@.subrange(start as int, i as int),
            decreases len - i,
        {
            out.push(self.lines[i].clone());
            i = i + 1;
        }
        proof {
            assert(self.lines@.subrange(0, len as int) =~= self.lines@);
        }
        out
    }
}

/// The newest `lines` log lines held by `buffer`, oldest first.
pub fn get_recent_logs(buffer: &LogRingBuffer, lines: usize) -> (r: Vec<String>)
    ensures
        r@ == last_lines(buffer@, lines as nat),
{
    buffer.recent(lines)
}

/// `n`, below 100, as two decimal digits.
pub open spec fn two_digits(n: nat) -> Seq<char> {
    seq![digit_char(n / 10), digit_char(n % 10)]
}

fn two_digit_string(n: u32) -> (r: String)
    requires
        n < 100,
    ensures
        r@ == two_digits(n as nat),
{
    let r = String::from_str(digit_text((n / 10) as u64)).concat(digit_text((n % 10) as u64));
    assert(r@ =~= two_digits(n as nat));
    r
}

/// A wall-clock time of day.
pub struct TimeOfDay {
    pub hour: u32,
    pub minute: u32,
    pub second: u32,
}

impl TimeOfDay {
    /// Hours, minutes and seconds that print as two digits each.
    pub open spec fn wf(&self) -> bool {
        self.hour < 100 && self.minute < 100 && self.second < 100
    }
}

/// A stored log line: `[LEVEL] HH:MM:SS target >> message`.
pub open spec fn log_line(level: Seq<char>, at: TimeOfDay, target: Seq<char>, message: Seq<char>) -> Seq<char> {
    "["@ + level + "] "@ + two_digits(at.hour as nat) + ":"@ + two_digits(at.minute as nat) + ":"@
        + two_digits(at.second as nat) + " "@ + target + " >> "@ + message
}

/// Formats one log record as it is stored and streamed.
pub fn format_log_line(level: &str, at: &TimeOfDay, target: &str, message: &str) -> (r: String)
    requires
        at.wf(),
    ensures
        r@ == log_line(level@, *at, target@, message@),
{
    let h = two_digit_string(at.hour);
    let m = two_digit_string(at.minute);
    let sec = two_digit_string(at.second);
    String::from_str("[").concat(level).concat("] ").concat(h.as_str()).concat(":").concat(
        m.as_str(),
    ).concat(":").concat(sec.as_str()).concat(" ").concat(target).concat(" >> ").concat(message)
}

impl LogRingBuffer {
    /// Formats a log record and stores it as the newest line; returns the
    /// line, for the live subscribers.
    pub fn record(
        &mut self,
        level: &str,
        at: &TimeOfDay,
        target: &str,
        message: &str,
    ) -> (r: String)
        requires
            old(self).wf(),
            at.wf(),
        ensures
            r@ == log_line(level@, *at, target@, message@),
            final(self).wf(),
            final(self)@ == keep_newest(old(self)@.push(r)),
    {
        let line = format_log_line(level, at, target, message);
        self.push(line.clone());
        line
    }
}

/// A full store drops exactly its oldest line when a line is pushed, and never
/// holds more than `LOG_CAPACITY` lines.
pub proof fn lemma_full_store_evicts_oldest(s: Seq<String>, line: String)
    requires
        s.len() == LOG_CAPACITY,
    ensures
        keep_newest(s.push(line)).len() == LOG_CAPACITY,
        keep_newest(s.push(line)) == s.drop_first().push(line),
{
    assert(keep_newest(s.push(line)) =~= s.drop_first().push(line));
}

/// Keeping the newest lines never leaves more than `LOG_CAPACITY` of them,
/// and leaves a short sequence as it is.
pub proof fn lemma_keep_newest_bounded(s: Seq<String>)
    ensures
        keep_newest(s).len() <= LOG_CAPACITY,
        s.len() <= LOG_CAPACITY ==> keep_newest(s) == s,
{
}

} // verus!
