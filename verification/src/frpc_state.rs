//! The connection state machine between frpc and frps, and the log buffer.
//!
//! The state is derived from frpc's own web server (`/api/status`), polled every
//! 3 s by the application:
//! - the child has exited, or a newer polling round has taken over: stop polling;
//! - some proxy reports `status = "running"`: `Connected` (the error is cleared);
//! - `Connected` lost (no proxy running): back to `Connecting`, with a fresh start
//!   time, which gives frpc 30 s to recover;
//! - otherwise by the time since the start: within 30 s `Connecting`, past it `Error`.

use std::collections::VecDeque;
use vstd::prelude::*;
use crate::text::{chars_eq, chars_of};

verus! {

/// Number of log lines kept for the log window.
pub const LOG_BUFFER_LIMIT: usize = 500;

/// One log line and the stream it came from (`stdout`, `stderr`, `system`).
#[derive(Clone, Debug)]
pub struct LogEntry {
    pub line: String,
    pub stream: String,
}

impl View for LogEntry {
    type V = (Seq<char>, Seq<char>);

    open spec fn view(&self) -> (Seq<char>, Seq<char>) {
        (self.line@, self.stream@)
    }
}

impl LogEntry {
    /// A copy of this entry.
    pub fn duplicate(&self) -> (r: LogEntry)
        ensures
            r == *self,
    {
        LogEntry { line: self.line.clone(), stream: self.stream.clone() }
    }
}

/// The last `n` elements of `s` (all of `s` when it is shorter).
pub open spec fn keep_last<T>(s: Seq<T>, n: nat) -> Seq<T> {
    if s.len() > n {
        s.skip(s.len() - n)
    } else {
        s
    }
}

/// The most recent frpc log lines, oldest first, at most `LOG_BUFFER_LIMIT` of them.
pub struct LogBuffer {
    entries: VecDeque<LogEntry>,
}

impl View for LogBuffer {
    type V = Seq<(Seq<char>, Seq<char>)>;

    closed spec fn view(&self) -> Seq<(Seq<char>, Seq<char>)> {
        self.entries@.map_values(|e: LogEntry| e@)
    }
}

impl LogBuffer {
    /// An empty buffer.
    pub fn new() -> (r: LogBuffer)
        ensures
            r@ == Seq::<(Seq<char>, Seq<char>)>::empty(),
    {
        LogBuffer { entries: VecDeque::new() }
    }

    /// Number of lines held.
    pub fn len(&self) -> (r: usize)
        ensures
            r == self@.len(),
    {
        self.entries.len()
    }

    /// All lines held, oldest first: what the log window loads when it opens.
    pub fn snapshot(&self) -> (r: Vec<LogEntry>)
        ensures
            r@.map_values(|e: LogEntry| e@) == self@,
    {
        let mut out: Vec<LogEntry> = Vec::new();
        let mut i: usize = 0;
        while i < self.entries.len()
            invariant
                0 <= i <= self.entries@.len(),
                out@ == self.entries@.take(i as int),
            decreases self.entries@.len() - i,
        {
            out.push(self.entries[i].duplicate());
            i = i + 1;
            assert(out@ == self.entries@.take(i as int));
        }
        assert(self.entries@.take(self.entries@.len() as int) == self.entries@);
        out
    }
}

/// Appends a line to the buffer and drops the oldest lines beyond
/// `LOG_BUFFER_LIMIT`.
pub fn push_log(buf: &mut LogBuffer, line: String, stream: &str)
    ensures
        final(buf)@ == keep_last(old(buf)@.push((line@, stream@)), LOG_BUFFER_LIMIT as nat),
        final(buf)@.len() <= LOG_BUFFER_LIMIT,
{
    let entry = LogEntry { line, stream: String::from_str(stream) };
    let ghost pushed = buf.entries@.push(entry);
    buf.entries.push_back(entry);
    assert(pushed.skip(0) == pushed);
    while buf.entries.len() > LOG_BUFFER_LIMIT
        invariant
            buf.entries@ == pushed.skip(pushed.len() - buf.entries@.len()),
            buf.entries@.len() <= pushed.len(),
            pushed.len() > LOG_BUFFER_LIMIT ==> buf.entries@.len() >= LOG_BUFFER_LIMIT,
            pushed.len() <= LOG_BUFFER_LIMIT ==> buf.entries@.len() == pushed.len(),
        decreases buf.entries@.len(),
    {
        buf.entries.pop_front();
        assert(buf.entries@ == pushed.skip(pushed.len() - buf.entries@.len()));
    }
    assert(pushed.map_values(|e: LogEntry| e@) == old(buf)@.push((line@, stream@)));
    assert(keep_last(pushed, LOG_BUFFER_LIMIT as nat).map_values(|e: LogEntry| e@) =~= keep_last(
        pushed.map_values(|e: LogEntry| e@), LOG_BUFFER_LIMIT as nat));
}

} // verus!

verus! {

/// The connection state between frpc and frps. `Connected` is the only source
/// of truth for success: some proxy must report `status = "running"`.
#[derive(Clone, Copy, PartialEq, Eq, Structural)]
pub enum FrpcConnState {
    Stopped,
    Connecting,
    Connected,
    Error,
}

/// The lowercase name of a state, as sent to the front end.
pub open spec fn state_name(s: FrpcConnState) -> Seq<char> {
    match s {
        FrpcConnState::Stopped => "stopped"@,
        FrpcConnState::Connecting => "connecting"@,
        FrpcConnState::Connected => "connected"@,
        FrpcConnState::Error => "error"@,
    }
}

impl FrpcConnState {
    /// The lowercase name of the state.
    pub fn as_str(self) -> (r: &'static str)
        ensures
            r@ == state_name(self),
    {
        match self {
            FrpcConnState::Stopped => "stopped",
            FrpcConnState::Connecting => "connecting",
            FrpcConnState::Connected => "connected",
            FrpcConnState::Error => "error",
        }
    }
}

impl Default for FrpcConnState {
    fn default() -> (r: Self)
        ensures
            r == FrpcConnState::Stopped,
    {
        FrpcConnState::Stopped
    }
}

/// The payload of the `frpc://status` event and of the `frpc_status` command.
#[derive(Clone, Debug)]
pub struct StatusPayload {
    pub status: String,
    pub error: Option<String>,
}

/// How long frpc may stay unconnected after a start before the state becomes
/// `Error`: 30 s, in nanoseconds of the application's monotonic clock.
pub const CONNECT_TIMEOUT_NS: u64 = 30_000_000_000;

/// The message shown when frpc has not connected within the grace period.
pub open spec fn timeout_message() -> Seq<char> {
    "frpc 启动 30 秒内未连接到服务端，请检查地址 / 端口 / Token"@
}

/// The connection fields of the shared state.
///
/// Times are nanoseconds on the application's monotonic clock.
pub struct ConnTracker {
    /// The current connection state.
    pub conn: FrpcConnState,
    /// The message shown while in `Error`.
    pub error_msg: Option<String>,
    /// When frpc was started (or lost its connection); the 30 s grace period
    /// runs from here.
    pub started_at: Option<u64>,
    /// Bumped by every `mark_connecting`; an older polling round stops when it
    /// sees a different value.
    pub poll_gen: u64,
}

/// The view of the error message.
pub open spec fn error_view(t: ConnTracker) -> Option<Seq<char>> {
    match t.error_msg {
        Some(m) => Some(m@),
        None => None,
    }
}

/// Time elapsed since `started` at time `now`; zero without a start time, and
/// zero when `now` is earlier (as `Instant::elapsed` saturates).
pub open spec fn elapsed(started: Option<u64>, now: u64) -> nat {
    match started {
        Some(t) => if now >= t { (now - t) as nat } else { 0 },
        None => 0,
    }
}

/// The state that one poll derives.
pub open spec fn next_conn(cur: FrpcConnState, running: bool, elapsed: nat) -> FrpcConnState {
    if running {
        FrpcConnState::Connected
    } else if cur == FrpcConnState::Connected {
        FrpcConnState::Connecting
    } else if elapsed > CONNECT_TIMEOUT_NS {
        FrpcConnState::Error
    } else {
        FrpcConnState::Connecting
    }
}

/// What `reset_to_stopped` does to the tracker.
pub open spec fn reset_rel(old: ConnTracker, new: ConnTracker) -> bool {
    &&& new.conn == FrpcConnState::Stopped
    &&& error_view(new) is None
    &&& new.started_at is None
    &&& new.poll_gen == old.poll_gen
}

/// What `mark_connecting` at time `now` does to the tracker.
pub open spec fn connecting_rel(old: ConnTracker, new: ConnTracker, now: u64) -> bool {
    &&& new.conn == FrpcConnState::Connecting
    &&& error_view(new) is None
    &&& new.started_at == Some(now)
    &&& new.poll_gen == vstd::wrapping::u64_specs::wrapping_add(old.poll_gen, 1)
}

/// What one poll, seeing `running` at time `now`, does to the tracker; the
/// result tells whether the state changed (and is to be broadcast).
pub open spec fn poll_rel(old: ConnTracker, new: ConnTracker, running: bool, now: u64, changed: bool) -> bool {
    let next = next_conn(old.conn, running, elapsed(old.started_at, now));
    &&& new.conn == next
    &&& new.poll_gen == old.poll_gen
    &&& new.started_at == (if !running && old.conn == FrpcConnState::Connected {
        Some(now)
    } else {
        old.started_at
    })
    &&& error_view(new) == (if next != old.conn {
        match next {
            FrpcConnState::Error => Some(timeout_message()),
            FrpcConnState::Connected => None,
            _ => error_view(old),
        }
    } else {
        error_view(old)
    })
    &&& changed == (next != old.conn)
}

impl ConnTracker {
    /// The initial tracker: `Stopped`, no error, no start time, generation 0.
    pub fn new() -> (r: ConnTracker)
        ensures
            r.conn == FrpcConnState::Stopped,
            error_view(r) is None,
            r.started_at is None,
            r.poll_gen == 0,
    {
        ConnTracker { conn: FrpcConnState::Stopped, error_msg: None, started_at: None, poll_gen: 0 }
    }

    /// The status payload derived from the tracker.
    pub fn status_payload(&self) -> (r: StatusPayload)
        ensures
            r.status@ == state_name(self.conn),
            r.error == self.error_msg,
    {
        StatusPayload { status: String::from_str(self.conn.as_str()), error: self.error_msg.clone() }
    }

    /// Whether a polling round started at generation `my_gen` goes on: it stops
    /// once the child has exited or a newer round has taken over.
    pub fn poll_continues(&self, my_gen: u64, child_alive: bool) -> (r: bool)
        ensures
            r == (self.poll_gen == my_gen && child_alive),
    {
        self.poll_gen == my_gen && child_alive
    }

    /// Applies one poll: `running` tells whether frpc reports a running proxy,
    /// `now` is the current time. Returns whether the state changed.
    pub fn apply_poll(&mut self, running: bool, now: u64) -> (changed: bool)
        ensures
            poll_rel(*old(self), *final(self), running, now, changed),
    {
        let cur = self.conn;
        let elapsed: u64 = match self.started_at {
            Some(t) => if now >= t { now - t } else { 0 },
            None => 0,
        };
        let new = if running {
            FrpcConnState::Connected
        } else if cur == FrpcConnState::Connected {
            self.started_at = Some(now);
            FrpcConnState::Connecting
        } else if elapsed > CONNECT_TIMEOUT_NS {
            FrpcConnState::Error
        } else {
            FrpcConnState::Connecting
        };
        if new != cur {
            self.conn = new;
            match new {
                FrpcConnState::Error => {
                    self.error_msg = Some(
                        String::from_str("frpc 启动 30 秒内未连接到服务端，请检查地址 / 端口 / Token"),
                    );
                },
                FrpcConnState::Connected => {
                    self.error_msg = None;
                },
                _ => {},
            }
            true
        } else {
            false
        }
    }
}

/// Resets the connection fields to `Stopped`; called when frpc is stopped or exits.
pub fn reset_to_stopped(state: &mut ConnTracker)
    ensures
        reset_rel(*old(state), *final(state)),
{
    state.conn = FrpcConnState::Stopped;
    state.error_msg = None;
    state.started_at = None;
}

/// Switches to `Connecting`, records the start time and bumps the generation,
/// so that an older polling round stops at its next turn. Called after frpc
/// was spawned.
pub fn mark_connecting(state: &mut ConnTracker, now: u64)
    ensures
        connecting_rel(*old(state), *final(state), now),
{
    state.conn = FrpcConnState::Connecting;
    state.error_msg = None;
    state.started_at = Some(now);
    state.poll_gen = state.poll_gen.wrapping_add(1);
}

/// The part of frpc's `/api/status` answer that is read: `None` when the answer
/// is not a JSON object; otherwise one element per member, `None` when the
/// member is not an array, else the `status` of each of its items (when a string).
pub type ApiStatus = Option<Vec<Option<Vec<Option<String>>>>>;

/// Whether the answer reports some proxy with `status = "running"`.
pub open spec fn reports_running(body: ApiStatus) -> bool {
    match body {
        None => false,
        Some(groups) => exists|i: int, j: int|
            #![trigger groups@[i], groups@[i]->0@[j]]
            0 <= i < groups@.len() && groups@[i] is Some && 0 <= j < groups@[i]->0@.len()
                && groups@[i]->0@[j] is Some && groups@[i]->0@[j]->0@ == "running"@,
    }
}

/// Whether frpc's `/api/status` answer holds a proxy with `status = "running"`.
/// The answer is grouped by proxy type (tcp/http/udp/...), each group an array.
pub fn has_running_proxy(body: &ApiStatus) -> (r: bool)
    ensures
        r == reports_running(*body),
{
    let running = chars_of("running");
    match body {
        None => false,
        Some(groups) => {
            let mut i: usize = 0;
            while i < groups.len()
                invariant
                    0 <= i <= groups@.len(),
                    *body == Some(*groups),
                    running@ == "running"@,
                    forall|a: int, b: int|
                        #![trigger groups@[a], groups@[a]->0@[b]]
                        0 <= a < i && groups@[a] is Some && 0 <= b < groups@[a]->0@.len()
                            && groups@[a]->0@[b] is Some ==> groups@[a]->0@[b]->0@ != "running"@,
                decreases groups@.len() - i,
            {
                if let Some(list) = &groups[i] {
                    let mut j: usize = 0;
                    while j < list.len()
                        invariant
                            0 <= i < groups@.len(),
                            *body == Some(*groups),
                            groups@[i as int] == Some(*list),
                            0 <= j <= list@.len(),
                            running@ == "running"@,
                            forall|b: int|
                                0 <= b < j && (#[trigger] list@[b]) is Some ==> list@[b]->0@ != "running"@,
                        decreases list@.len() - j,
                    {
                        if let Some(s) = &list[j] {
                            let c = chars_of(s.as_str());
                            if chars_eq(c.as_slice(), running.as_slice()) {
                                assert(groups@[i as int]->0@ == list@);
                                assert(list@[j as int] == Some(*s));
                                assert(groups@[i as int]->0@[j as int]->0@ == "running"@);
                                return true;
                            }
                        }
                        j = j + 1;
                    }
                }
                i = i + 1;
            }
            false
        },
    }
}

} // verus!

verus! {

/// The tracker never shows an error message while connected.
pub open spec fn clean_when_connected(t: ConnTracker) -> bool {
    t.conn == FrpcConnState::Connected ==> error_view(t) is None
}

/// An error message is shown exactly in `Error`, and it is the timeout message.
pub open spec fn message_matches_state(t: ConnTracker) -> bool {
    &&& (error_view(t) is Some <==> t.conn == FrpcConnState::Error)
    &&& (t.conn == FrpcConnState::Error ==> error_view(t) == Some(timeout_message())
        && t.started_at is Some)
}

/// The clock has not gone back to within the grace period of a start that
/// already timed out (always so for a monotonic clock).
pub open spec fn clock_consistent(t: ConnTracker, now: u64) -> bool {
    t.conn == FrpcConnState::Error ==> elapsed(t.started_at, now) > CONNECT_TIMEOUT_NS
}

/// Law: every operation keeps "no error message while connected".
pub proof fn law_connected_is_clean(
    old: ConnTracker,
    reset: ConnTracker,
    started: ConnTracker,
    polled: ConnTracker,
    running: bool,
    now: u64,
    changed: bool,
)
    requires
        clean_when_connected(old),
        reset_rel(old, reset),
        connecting_rel(old, started, now),
        poll_rel(old, polled, running, now, changed),
    ensures
        clean_when_connected(reset),
        clean_when_connected(started),
        clean_when_connected(polled),
{
}

/// Law: every operation keeps "an error message exactly in `Error`", polls
/// provided the clock is monotonic.
pub proof fn law_message_matches_state(
    old: ConnTracker,
    reset: ConnTracker,
    started: ConnTracker,
    polled: ConnTracker,
    running: bool,
    now: u64,
    changed: bool,
)
    requires
        message_matches_state(old),
        clock_consistent(old, now),
        reset_rel(old, reset),
        connecting_rel(old, started, now),
        poll_rel(old, polled, running, now, changed),
    ensures
        message_matches_state(reset),
        message_matches_state(started),
        message_matches_state(polled),
{
}

/// Law: `Connected` is derived from frpc's evidence alone. A poll that sees a
/// running proxy yields `Connected` without an error (from any tracker that
/// shows none while connected); one that sees none never yields `Connected`.
pub proof fn law_connected_iff_running(old: ConnTracker, new: ConnTracker, running: bool, now: u64, changed: bool)
    requires
        clean_when_connected(old),
        poll_rel(old, new, running, now, changed),
    ensures
        running ==> new.conn == FrpcConnState::Connected && error_view(new) is None,
        !running ==> new.conn != FrpcConnState::Connected,
{
}

/// Law: a new start takes over from the previous polling round, which stops at
/// its next turn.
pub proof fn law_new_round_takes_over(old: ConnTracker, new: ConnTracker, now: u64, child_alive: bool)
    requires
        connecting_rel(old, new, now),
    ensures
        !(new.poll_gen == old.poll_gen && child_alive),
{
}

/// Law: after a start, frpc has 30 s to connect; a poll without a running proxy
/// keeps `Connecting` within that time and turns to `Error` (with the timeout
/// message) after it.
pub proof fn law_start_grace_period(
    old: ConnTracker,
    started: ConnTracker,
    polled: ConnTracker,
    t0: u64,
    t1: u64,
    changed: bool,
)
    requires
        connecting_rel(old, started, t0),
        poll_rel(started, polled, false, t1, changed),
        t0 <= t1,
    ensures
        t1 - t0 <= CONNECT_TIMEOUT_NS ==> polled.conn == FrpcConnState::Connecting && !changed,
        t1 - t0 > CONNECT_TIMEOUT_NS ==> polled.conn == FrpcConnState::Error && changed
            && error_view(polled) == Some(timeout_message()),
{
}

/// Law: a lost connection falls back to `Connecting` and gets a fresh 30 s to
/// recover, counted from the poll that noticed the loss.
pub proof fn law_lost_connection_grace(
    connected: ConnTracker,
    lost: ConnTracker,
    later: ConnTracker,
    t1: u64,
    t2: u64,
    c1: bool,
    c2: bool,
)
    requires
        connected.conn == FrpcConnState::Connected,
        poll_rel(connected, lost, false, t1, c1),
        poll_rel(lost, later, false, t2, c2),
        t1 <= t2,
    ensures
        lost.conn == FrpcConnState::Connecting && c1,
        lost.started_at == Some(t1),
        t2 - t1 <= CONNECT_TIMEOUT_NS ==> later.conn == FrpcConnState::Connecting,
        t2 - t1 > CONNECT_TIMEOUT_NS ==> later.conn == FrpcConnState::Error,
{
}

} // verus!
