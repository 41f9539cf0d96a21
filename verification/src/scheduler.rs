//! The weekly scheduler that starts and stops frpc.
//!
//! - Idempotent: a start trigger is skipped while frpc runs, a stop trigger
//!   while it does not, so a manual override is not fought.
//! - Minute-aligned: the application wakes at each full minute and compares the
//!   local "HH:MM" with the start and stop times.
//! - Interval semantics: within `[start, stop)` every tick tries to start, at or
//!   after `stop` every tick tries to stop, so a late or skipped tick is caught up
//!   by the next one while still inside the window.
//! - Hot reload: every tick reads the preferences afresh.
//! - Catch-up at launch: inside the window with frpc not running, frpc starts.

use vstd::prelude::*;
use crate::prefs::{lemma_hhmm_order, minute_of_day, valid_hhmm, schedule_check, Schedule};
use crate::text::{chars_lt, chars_of, push_char, seq_lt};

verus! {

/// Seconds until the next full minute, for `second` in `0..60`: 60 at a full
/// minute, else `60 - second` (so always in `1..=60`).
pub fn secs_to_next_minute(second: u32) -> (r: u64)
    requires
        second < 60,
    ensures
        r == (if second == 0 { 60 } else { 60 - second }),
        1 <= r <= 60,
{
    if second == 0 {
        60
    } else {
        60 - second as u64
    }
}

/// The two-digit text of a number below 100.
pub open spec fn two_digits(n: nat) -> Seq<char> {
    seq![crate::text::digit_char(n / 10), crate::text::digit_char(n % 10)]
}

/// The `"HH:MM"` text of a time of day.
pub open spec fn hhmm_text(hour: nat, minute: nat) -> Seq<char> {
    two_digits(hour) + seq![':'] + two_digits(minute)
}

fn small_digit(d: u32) -> (c: char)
    requires
        d < 10,
    ensures
        c == crate::text::digit_char(d as nat),
{
    ((d + ('0' as u32)) as u8) as char
}

/// Formats a local time as `"HH:MM"` (zero-padded, 24-hour).
pub fn fmt_hhmm(hour: u32, minute: u32) -> (r: String)
    requires
        hour < 24,
        minute < 60,
    ensures
        r@ == hhmm_text(hour as nat, minute as nat),
{
    let mut s = String::new();
    push_char(&mut s, small_digit(hour / 10));
    push_char(&mut s, small_digit(hour % 10));
    push_char(&mut s, ':');
    push_char(&mut s, small_digit(minute / 10));
    push_char(&mut s, small_digit(minute % 10));
    assert(s@ =~= hhmm_text(hour as nat, minute as nat));
    s
}

/// Law: the formatted time is a valid `"HH:MM"` text for that time of day.
pub proof fn law_fmt_hhmm_valid(hour: nat, minute: nat)
    requires
        hour < 24,
        minute < 60,
    ensures
        valid_hhmm(hhmm_text(hour, minute)),
        minute_of_day(hhmm_text(hour, minute)) == hour * 60 + minute,
{
    let t = hhmm_text(hour, minute);
    assert(t[0] == crate::text::digit_char(hour / 10));
    assert(t[1] == crate::text::digit_char(hour % 10));
    assert(t[2] == ':');
    assert(t[3] == crate::text::digit_char(minute / 10));
    assert(t[4] == crate::text::digit_char(minute % 10));
}

/// Whether the schedule is enabled and includes weekday `weekday`
/// (0 = Monday; an index past Sunday counts as not enabled).
pub open spec fn day_enabled(s: Schedule, weekday: nat) -> bool {
    s.enabled && weekday < 7 && s.weekdays@[weekday as int]
}

/// Whether the local time `hour:minute` on `weekday` lies in the window where
/// frpc should run: the schedule is enabled, the day is selected, and
/// `start <= HH:MM < stop` as texts.
pub open spec fn window_contains(s: Schedule, weekday: nat, hour: nat, minute: nat) -> bool {
    &&& day_enabled(s, weekday)
    &&& !seq_lt(hhmm_text(hour, minute), s.start_time@)
    &&& seq_lt(hhmm_text(hour, minute), s.stop_time@)
}

fn day_selected(s: &Schedule, weekday: usize) -> (r: bool)
    ensures
        r == day_enabled(*s, weekday as nat),
{
    s.enabled && weekday < 7 && s.weekdays[weekday]
}

/// Whether the given local time is inside the schedule's window; always false
/// for a disabled schedule.
pub fn in_window(schedule: &Schedule, weekday: usize, hour: u32, minute: u32) -> (r: bool)
    requires
        hour < 24,
        minute < 60,
    ensures
        r == window_contains(*schedule, weekday as nat, hour as nat, minute as nat),
{
    if !day_selected(schedule, weekday) {
        return false;
    }
    let cur = chars_of(fmt_hhmm(hour, minute).as_str());
    let start = chars_of(schedule.start_time.as_str());
    let stop = chars_of(schedule.stop_time.as_str());
    !chars_lt(cur.as_slice(), start.as_slice()) && chars_lt(cur.as_slice(), stop.as_slice())
}

/// What a scheduler tick does.
#[derive(Clone, Copy, PartialEq, Eq, Structural, Debug)]
pub enum TickAction {
    /// Nothing: disabled, an unselected day, or before the start time.
    Idle,
    /// Try to start frpc (skipped when it runs).
    Start,
    /// Try to stop frpc (skipped when it does not run).
    Stop,
}

/// The action of a tick at `hour:minute` on `weekday`.
pub open spec fn tick_for(s: Schedule, weekday: nat, hour: nat, minute: nat) -> TickAction {
    if !day_enabled(s, weekday) {
        TickAction::Idle
    } else if !seq_lt(hhmm_text(hour, minute), s.start_time@) && seq_lt(hhmm_text(hour, minute), s.stop_time@) {
        TickAction::Start
    } else if !seq_lt(hhmm_text(hour, minute), s.stop_time@) {
        TickAction::Stop
    } else {
        TickAction::Idle
    }
}

/// Decides a scheduler tick: inside `[start, stop)` start, at or after `stop`
/// stop, otherwise nothing.
pub fn tick_action(schedule: &Schedule, weekday: usize, hour: u32, minute: u32) -> (r: TickAction)
    requires
        hour < 24,
        minute < 60,
    ensures
        r == tick_for(*schedule, weekday as nat, hour as nat, minute as nat),
{
    if !day_selected(schedule, weekday) {
        return TickAction::Idle;
    }
    let cur = chars_of(fmt_hhmm(hour, minute).as_str());
    let start = chars_of(schedule.start_time.as_str());
    let stop = chars_of(schedule.stop_time.as_str());
    let before_stop = chars_lt(cur.as_slice(), stop.as_slice());
    if !chars_lt(cur.as_slice(), start.as_slice()) && before_stop {
        TickAction::Start
    } else if !before_stop {
        TickAction::Stop
    } else {
        TickAction::Idle
    }
}

/// Law: the launch catch-up and the minute tick agree: a time is inside the
/// window exactly when the tick there starts frpc.
pub proof fn law_window_is_start_tick(s: Schedule, weekday: nat, hour: nat, minute: nat)
    ensures
        window_contains(s, weekday, hour, minute) <==> tick_for(s, weekday, hour, minute)
            == TickAction::Start,
{
}

/// Law: for a valid enabled schedule on a selected day (0 = Monday up to
/// 6 = Sunday), the time is inside the window exactly from the start minute up
/// to (excluding) the stop minute; the tick starts frpc there, stops it from
/// the stop minute on, and does nothing before the start.
pub proof fn law_tick_by_minute(s: Schedule, weekday: nat, hour: nat, minute: nat)
    requires
        schedule_check(s) is Ok,
        s.enabled,
        weekday < 7,
        s.weekdays@[weekday as int],
        hour < 24,
        minute < 60,
    ensures
        window_contains(s, weekday, hour, minute) <==> (minute_of_day(s.start_time@) <= hour * 60 + minute
            < minute_of_day(s.stop_time@)),
        (tick_for(s, weekday, hour, minute) == TickAction::Start) <==> (minute_of_day(
            s.start_time@,
        ) <= hour * 60 + minute < minute_of_day(s.stop_time@)),
        (tick_for(s, weekday, hour, minute) == TickAction::Stop) <==> (hour * 60 + minute
            >= minute_of_day(s.stop_time@)),
        (tick_for(s, weekday, hour, minute) == TickAction::Idle) <==> (hour * 60 + minute
            < minute_of_day(s.start_time@)),
{
    let t = hhmm_text(hour, minute);
    law_fmt_hhmm_valid(hour, minute);
    crate::prefs::law_valid_schedule_window(s);
    lemma_hhmm_order(t, s.start_time@);
    lemma_hhmm_order(t, s.stop_time@);
}

/// Law: a disabled schedule, or a day that is not selected, does nothing at
/// any time: the time is outside the window and the tick neither starts nor
/// stops frpc, so a manually started frpc is left running.
pub proof fn law_off_schedule_idle(s: Schedule, weekday: nat, hour: nat, minute: nat)
    requires
        !s.enabled || (weekday < 7 && !s.weekdays@[weekday as int]),
    ensures
        tick_for(s, weekday, hour, minute) == TickAction::Idle,
        !window_contains(s, weekday, hour, minute),
{
}

/// What a start trigger (schedule, catch-up or connect at login) does.
#[derive(Clone, Copy, PartialEq, Eq, Structural, Debug)]
pub enum StartTrigger {
    /// frpc already runs: nothing to do.
    AlreadyRunning,
    /// No launch parameters are saved yet: log it and skip.
    NotConfigured,
    /// Start frpc with the saved parameters.
    Launch,
}

/// Decides a start trigger: skipped while frpc runs, logged and skipped
/// without saved parameters, else a launch.
pub fn start_trigger(already_running: bool, configured: bool) -> (r: StartTrigger)
    ensures
        already_running ==> r == StartTrigger::AlreadyRunning,
        !already_running && !configured ==> r == StartTrigger::NotConfigured,
        !already_running && configured ==> r == StartTrigger::Launch,
{
    if already_running {
        StartTrigger::AlreadyRunning
    } else if !configured {
        StartTrigger::NotConfigured
    } else {
        StartTrigger::Launch
    }
}

} // verus!
