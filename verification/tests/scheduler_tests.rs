use moonbox::prefs::{is_hhmm, Schedule};
use moonbox::scheduler::{fmt_hhmm, in_window, secs_to_next_minute, start_trigger, tick_action, StartTrigger, TickAction};

fn weekdays_sched(days: [bool; 7], start: &str, stop: &str) -> Schedule {
    Schedule { enabled: true, weekdays: days, start_time: start.to_string(), stop_time: stop.to_string() }
}

const WORKDAYS: [bool; 7] = [true, true, true, true, true, false, false];

#[test]
fn seconds_to_next_minute() {
    assert_eq!(secs_to_next_minute(0), 60);
    assert_eq!(secs_to_next_minute(1), 59);
    assert_eq!(secs_to_next_minute(59), 1);
}

#[test]
fn formats_hhmm() {
    assert_eq!(fmt_hhmm(0, 0), "00:00");
    assert_eq!(fmt_hhmm(8, 5), "08:05");
    assert_eq!(fmt_hhmm(23, 59), "23:59");
    for h in 0..24 {
        for m in 0..60 {
            assert!(is_hhmm(&fmt_hhmm(h, m)));
        }
    }
}

#[test]
fn window_boundaries() {
    let s = weekdays_sched(WORKDAYS, "08:00", "18:00");
    assert!(!in_window(&s, 0, 7, 59));
    assert!(in_window(&s, 0, 8, 0));
    assert!(in_window(&s, 4, 17, 59));
    assert!(!in_window(&s, 0, 18, 0));
    assert!(!in_window(&s, 5, 12, 0));
    assert!(!in_window(&s, 7, 12, 0));
    let mut off = s.clone();
    off.enabled = false;
    assert!(!in_window(&off, 0, 12, 0));
}

#[test]
fn tick_actions_by_minute() {
    let s = weekdays_sched(WORKDAYS, "08:30", "17:45");
    assert_eq!(tick_action(&s, 1, 8, 29), TickAction::Idle);
    assert_eq!(tick_action(&s, 1, 8, 30), TickAction::Start);
    assert_eq!(tick_action(&s, 1, 17, 44), TickAction::Start);
    assert_eq!(tick_action(&s, 1, 17, 45), TickAction::Stop);
    assert_eq!(tick_action(&s, 1, 23, 59), TickAction::Stop);
    assert_eq!(tick_action(&s, 6, 12, 0), TickAction::Idle);
    for h in 0..24 {
        for m in 0..60 {
            let minute = h * 60 + m;
            let expected = if minute < 8 * 60 + 30 {
                TickAction::Idle
            } else if minute < 17 * 60 + 45 {
                TickAction::Start
            } else {
                TickAction::Stop
            };
            assert_eq!(tick_action(&s, 2, h, m), expected);
            assert_eq!(in_window(&s, 2, h, m), expected == TickAction::Start);
        }
    }
}

#[test]
fn start_trigger_decisions() {
    assert_eq!(start_trigger(true, true), StartTrigger::AlreadyRunning);
    assert_eq!(start_trigger(true, false), StartTrigger::AlreadyRunning);
    assert_eq!(start_trigger(false, false), StartTrigger::NotConfigured);
    assert_eq!(start_trigger(false, true), StartTrigger::Launch);
}
