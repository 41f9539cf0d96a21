use moonbox::prefs::{
    auto_connect_applies, default_language, default_start_time, default_stop_time, is_hhmm, prefs_from_store,
    silent_start_applies, validate_schedule, Prefs, Schedule,
};

fn schedule(enabled: bool, days: [bool; 7], start: &str, stop: &str) -> Schedule {
    Schedule { enabled, weekdays: days, start_time: start.to_string(), stop_time: stop.to_string() }
}

const MON: [bool; 7] = [true, false, false, false, false, false, false];

#[test]
fn defaults() {
    let s = Schedule::default();
    assert!(!s.enabled);
    assert_eq!(s.weekdays, [false; 7]);
    assert_eq!(s.start_time, "08:00");
    assert_eq!(s.stop_time, "18:00");
    let p = Prefs::default();
    assert!(!p.auto_launch && !p.silent_start && !p.auto_connect);
    assert_eq!(p.schedule, Schedule::default());
    assert_eq!(p.language, "");
    assert_eq!(default_start_time(), "08:00");
    assert_eq!(default_stop_time(), "18:00");
    assert_eq!(default_language(), "zh-CN");
}

#[test]
fn hhmm_check() {
    for ok in ["00:00", "08:30", "23:59", "19:05"] {
        assert!(is_hhmm(ok), "{ok}");
    }
    for bad in ["24:00", "12:60", "8:00", "08:0", "08-00", "ab:cd", "", "08:000", "０８:００", "12:3a"] {
        assert!(!is_hhmm(bad), "{bad}");
    }
}

#[test]
fn disabled_schedule_always_passes() {
    assert!(validate_schedule(&schedule(false, [false; 7], "garbage", "")).is_ok());
}

#[test]
fn schedule_errors() {
    assert_eq!(validate_schedule(&schedule(true, [false; 7], "08:00", "18:00")).unwrap_err(), "请至少选择一天");
    assert_eq!(validate_schedule(&schedule(true, MON, "8:00", "18:00")).unwrap_err(), "时间格式需为 HH:MM");
    assert_eq!(validate_schedule(&schedule(true, MON, "08:00", "18:61")).unwrap_err(), "时间格式需为 HH:MM");
    assert_eq!(validate_schedule(&schedule(true, MON, "09:00", "09:00")).unwrap_err(), "启动与断开时间不能相同");
    assert_eq!(
        validate_schedule(&schedule(true, MON, "22:00", "06:00")).unwrap_err(),
        "启动时间需早于断开时间（暂不支持跨夜）"
    );
    assert!(validate_schedule(&schedule(true, MON, "08:00", "18:00")).is_ok());
    assert!(validate_schedule(&schedule(true, [false, false, false, false, false, false, true], "00:00", "00:01")).is_ok());
}

#[test]
fn prefs_from_stored_values() {
    let p = prefs_from_store(Some(true), None, Some(false), None, None);
    assert!(p.auto_launch && !p.silent_start && !p.auto_connect);
    assert_eq!(p.schedule, Schedule::default());
    assert_eq!(p.language, "zh-CN");
    let s = schedule(true, MON, "07:00", "09:00");
    let q = prefs_from_store(None, Some(true), Some(true), Some(s.clone()), Some("en".to_string()));
    assert!(!q.auto_launch && q.silent_start && q.auto_connect);
    assert_eq!(q.schedule, s);
    assert_eq!(q.language, "en");
    let r = prefs_from_store(None, None, None, None, Some(String::new()));
    assert_eq!(r.language, "zh-CN");
}

#[test]
fn launch_decisions() {
    let mut p = Prefs::default();
    assert!(!silent_start_applies(&p, true));
    assert!(!auto_connect_applies(&p, true));
    p.silent_start = true;
    p.auto_connect = true;
    assert!(silent_start_applies(&p, true));
    assert!(!silent_start_applies(&p, false));
    assert!(auto_connect_applies(&p, true));
    assert!(!auto_connect_applies(&p, false));
}
