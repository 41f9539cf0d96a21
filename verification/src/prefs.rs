//! Application preferences: launch at login, silent start (hide to the tray when
//! launched by the OS), connect at login, and the weekly connection schedule.

use vstd::prelude::*;
use crate::text::{chars_eq, chars_lt, chars_of, seq_lt};

verus! {

/// Weekly schedule: enabled weekdays plus start and stop times (`"HH:MM"`).
///
/// `weekdays[0]` is Monday … `weekdays[6]` is Sunday, the numbering of
/// `chrono::Weekday::num_days_from_monday`.
#[derive(Clone, Debug, PartialEq)]
pub struct Schedule {
    /// Master switch; when off, neither the scheduler nor the catch-up acts.
    pub enabled: bool,
    /// Which days of the week are enabled, Monday first.
    pub weekdays: [bool; 7],
    /// Start time, 24-hour `"HH:MM"`.
    pub start_time: String,
    /// Stop time, 24-hour `"HH:MM"`.
    pub stop_time: String,
}

/// The default start time, `"08:00"`.
pub fn default_start_time() -> (r: String)
    ensures
        r@ == "08:00"@,
{
    String::from_str("08:00")
}

/// The default stop time, `"18:00"`.
pub fn default_stop_time() -> (r: String)
    ensures
        r@ == "18:00"@,
{
    String::from_str("18:00")
}

/// The default interface language, `"zh-CN"`.
pub fn default_language() -> (r: String)
    ensures
        r@ == "zh-CN"@,
{
    String::from_str("zh-CN")
}

impl Default for Schedule {
    /// Disabled, no weekday, 08:00 to 18:00.
    fn default() -> (r: Self)
        ensures
            !r.enabled,
            forall|i: int| 0 <= i < 7 ==> !(#[trigger] r.weekdays@[i]),
            r.start_time@ == "08:00"@,
            r.stop_time@ == "18:00"@,
    {
        Schedule {
            enabled: false,
            weekdays: [false, false, false, false, false, false, false],
            start_time: default_start_time(),
            stop_time: default_stop_time(),
        }
    }
}

/// Application preferences, kept apart from the frpc launch parameters.
#[derive(Clone, Debug, PartialEq)]
pub struct Prefs {
    /// Launch at login.
    pub auto_launch: bool,
    /// Hide to the tray when launched by the OS.
    pub silent_start: bool,
    /// Start frpc when launched by the OS (`--auto-launched`); independent of
    /// the schedule, which only governs what happens afterwards.
    pub auto_connect: bool,
    /// The connection schedule.
    pub schedule: Schedule,
    /// Interface language code; an unknown value is normalised by the front end.
    pub language: String,
}

impl Default for Prefs {
    /// Everything off, the default schedule, and an empty language code.
    fn default() -> (r: Self)
        ensures
            !r.auto_launch && !r.silent_start && !r.auto_connect,
            !r.schedule.enabled,
            r.schedule.start_time@ == "08:00"@,
            r.schedule.stop_time@ == "18:00"@,
            r.language@ == Seq::<char>::empty(),
    {
        Prefs {
            auto_launch: false,
            silent_start: false,
            auto_connect: false,
            schedule: Schedule::default(),
            language: String::new(),
        }
    }
}

/// The preferences read from the store: each value as stored when it has the
/// right type (`None` otherwise or when missing). A missing or non-boolean flag
/// is off, a missing or unreadable schedule is the default one, and a missing
/// or empty language is `"zh-CN"`.
pub fn prefs_from_store(
    auto_launch: Option<bool>,
    silent_start: Option<bool>,
    auto_connect: Option<bool>,
    schedule: Option<Schedule>,
    language: Option<String>,
) -> (r: Prefs)
    ensures
        r.auto_launch == (auto_launch == Some(true)),
        r.silent_start == (silent_start == Some(true)),
        r.auto_connect == (auto_connect == Some(true)),
        schedule matches Some(s) ==> r.schedule == s,
        schedule is None ==> !r.schedule.enabled && r.schedule.start_time@ == "08:00"@
            && r.schedule.stop_time@ == "18:00"@
            && forall|i: int| 0 <= i < 7 ==> !(#[trigger] r.schedule.weekdays@[i]),
        r.language@ == (match language {
            Some(l) => if l@.len() > 0 { l@ } else { "zh-CN"@ },
            None => "zh-CN"@,
        }),
{
    let lang = match language {
        Some(l) => if l.as_str().is_empty() { default_language() } else { l },
        None => default_language(),
    };
    Prefs {
        auto_launch: match auto_launch { Some(b) => b, None => false },
        silent_start: match silent_start { Some(b) => b, None => false },
        auto_connect: match auto_connect { Some(b) => b, None => false },
        schedule: match schedule { Some(s) => s, None => Schedule::default() },
        language: lang,
    }
}

/// Whether an OS-triggered launch should hide the window to the tray.
pub fn silent_start_applies(prefs: &Prefs, auto_launched: bool) -> (r: bool)
    ensures
        r == (auto_launched && prefs.silent_start),
{
    auto_launched && prefs.silent_start
}

/// Whether an OS-triggered launch should start frpc.
pub fn auto_connect_applies(prefs: &Prefs, auto_launched: bool) -> (r: bool)
    ensures
        r == (auto_launched && prefs.auto_connect),
{
    auto_launched && prefs.auto_connect
}

/// Whether a character is an ASCII decimal digit.
pub open spec fn is_digit(c: char) -> bool {
    '0' <= c && c <= '9'
}

/// The value of a decimal digit character.
pub open spec fn digit_value(c: char) -> int {
    (c as u32) - ('0' as u32)
}

/// The hours of an `"HH:MM"` text.
pub open spec fn hhmm_hours(s: Seq<char>) -> int {
    digit_value(s[0]) * 10 + digit_value(s[1])
}

/// The minutes past the hour of an `"HH:MM"` text.
pub open spec fn hhmm_minutes(s: Seq<char>) -> int {
    digit_value(s[3]) * 10 + digit_value(s[4])
}

/// The time of day, in minutes since midnight, of an `"HH:MM"` text.
pub open spec fn minute_of_day(s: Seq<char>) -> int {
    hhmm_hours(s) * 60 + hhmm_minutes(s)
}

/// A valid 24-hour `"HH:MM"` time: five characters, digits around a colon,
/// hours below 24 and minutes below 60.
pub open spec fn valid_hhmm(s: Seq<char>) -> bool {
    &&& s.len() == 5
    &&& s[2] == ':'
    &&& is_digit(s[0]) && is_digit(s[1]) && is_digit(s[3]) && is_digit(s[4])
    &&& hhmm_hours(s) < 24
    &&& hhmm_minutes(s) < 60
}

fn digit_of(c: char) -> (r: Option<u32>)
    ensures
        r is Some <==> is_digit(c),
        r matches Some(d) ==> d == digit_value(c),
{
    if '0' <= c && c <= '9' {
        Some((c as u32) - ('0' as u32))
    } else {
        None
    }
}

/// A plain `"HH:MM"` check, without a regular-expression crate.
pub fn is_hhmm(s: &str) -> (r: bool)
    ensures
        r == valid_hhmm(s@),
{
    let cs = chars_of(s);
    if cs.len() != 5 || cs[2] != ':' {
        return false;
    }
    match (digit_of(cs[0]), digit_of(cs[1]), digit_of(cs[3]), digit_of(cs[4])) {
        (Some(h1), Some(h2), Some(m1), Some(m2)) => h1 * 10 + h2 < 24 && m1 * 10 + m2 < 60,
        _ => false,
    }
}

/// Whether some weekday is enabled.
pub open spec fn any_weekday(s: Schedule) -> bool {
    exists|i: int| 0 <= i < 7 && #[trigger] s.weekdays@[i]
}

/// The outcome of checking a schedule.
pub open spec fn schedule_check(s: Schedule) -> Result<(), Seq<char>> {
    if !s.enabled {
        Ok(())
    } else if !any_weekday(s) {
        Err("请至少选择一天"@)
    } else if !valid_hhmm(s.start_time@) || !valid_hhmm(s.stop_time@) {
        Err("时间格式需为 HH:MM"@)
    } else if s.start_time@ == s.stop_time@ {
        Err("启动与断开时间不能相同"@)
    } else if seq_lt(s.stop_time@, s.start_time@) {
        Err("启动时间需早于断开时间（暂不支持跨夜）"@)
    } else {
        Ok(())
    }
}

/// The view of a check result.
pub open spec fn check_view(r: Result<(), String>) -> Result<(), Seq<char>> {
    match r {
        Ok(()) => Ok(()),
        Err(e) => Err(e@),
    }
}

/// Checks a schedule. A disabled schedule always passes, so that the user can
/// always switch it off; an enabled one needs a weekday and two valid times,
/// the start strictly before the stop (no window across midnight).
pub fn validate_schedule(s: &Schedule) -> (r: Result<(), String>)
    ensures
        check_view(r) == schedule_check(*s),
{
    if !s.enabled {
        return Ok(());
    }
    let mut any = false;
    let mut i: usize = 0;
    while i < 7
        invariant
            0 <= i <= 7,
            any == exists|j: int| 0 <= j < i && #[trigger] s.weekdays@[j],
        decreases 7 - i,
    {
        if s.weekdays[i] {
            any = true;
        }
        i = i + 1;
    }
    if !any {
        return Err(String::from_str("请至少选择一天"));
    }
    if !is_hhmm(s.start_time.as_str()) || !is_hhmm(s.stop_time.as_str()) {
        return Err(String::from_str("时间格式需为 HH:MM"));
    }
    let start = chars_of(s.start_time.as_str());
    let stop = chars_of(s.stop_time.as_str());
    if chars_eq(start.as_slice(), stop.as_slice()) {
        return Err(String::from_str("启动与断开时间不能相同"));
    }
    if chars_lt(stop.as_slice(), start.as_slice()) {
        return Err(String::from_str("启动时间需早于断开时间（暂不支持跨夜）"));
    }
    Ok(())
}

/// On valid `"HH:MM"` texts, the text order is the order of the times of day.
pub proof fn lemma_hhmm_order(a: Seq<char>, b: Seq<char>)
    requires
        valid_hhmm(a),
        valid_hhmm(b),
    ensures
        seq_lt(a, b) <==> minute_of_day(a) < minute_of_day(b),
        a == b <==> minute_of_day(a) == minute_of_day(b),
{
    reveal_with_fuel(seq_lt, 6);
    assert(a.drop_first()[0] == a[1]);
    assert(b.drop_first()[0] == b[1]);
    assert(a.drop_first().drop_first()[0] == a[2]);
    assert(b.drop_first().drop_first()[0] == b[2]);
    assert(a.drop_first().drop_first().drop_first()[0] == a[3]);
    assert(b.drop_first().drop_first().drop_first()[0] == b[3]);
    assert(a.drop_first().drop_first().drop_first().drop_first()[0] == a[4]);
    assert(b.drop_first().drop_first().drop_first().drop_first()[0] == b[4]);
    if minute_of_day(a) == minute_of_day(b) {
        assert(a =~= b);
    }
}

/// Law: an enabled schedule passes the check exactly when it has at least one
/// weekday and two valid times, the start strictly before the stop; a
/// disabled one always passes.
pub proof fn law_valid_schedule_window(s: Schedule)
    ensures
        !s.enabled ==> schedule_check(s) is Ok,
        s.enabled && schedule_check(s) is Ok ==> any_weekday(s) && valid_hhmm(s.start_time@)
            && valid_hhmm(s.stop_time@) && minute_of_day(s.start_time@) < minute_of_day(s.stop_time@),
        s.enabled && (exists|i: int| 0 <= i < 7 && #[trigger] s.weekdays@[i]) && valid_hhmm(s.start_time@)
            && valid_hhmm(s.stop_time@) && minute_of_day(s.start_time@) < minute_of_day(s.stop_time@)
            ==> schedule_check(s) is Ok,
{
    if s.enabled && valid_hhmm(s.start_time@) && valid_hhmm(s.stop_time@) {
        lemma_hhmm_order(s.start_time@, s.stop_time@);
        lemma_hhmm_order(s.stop_time@, s.start_time@);
    }
}

} // verus!
