use std::collections::VecDeque;

use chrono::{TimeZone, Utc};
use scheduler::model::state::push_history;
use scheduler::{
    CronSchedule, JobTimeWindow, RunRecord, RunSkipReason, RunStatus, TimeOfDay,
    TimeWindowSegment, Timezone, UtcTime, Weekday,
};

fn at(year: i32, month: u32, day: u32, hour: u32, minute: u32, second: u32) -> UtcTime {
    let instant = Utc.with_ymd_and_hms(year, month, day, hour, minute, second).unwrap();
    UtcTime::from_unix_nanos(instant.timestamp() as i128 * 1_000_000_000).unwrap()
}

fn now() -> UtcTime {
    let instant = Utc::now();
    UtcTime::from_unix_nanos(
        instant.timestamp() as i128 * 1_000_000_000 + instant.timestamp_subsec_nanos() as i128,
    )
    .unwrap()
}

fn later(instant: UtcTime, seconds: i128) -> UtcTime {
    instant.shifted(seconds * 1_000_000_000).unwrap()
}

fn hms(hour: u32, minute: u32, second: u32) -> TimeOfDay {
    TimeOfDay::from_hms(hour, minute, second).unwrap()
}

#[test]
fn parses_standard_five_field_expression() {
    let schedule = CronSchedule::parse("*/15 9-17 * * Mon-Fri").unwrap();

    assert_eq!(schedule.as_str(), "*/15 9-17 * * Mon-Fri");
}

#[test]
fn rejects_non_five_field_expressions() {
    let error = CronSchedule::parse("0 */5 * * * *").unwrap_err();
    assert!(error.to_string().contains("cron expression must have exactly 5 fields"));

    let error = CronSchedule::parse("@hourly").unwrap_err();
    assert!(error.to_string().contains("cron expression must have exactly 5 fields"));
}

#[test]
fn rejects_invalid_five_field_expression() {
    let error = CronSchedule::parse("bogus * * * *").unwrap_err();
    let message = error.to_string();

    assert!(message.contains("invalid cron expression `bogus * * * *`"));
}

#[test]
fn next_after_uses_configured_timezone() {
    let schedule = CronSchedule::parse("0 9 * * *").unwrap();
    let start = at(2026, 4, 3, 0, 30, 0);

    let shanghai_next = schedule.next_after(start, &Timezone::shanghai()).unwrap();
    let utc_next = schedule.next_after(start, &Timezone::utc()).unwrap();

    assert_eq!(shanghai_next, at(2026, 4, 3, 1, 0, 0));
    assert_eq!(utc_next, at(2026, 4, 3, 9, 0, 0));
}

#[test]
fn next_after_advances_from_the_scheduled_time() {
    let schedule = CronSchedule::parse("* * * * *").unwrap();
    let scheduled_at = at(2026, 4, 3, 1, 2, 0);

    let next = schedule.next_after(scheduled_at, &Timezone::utc()).unwrap();

    assert_eq!(next, at(2026, 4, 3, 1, 3, 0));
    assert_eq!(next.unix_second() % 60, 0);
}

fn record_at(base: UtcTime, second: i128) -> RunRecord {
    let instant = later(base, second);
    RunRecord {
        scheduled_at: instant,
        started_at: instant,
        finished_at: instant,
        catch_up: false,
        status: RunStatus::Success,
        error: None,
    }
}

#[test]
fn push_history_keeps_latest_records_within_limit() {
    let base = now();
    let mut history = VecDeque::new();
    push_history(&mut history, record_at(base, 1), 2);
    push_history(&mut history, record_at(base, 2), 2);
    push_history(&mut history, record_at(base, 3), 2);

    assert_eq!(history.len(), 2);
    assert_eq!(history.front().unwrap().scheduled_at, record_at(base, 2).scheduled_at);
    assert_eq!(history.back().unwrap().scheduled_at, record_at(base, 3).scheduled_at);
}

#[test]
fn push_history_ignores_records_when_limit_is_zero() {
    let mut history = VecDeque::new();
    push_history(&mut history, record_at(now(), 1), 0);

    assert!(history.is_empty());
}

#[test]
fn fallback_timezone_is_used_when_window_timezone_is_missing() {
    let window = JobTimeWindow {
        timezone: None,
        weekdays: vec![Weekday::Sat],
        segments: vec![TimeWindowSegment::new(hms(0, 0, 0), hms(1, 0, 0))],
    };
    let instant = at(2026, 5, 8, 16, 30, 0);

    assert!(!window.matches(instant, &Timezone::utc()));
    assert!(window.matches(instant, &Timezone::shanghai()));
}

#[test]
fn same_day_segments_match_by_local_time() {
    let window = JobTimeWindow {
        timezone: Some(Timezone::utc()),
        weekdays: vec![Weekday::Fri],
        segments: vec![
            TimeWindowSegment::new(hms(9, 0, 0), hms(10, 0, 0)),
            TimeWindowSegment::new(hms(13, 0, 0), hms(14, 0, 0)),
        ],
    };

    assert!(window.matches(at(2026, 5, 8, 13, 30, 0), &Timezone::utc()));
    assert!(!window.matches(at(2026, 5, 8, 11, 30, 0), &Timezone::utc()));
}

#[test]
fn cross_midnight_segments_use_the_effective_local_day() {
    let window = JobTimeWindow {
        timezone: Some(Timezone::utc()),
        weekdays: vec![Weekday::Thu],
        segments: vec![TimeWindowSegment::new(hms(22, 0, 0), hms(2, 0, 0))],
    };

    assert!(window.matches(at(2026, 5, 8, 1, 0, 0), &Timezone::utc()));
    assert!(!window.matches(at(2026, 5, 8, 3, 0, 0), &Timezone::utc()));
}

#[test]
fn run_skip_reason_has_expected_string_form() {
    assert_eq!(RunSkipReason::OutsideTimeWindow.as_str(), "outside_time_window");
    assert_eq!(RunSkipReason::OutsideTimeWindow.to_string(), "outside_time_window");
}

#[test]
fn cron_steps_follow_the_zone_of_the_year() {
    let daily = CronSchedule::parse("30 9 * * *").unwrap();
    let berlin = Timezone::parse("Europe/Berlin").unwrap();

    assert_eq!(
        daily.next_after(at(2026, 1, 10, 0, 0, 0), &berlin),
        Some(at(2026, 1, 10, 8, 30, 0))
    );
    assert_eq!(
        daily.next_after(at(2026, 7, 10, 0, 0, 0), &berlin),
        Some(at(2026, 7, 10, 7, 30, 0))
    );
    assert_eq!(daily.to_string(), "30 9 * * *");
}

#[test]
fn cron_field_count_ignores_extra_spaces() {
    assert!(CronSchedule::parse("  */5   *  * * * ").is_ok());
    let error = CronSchedule::parse("* * * *").unwrap_err();
    assert!(error.to_string().contains("exactly 5 fields"));
    assert!("*/5 * * * *".parse::<CronSchedule>().is_ok());
    assert!("61 * * * *".parse::<CronSchedule>().is_err());
    assert_eq!(CronSchedule::try_from("*/5 * * * *").unwrap().as_str(), "*/5 * * * *");
    assert!(CronSchedule::try_from("61 * * * *").is_err());
}

#[test]
fn unknown_zones_are_refused() {
    assert!(Timezone::parse("Atlantis/Capital").is_none());
    assert_eq!(Timezone::parse("Asia/Shanghai").unwrap().name(), "Asia/Shanghai");
    assert_eq!(Timezone::shanghai().name(), "Asia/Shanghai");
    assert_eq!(Timezone::utc().name(), "UTC");
}

#[test]
fn a_zone_knows_its_local_day_and_time() {
    let (day, time) = Timezone::shanghai().local(at(1970, 1, 1, 20, 0, 0));
    assert_eq!(day, 1);
    assert_eq!(time, hms(4, 0, 0));
}

#[test]
fn local_times_around_a_change_of_the_clock() {
    let berlin = Timezone::parse("Europe/Berlin").unwrap();
    let spring_day = at(2026, 3, 29, 0, 0, 0).unix_second() / 86_400;
    let autumn_day = at(2026, 10, 25, 0, 0, 0).unix_second() / 86_400;

    assert!(berlin.instants_of_local(spring_day, hms(2, 30, 0)).is_empty());
    assert_eq!(
        berlin.instants_of_local(autumn_day, hms(2, 30, 0)),
        vec![at(2026, 10, 25, 0, 30, 0), at(2026, 10, 25, 1, 30, 0)]
    );
    assert_eq!(
        berlin.instants_of_local(autumn_day, hms(12, 0, 0)),
        vec![at(2026, 10, 25, 11, 0, 0)]
    );
}

#[test]
fn a_window_without_rules_is_always_open() {
    let window = JobTimeWindow::new();
    assert!(window.matches(at(2026, 5, 8, 3, 0, 0), &Timezone::utc()));
    assert!(window.allows_weekday(Weekday::Sun));
}

#[test]
fn a_segment_of_one_moment_contains_nothing() {
    let window = JobTimeWindow {
        timezone: None,
        weekdays: Vec::new(),
        segments: vec![TimeWindowSegment::new(hms(9, 0, 0), hms(9, 0, 0))],
    };
    assert!(!window.matches(at(2026, 5, 8, 9, 0, 0), &Timezone::utc()));
}
