use chrono::{TimeZone, Utc};
use scheduler::scheduler::grouped_cron;
use scheduler::scheduler::interval_phase::{
    grouped_initial_next_run_at, nanos_to_utc, stable_seed_hash, staggered_initial_next_run_at,
    utc_to_nanos, validate_grouped_interval,
};
use scheduler::scheduler::time_window_alignment::align_to_window;
use scheduler::scheduler::windowed_interval;
use scheduler::{
    CronSchedule, Duration, GroupedCronSchedule, GroupedIntervalSchedule, InvalidJobKind,
    JobTimeWindow, Schedule, SchedulerError, StaggeredIntervalSchedule, TimeOfDay,
    TimeWindowAlignment, TimeWindowSegment, Timezone, UtcTime, Weekday, WindowedIntervalSchedule,
};

fn at(year: i32, month: u32, day: u32, hour: u32, minute: u32, second: u32) -> UtcTime {
    let instant = Utc.with_ymd_and_hms(year, month, day, hour, minute, second).unwrap();
    UtcTime::from_unix_nanos(instant.timestamp() as i128 * 1_000_000_000).unwrap()
}

fn now() -> UtcTime {
    let instant = Utc::now();
    UtcTime::from_unix_nanos(
        instant.timestamp() as i128 * 1_000_000_000 + instant.timestamp_subsec_nanos() as i128,
    )
    .unwrap()
}

fn later(instant: UtcTime, seconds: i128) -> UtcTime {
    instant.shifted(seconds * 1_000_000_000).unwrap()
}

fn has_kind(error: &SchedulerError, kind: InvalidJobKind) -> bool {
    matches!(error, SchedulerError::InvalidJob(invalid) if invalid.kind() == kind)
}

fn utc_segment(start_hour: u32, end_hour: u32) -> JobTimeWindow {
    JobTimeWindow {
        timezone: Some(Timezone::utc()),
        weekdays: Vec::new(),
        segments: vec![TimeWindowSegment::new(
            TimeOfDay::from_hms(start_hour, 0, 0).unwrap(),
            TimeOfDay::from_hms(end_hour, 0, 0).unwrap(),
        )],
    }
}

#[test]
fn grouped_cron_initial_next_run_uses_current_anchor_when_due_is_still_future() {
    let schedule = GroupedCronSchedule::new(
        CronSchedule::parse("* * * * *").unwrap(),
        Duration::from_secs(40),
        4,
        3,
    );
    let now = at(2026, 4, 3, 1, 2, 20);

    let next = grouped_cron::initial_next_run_at(now, &schedule, &Timezone::utc()).unwrap();

    assert_eq!(next, at(2026, 4, 3, 1, 2, 30));
}

#[test]
fn grouped_cron_initial_next_run_skips_to_next_anchor_when_due_is_past() {
    let schedule = GroupedCronSchedule::new(
        CronSchedule::parse("* * * * *").unwrap(),
        Duration::from_secs(40),
        4,
        1,
    );
    let now = at(2026, 4, 3, 1, 2, 20);

    let next = grouped_cron::initial_next_run_at(now, &schedule, &Timezone::utc()).unwrap();

    assert_eq!(next, at(2026, 4, 3, 1, 3, 10));
}

#[test]
fn grouped_cron_members_are_evenly_spaced_inside_spread() {
    let cron = CronSchedule::parse("* * * * *").unwrap();
    let now = at(2026, 4, 3, 1, 2, 0);

    let next0 = grouped_cron::initial_next_run_at(
        now,
        &GroupedCronSchedule::new(cron.clone(), Duration::from_secs(40), 4, 0),
        &Timezone::utc(),
    )
    .unwrap();
    let next1 = grouped_cron::initial_next_run_at(
        now,
        &GroupedCronSchedule::new(cron.clone(), Duration::from_secs(40), 4, 1),
        &Timezone::utc(),
    )
    .unwrap();
    let next2 = grouped_cron::initial_next_run_at(
        now,
        &GroupedCronSchedule::new(cron.clone(), Duration::from_secs(40), 4, 2),
        &Timezone::utc(),
    )
    .unwrap();
    let next3 = grouped_cron::initial_next_run_at(
        now,
        &GroupedCronSchedule::new(cron, Duration::from_secs(40), 4, 3),
        &Timezone::utc(),
    )
    .unwrap();

    assert_eq!(next0, later(now, 60));
    assert_eq!(next1, later(now, 10));
    assert_eq!(next2, later(now, 20));
    assert_eq!(next3, later(now, 30));
}

#[test]
fn grouped_cron_group_seed_rotates_slots_discretely() {
    let cron = CronSchedule::parse("* * * * *").unwrap();
    let now = at(2026, 4, 3, 1, 2, 0);
    let rotation = (grouped_cron::stable_seed_hash("site-a") % 4) as i64;

    let seeded = GroupedCronSchedule::new(cron.clone(), Duration::from_secs(40), 4, 0)
        .with_group_seed("site-a");
    let unseeded = GroupedCronSchedule::new(cron, Duration::from_secs(40), 4, rotation as u32);

    let seeded_next =
        grouped_cron::initial_next_run_at(now, &seeded, &Timezone::utc()).unwrap();
    let rotated_next =
        grouped_cron::initial_next_run_at(now, &unseeded, &Timezone::utc()).unwrap();

    assert_eq!(seeded_next, rotated_next);
}

#[test]
fn grouped_cron_next_after_advances_to_same_slot_on_next_anchor() {
    let schedule = GroupedCronSchedule::new(
        CronSchedule::parse("* * * * *").unwrap(),
        Duration::from_secs(40),
        4,
        2,
    );
    let scheduled_at = at(2026, 4, 3, 1, 2, 20);

    let next =
        grouped_cron::next_after(scheduled_at, &schedule, &Timezone::utc()).unwrap().unwrap();

    assert_eq!(next, at(2026, 4, 3, 1, 3, 20));
}

#[test]
fn grouped_cron_uses_scheduler_timezone_for_anchor_calculation() {
    let schedule = GroupedCronSchedule::new(
        CronSchedule::parse("0 9 * * *").unwrap(),
        Duration::from_secs(30 * 60),
        3,
        1,
    );
    let start = at(2026, 4, 3, 0, 30, 0);

    let shanghai_next =
        grouped_cron::initial_next_run_at(start, &schedule, &Timezone::shanghai()).unwrap();
    let utc_next = grouped_cron::initial_next_run_at(start, &schedule, &Timezone::utc()).unwrap();

    assert_eq!(shanghai_next, at(2026, 4, 3, 1, 10, 0));
    assert_eq!(utc_next, at(2026, 4, 3, 9, 10, 0));
}

#[test]
fn grouped_cron_validation_rejects_invalid_parameters() {
    let cron = CronSchedule::parse("* * * * *").unwrap();
    let zero_spread = GroupedCronSchedule::new(cron.clone(), Duration::zero(), 3, 0);
    let zero_group = GroupedCronSchedule::new(cron.clone(), Duration::from_secs(10), 0, 0);
    let out_of_range = GroupedCronSchedule::new(cron, Duration::from_secs(10), 3, 3);

    let zero_spread_error =
        grouped_cron::validate(&zero_spread, &Timezone::utc(), now()).unwrap_err();
    let zero_group_error =
        grouped_cron::validate(&zero_group, &Timezone::utc(), now()).unwrap_err();
    let out_of_range_error =
        grouped_cron::validate(&out_of_range, &Timezone::utc(), now()).unwrap_err();

    assert!(has_kind(&zero_spread_error, InvalidJobKind::Other));
    assert!(has_kind(&zero_group_error, InvalidJobKind::Other));
    assert!(has_kind(&out_of_range_error, InvalidJobKind::Other));
}

#[test]
fn grouped_cron_validation_rejects_spread_that_reaches_next_anchor() {
    let schedule = GroupedCronSchedule::new(
        CronSchedule::parse("* * * * *").unwrap(),
        Duration::from_secs(60),
        4,
        0,
    );

    let error = grouped_cron::validate(&schedule, &Timezone::utc(), now()).unwrap_err();

    assert!(has_kind(&error, InvalidJobKind::Other));
}

#[test]
fn staggered_initial_next_run_is_deterministic_and_bounded() {
    let now = at(2026, 4, 3, 1, 2, 3);
    let schedule = StaggeredIntervalSchedule::new(Duration::from_secs(86_400));
    let seeded = schedule.clone().with_seed("site-a");
    let next = staggered_initial_next_run_at(now, &seeded, "job-a").unwrap();

    let interval_nanos = 86_400_u128 * 1_000_000_000;
    let phase_nanos = i128::from(stable_seed_hash("site-a")).rem_euclid(interval_nanos as i128);
    let now_nanos = utc_to_nanos(now);
    let cycle_start = now_nanos.div_euclid(interval_nanos as i128) * interval_nanos as i128;
    let mut expected = cycle_start + phase_nanos;
    if expected < now_nanos {
        expected += interval_nanos as i128;
    }

    assert_eq!(next, nanos_to_utc(expected).unwrap());
    assert_eq!(
        staggered_initial_next_run_at(now, &schedule.clone().with_seed("site-a"), "job-a").unwrap(),
        next
    );
    assert!(next >= now);
    assert!(next < later(now, 86_400));
}

#[test]
fn staggered_initial_next_run_falls_back_to_job_id_when_seed_missing() {
    let now = at(2026, 4, 3, 1, 2, 3);
    let schedule = StaggeredIntervalSchedule::new(Duration::from_secs(3_600));

    let next = staggered_initial_next_run_at(now, &schedule, "job-a").unwrap();
    let repeated = staggered_initial_next_run_at(now, &schedule, "job-a").unwrap();
    let different = staggered_initial_next_run_at(now, &schedule, "job-b").unwrap();

    assert_eq!(next, repeated);
    assert!(next >= now);
    assert!(next < later(now, 3_600));
    assert_ne!(next, different);
}

#[test]
fn grouped_initial_next_run_is_evenly_spaced() {
    let now = at(2026, 4, 3, 0, 0, 0);
    let interval = Duration::from_secs(120 * 60);
    let member0 = GroupedIntervalSchedule::new(interval, 3, 0);
    let member1 = GroupedIntervalSchedule::new(interval, 3, 1);
    let member2 = GroupedIntervalSchedule::new(interval, 3, 2);

    let next0 = grouped_initial_next_run_at(now, &member0).unwrap();
    let next1 = grouped_initial_next_run_at(now, &member1).unwrap();
    let next2 = grouped_initial_next_run_at(now, &member2).unwrap();

    assert_eq!(next0, now);
    assert_eq!(next1, later(now, 40 * 60));
    assert_eq!(next2, later(now, 80 * 60));
}

#[test]
fn grouped_initial_next_run_uses_group_seed_as_a_shared_rotation() {
    let now = at(2026, 4, 3, 0, 0, 0);
    let interval = Duration::from_secs(120 * 60);
    let a0 = GroupedIntervalSchedule::new(interval, 3, 0).with_group_seed("site-a");
    let a1 = GroupedIntervalSchedule::new(interval, 3, 1).with_group_seed("site-a");
    let b0 = GroupedIntervalSchedule::new(interval, 3, 0).with_group_seed("site-b");

    let next_a0 = grouped_initial_next_run_at(now, &a0).unwrap();
    let next_a1 = grouped_initial_next_run_at(now, &a1).unwrap();
    let next_b0 = grouped_initial_next_run_at(now, &b0).unwrap();

    assert_eq!(
        ((next_a1.unix_nanos() - next_a0.unix_nanos()) / 1_000_000_000).rem_euclid(120 * 60),
        40 * 60
    );
    assert_eq!(next_a0, grouped_initial_next_run_at(now, &a0).unwrap());
    assert_ne!(next_a0, next_b0);
}

#[test]
fn grouped_interval_validation_rejects_invalid_parameters() {
    let zero_group = GroupedIntervalSchedule::new(Duration::from_secs(60), 0, 0);
    let out_of_range = GroupedIntervalSchedule::new(Duration::from_secs(60), 3, 3);

    let zero_group_error = validate_grouped_interval(&zero_group).unwrap_err();
    let out_of_range_error = validate_grouped_interval(&out_of_range).unwrap_err();

    assert!(matches!(
        zero_group_error,
        SchedulerError::InvalidJob(ref invalid)
            if invalid.kind() == InvalidJobKind::Other
    ));
    assert!(matches!(
        out_of_range_error,
        SchedulerError::InvalidJob(ref invalid)
            if invalid.kind() == InvalidJobKind::Other
    ));
}

#[test]
fn disabled_alignment_returns_candidate_unchanged() {
    let candidate = at(2026, 5, 8, 8, 0, 0);
    let aligned = align_to_window(
        Some(candidate),
        TimeWindowAlignment::Disabled,
        Some(&utc_segment(9, 10)),
        &Timezone::utc(),
    );

    assert_eq!(aligned, Some(candidate));
}

#[test]
fn candidate_inside_window_is_unchanged() {
    let candidate = at(2026, 5, 8, 9, 30, 0);
    let aligned = align_to_window(
        Some(candidate),
        TimeWindowAlignment::AlignToNextWindow,
        Some(&utc_segment(9, 10)),
        &Timezone::utc(),
    );

    assert_eq!(aligned, Some(candidate));
}

#[test]
fn candidate_outside_window_moves_to_next_start() {
    let candidate = at(2026, 5, 8, 10, 15, 0);
    let aligned = align_to_window(
        Some(candidate),
        TimeWindowAlignment::AlignToNextWindow,
        Some(&utc_segment(9, 10)),
        &Timezone::utc(),
    );

    assert_eq!(aligned, Some(at(2026, 5, 9, 9, 0, 0)));
}

#[test]
fn weekday_only_window_moves_to_next_allowed_day() {
    let candidate = at(2026, 5, 9, 10, 15, 0);
    let window = JobTimeWindow {
        timezone: Some(Timezone::utc()),
        weekdays: vec![Weekday::Mon],
        segments: Vec::new(),
    };

    let aligned = align_to_window(
        Some(candidate),
        TimeWindowAlignment::AlignToNextWindow,
        Some(&window),
        &Timezone::utc(),
    );

    assert_eq!(aligned, Some(at(2026, 5, 11, 0, 0, 0)));
}

#[test]
fn uses_matching_window_frequency() {
    let scheduled_at = at(2026, 5, 8, 9, 0, 0);
    let windowed = WindowedIntervalSchedule::new(Some(Duration::from_secs(1800)))
        .with_window(utc_segment(9, 10), Some(Duration::from_secs(30)));

    let next = windowed_interval::next_after(scheduled_at, &windowed, &Timezone::utc()).unwrap();

    assert_eq!(next, Some(at(2026, 5, 8, 9, 0, 30)));
}

#[test]
fn recomputes_when_candidate_enters_lower_frequency_period() {
    let scheduled_at = at(2026, 5, 8, 9, 59, 45);
    let windowed = WindowedIntervalSchedule::new(Some(Duration::from_secs(1800)))
        .with_window(utc_segment(9, 10), Some(Duration::from_secs(30)));

    let next = windowed_interval::next_after(scheduled_at, &windowed, &Timezone::utc()).unwrap();

    assert_eq!(next, Some(at(2026, 5, 8, 10, 30, 15)));
}

#[test]
fn disabled_default_starts_at_next_enabled_window() {
    let scheduled_at = at(2026, 5, 8, 8, 0, 0);
    let windowed = WindowedIntervalSchedule::new(None)
        .with_window(utc_segment(9, 10), Some(Duration::from_secs(30)));

    let next = windowed_interval::next_after(scheduled_at, &windowed, &Timezone::utc()).unwrap();

    assert_eq!(next, Some(at(2026, 5, 8, 9, 0, 0)));
}

#[test]
fn disabled_window_resumes_at_window_end() {
    let scheduled_at = at(2026, 5, 8, 11, 45, 0);
    let windowed = WindowedIntervalSchedule::new(Some(Duration::from_secs(1800)))
        .with_window(utc_segment(12, 13), None);

    let next = windowed_interval::next_after(scheduled_at, &windowed, &Timezone::utc()).unwrap();

    assert_eq!(next, Some(at(2026, 5, 8, 13, 0, 0)));
}

#[test]
fn supports_cross_midnight_windows() {
    let scheduled_at = at(2026, 5, 8, 21, 0, 0);
    let windowed = WindowedIntervalSchedule::new(None)
        .with_window(utc_segment(22, 2), Some(Duration::from_secs(3600)));

    let next = windowed_interval::next_after(scheduled_at, &windowed, &Timezone::utc()).unwrap();

    assert_eq!(next, Some(at(2026, 5, 8, 22, 0, 0)));

    let next =
        windowed_interval::next_after(at(2026, 5, 9, 1, 30, 0), &windowed, &Timezone::utc())
            .unwrap();

    assert_eq!(next, Some(at(2026, 5, 9, 22, 0, 0)));
}

#[test]
fn first_matching_window_wins() {
    let scheduled_at = at(2026, 5, 8, 8, 59, 0);
    let windowed = WindowedIntervalSchedule::new(Some(Duration::from_secs(1800)))
        .with_window(utc_segment(9, 10), None)
        .with_window(utc_segment(9, 10), Some(Duration::from_secs(30)));

    let next = windowed_interval::next_after(scheduled_at, &windowed, &Timezone::utc()).unwrap();

    assert_eq!(next, Some(at(2026, 5, 8, 10, 0, 0)));
}

#[test]
fn all_disabled_is_noop() {
    let scheduled_at = at(2026, 5, 8, 8, 59, 0);
    let windowed = WindowedIntervalSchedule::new(None).with_window(utc_segment(9, 10), None);

    let next = windowed_interval::next_after(scheduled_at, &windowed, &Timezone::utc()).unwrap();

    assert!(next.is_none());
}

#[test]
fn rejects_zero_frequency() {
    let windowed = WindowedIntervalSchedule::new(None)
        .with_window(utc_segment(9, 10), Some(Duration::zero()));

    let error = windowed_interval::next_after(now(), &windowed, &Timezone::utc()).unwrap_err();

    assert!(has_kind(&error, InvalidJobKind::ZeroInterval));
}

#[test]
fn schedule_variant_compiles_against_public_type() {
    let schedule = Schedule::WindowedInterval(WindowedIntervalSchedule::new(None));

    assert!(matches!(schedule, Schedule::WindowedInterval(_)));
}

#[test]
fn seeds_hash_to_known_numbers() {
    assert_eq!(stable_seed_hash(""), 0xcbf29ce484222325);
    assert_eq!(stable_seed_hash("a"), 0xaf63dc4c8601ec8c);
    assert_eq!(stable_seed_hash("foobar"), 0x85944171f73967e8);
    assert_eq!(grouped_cron::stable_seed_hash("foobar"), 0x85944171f73967e8);
}

#[test]
fn members_of_a_seeded_group_keep_their_distance() {
    let now = at(2026, 4, 3, 0, 0, 0);
    let every = Duration::from_secs(3 * 60);
    let first = grouped_initial_next_run_at(
        now,
        &GroupedIntervalSchedule::new(every, 3, 0).with_group_seed("group"),
    )
    .unwrap();
    let second = grouped_initial_next_run_at(
        now,
        &GroupedIntervalSchedule::new(every, 3, 1).with_group_seed("group"),
    )
    .unwrap();
    let third = grouped_initial_next_run_at(
        now,
        &GroupedIntervalSchedule::new(every, 3, 2).with_group_seed("group"),
    )
    .unwrap();
    let cycle: i128 = 180_000_000_000;
    assert_eq!((second.unix_nanos() - first.unix_nanos()).rem_euclid(cycle), 60_000_000_000);
    assert_eq!((third.unix_nanos() - second.unix_nanos()).rem_euclid(cycle), 60_000_000_000);
}

#[test]
fn intervals_of_length_zero_and_beyond_the_calendar_are_refused() {
    let zero = StaggeredIntervalSchedule::new(Duration::zero());
    let error = staggered_initial_next_run_at(now(), &zero, "job").unwrap_err();
    assert!(has_kind(&error, InvalidJobKind::ZeroInterval));

    let endless = GroupedIntervalSchedule::new(Duration::from_secs(u64::MAX), 2, 1);
    let error = grouped_initial_next_run_at(now(), &endless).unwrap_err();
    assert!(has_kind(&error, InvalidJobKind::IntervalOutOfRange));

    let group = GroupedIntervalSchedule::new(Duration::zero(), 3, 0);
    let error = grouped_initial_next_run_at(now(), &group).unwrap_err();
    assert!(has_kind(&error, InvalidJobKind::ZeroInterval));
}

#[test]
fn an_aligned_candidate_is_never_moved_back() {
    let window = utc_segment(9, 10);
    let mut hour = 0;
    while hour < 24 {
        let candidate = at(2026, 5, 8, hour, 15, 0);
        let aligned = align_to_window(
            Some(candidate),
            TimeWindowAlignment::AlignToNextWindow,
            Some(&window),
            &Timezone::utc(),
        )
        .unwrap();
        assert!(aligned >= candidate);
        assert!(window.matches(aligned, &Timezone::utc()));
        hour += 1;
    }
}

#[test]
fn no_candidate_stays_no_candidate() {
    assert_eq!(
        align_to_window(
            None,
            TimeWindowAlignment::AlignToNextWindow,
            Some(&utc_segment(9, 10)),
            &Timezone::utc(),
        ),
        None
    );
}

#[test]
fn a_spread_shorter_than_the_gap_is_accepted() {
    let schedule = GroupedCronSchedule::new(
        CronSchedule::parse("* * * * *").unwrap(),
        Duration::from_secs(59),
        4,
        0,
    );
    assert!(grouped_cron::validate(&schedule, &Timezone::utc(), now()).is_ok());
}

#[test]
fn builders_of_spread_intervals() {
    let day = Duration::from_secs(86_400);
    assert_eq!(
        Schedule::staggered_interval(day),
        Schedule::StaggeredInterval(StaggeredIntervalSchedule::new(day))
    );
    assert_eq!(
        Schedule::staggered_interval_with_seed(day, "example.com"),
        Schedule::StaggeredInterval(StaggeredIntervalSchedule {
            every: day,
            seed: Some("example.com".to_string()),
        })
    );
    assert_eq!(
        Schedule::grouped_interval(day, 3, 1),
        Schedule::GroupedInterval(GroupedIntervalSchedule::new(day, 3, 1))
    );
    assert_eq!(
        Schedule::grouped_interval_with_seed(day, 3, 1, "example.com"),
        Schedule::GroupedInterval(GroupedIntervalSchedule {
            every: day,
            group_size: 3,
            member_index: 1,
            group_seed: Some("example.com".to_string()),
        })
    );
}

#[test]
fn a_disabled_segment_begun_the_evening_before_ends_the_same_day() {
    let windowed = WindowedIntervalSchedule::new(Some(Duration::from_secs(1800)))
        .with_window(utc_segment(22, 2), None);

    let next =
        windowed_interval::next_after(at(2026, 5, 8, 1, 0, 0), &windowed, &Timezone::utc());
    assert_eq!(next.unwrap(), Some(at(2026, 5, 8, 2, 0, 0)));

    let next =
        windowed_interval::next_after(at(2026, 5, 8, 21, 45, 0), &windowed, &Timezone::utc());
    assert_eq!(next.unwrap(), Some(at(2026, 5, 9, 2, 0, 0)));

    let next =
        windowed_interval::next_after(at(2026, 5, 8, 2, 0, 0), &windowed, &Timezone::utc());
    assert_eq!(next.unwrap(), Some(at(2026, 5, 8, 2, 30, 0)));
}

#[test]
fn a_disabled_segment_of_one_weekday_ends_on_the_next_day() {
    let mut window = utc_segment(22, 2);
    window.weekdays = vec![Weekday::Thu];
    let windowed =
        WindowedIntervalSchedule::new(Some(Duration::from_secs(1800))).with_window(window, None);

    let next =
        windowed_interval::next_after(at(2026, 5, 8, 1, 0, 0), &windowed, &Timezone::utc());
    assert_eq!(next.unwrap(), Some(at(2026, 5, 8, 2, 0, 0)));
}

#[test]
fn a_disabled_segment_in_another_zone_ends_on_its_clocks() {
    let mut window = utc_segment(22, 2);
    window.timezone = Some(Timezone::shanghai());
    let windowed =
        WindowedIntervalSchedule::new(Some(Duration::from_secs(1800))).with_window(window, None);

    let next =
        windowed_interval::next_after(at(2026, 5, 7, 17, 0, 0), &windowed, &Timezone::utc());
    assert_eq!(next.unwrap(), Some(at(2026, 5, 7, 18, 0, 0)));
}

#[test]
fn a_job_without_a_window_keeps_its_candidate() {
    let candidate = at(2026, 5, 8, 8, 0, 0);
    let aligned = align_to_window(
        Some(candidate),
        TimeWindowAlignment::AlignToNextWindow,
        None,
        &Timezone::utc(),
    );
    assert_eq!(aligned, Some(candidate));
}

#[test]
fn an_aligned_candidate_is_the_first_open_minute() {
    let mut window = utc_segment(22, 2);
    window.weekdays = vec![Weekday::Mon, Weekday::Thu];
    let start = at(2026, 5, 4, 0, 0, 0);
    let mut minute = 0;
    while minute < 7 * 24 * 60 {
        let candidate = later(start, minute * 60);
        let mut expected = candidate;
        while !window.matches(expected, &Timezone::utc()) {
            expected = later(expected, 60);
        }
        let aligned = align_to_window(
            Some(candidate),
            TimeWindowAlignment::AlignToNextWindow,
            Some(&window),
            &Timezone::utc(),
        );
        assert_eq!(aligned, Some(expected));
        minute += 97;
    }
}
