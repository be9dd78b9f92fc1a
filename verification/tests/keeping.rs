use chrono::{TimeZone, Utc};
use scheduler::observer::{LogLevel, LogObserver};
use scheduler::store::resilient::{LoadOutcome, PrimaryReply, ResilientStateStore};
use scheduler::text::{count_fields, decimal_text, is_word_ignoring_case, parse_unsigned};
use scheduler::text_map::TextMap;
use scheduler::{
    Duration, ExecutionGuardScope, InMemoryStateStore, JobState, PauseScope, RunSkipReason,
    RunStatus, SchedulerEvent, SchedulerStopReason, StateLoadSource, StoreEvent, StoreOperation,
    TimeOfDay, UtcTime, ValkeyStoreError, Weekday,
};

fn at(year: i32, month: u32, day: u32, hour: u32, minute: u32, second: u32) -> UtcTime {
    let instant = Utc.with_ymd_and_hms(year, month, day, hour, minute, second).unwrap();
    UtcTime::from_unix_nanos(instant.timestamp() as i128 * 1_000_000_000).unwrap()
}

fn state(job_id: &str, trigger_count: u32) -> JobState {
    let mut state = JobState::new(job_id, Some(at(2026, 4, 3, 1, 2, 3)));
    state.trigger_count = trigger_count;
    state
}

#[test]
fn a_store_gives_back_what_it_was_given() {
    let mut store = InMemoryStateStore::new();
    assert_eq!(store.load("job"), None);
    store.save(&state("job", 1));
    store.save(&state("other", 2));
    assert_eq!(store.load("job"), Some(state("job", 1)));
    store.save(&state("job", 3));
    assert_eq!(store.load("job"), Some(state("job", 3)));
    store.delete("job");
    assert_eq!(store.load("job"), None);
    assert_eq!(store.load("other"), Some(state("other", 2)));
}

#[test]
fn a_missed_write_is_served_and_written_back() {
    let mut store = ResilientStateStore::new();
    store.begin_save(&state("job", 1));
    assert!(store.finish_save(&state("job", 1), PrimaryReply::Unreachable("down".to_string())));
    assert!(store.is_degraded());
    assert_eq!(store.begin_load("job"), Some(Some(state("job", 1))));
    assert_eq!(store.begin_load("other"), None);
    assert_eq!(
        store.drain_events(),
        vec![
            StoreEvent::Degraded { operation: StoreOperation::Save, error: "down".to_string() },
            StoreEvent::RecoveryFailed {
                operation: StoreOperation::Save,
                error: "down".to_string(),
            },
        ]
    );

    store.begin_save(&state("job", 2));
    assert!(store.finish_save(&state("job", 2), PrimaryReply::Done(())));
    assert!(!store.is_degraded());
    assert_eq!(store.begin_load("job"), None);
    assert_eq!(
        store.drain_events(),
        vec![
            StoreEvent::Recovering { operation: StoreOperation::Save },
            StoreEvent::Recovered { operation: StoreOperation::Save },
        ]
    );
}

#[test]
fn a_load_falls_back_to_the_mirror() {
    let mut store = ResilientStateStore::new();
    store.begin_save(&state("job", 1));
    store.finish_save(&state("job", 1), PrimaryReply::Done(()));
    assert_eq!(
        store.finish_load("job", PrimaryReply::Unreachable("down".to_string())),
        LoadOutcome::Found(Some(state("job", 1)))
    );
    assert!(store.is_degraded());
    assert_eq!(
        store.finish_load("job", PrimaryReply::Done(Some(state("job", 4)))),
        LoadOutcome::Found(Some(state("job", 4)))
    );
    assert!(!store.is_degraded());
    assert_eq!(store.finish_load("job", PrimaryReply::Failed), LoadOutcome::PrimaryFailed);
}

#[test]
fn a_missed_delete_is_remembered() {
    let mut store = ResilientStateStore::degraded();
    store.begin_delete("job");
    assert!(store.finish_delete("job", PrimaryReply::Unreachable("down".to_string())));
    assert_eq!(store.begin_load("job"), Some(None));
    store.begin_save(&state("other", 1));
    store.finish_save(&state("other", 1), PrimaryReply::Unreachable("down".to_string()));
    store.begin_delete("job");
    assert!(store.finish_delete("job", PrimaryReply::Done(())));
    assert!(store.is_degraded());
    assert_eq!(store.begin_load("other"), Some(Some(state("other", 1))));
    assert!(!store.finish_save(&state("other", 1), PrimaryReply::Failed));
}

#[test]
fn errors_of_a_primary_store_are_told_apart() {
    let down: PrimaryReply<()> =
        PrimaryReply::of_error(&ValkeyStoreError::Unavailable, "down".to_string());
    assert!(matches!(down, PrimaryReply::Unreachable(message) if message == "down"));
    let bad = ValkeyStoreError::Codec { message: "bad".to_string() };
    let failed: PrimaryReply<()> = PrimaryReply::of_error(&bad, "bad".to_string());
    assert!(matches!(failed, PrimaryReply::Failed));
}

#[test]
fn texts_and_numbers() {
    assert_eq!(decimal_text(0), "0");
    assert_eq!(decimal_text(u128::MAX), u128::MAX.to_string());
    assert_eq!(parse_unsigned("42", 100), Some(42));
    assert_eq!(parse_unsigned("+42", 100), Some(42));
    assert_eq!(parse_unsigned("101", 100), None);
    assert_eq!(parse_unsigned("", 100), None);
    assert_eq!(parse_unsigned("+", 100), None);
    assert_eq!(parse_unsigned("-1", 100), None);
    assert_eq!(parse_unsigned("18446744073709551616", u64::MAX), None);
    assert_eq!(parse_unsigned("18446744073709551615", u64::MAX), Some(u64::MAX));
    assert!(is_word_ignoring_case("TrUe", "true"));
    assert!(!is_word_ignoring_case("truth", "true"));
    assert_eq!(count_fields(" a \t b\u{3000}c "), 3);
    assert_eq!(count_fields(""), 0);
}

#[test]
fn a_map_of_texts() {
    let mut map: TextMap<u8> = TextMap::new();
    assert!(map.is_empty());
    map.insert("a", 1);
    map.insert("b", 2);
    map.insert("a", 3);
    assert_eq!(map.get("a"), Some(&3));
    assert!(map.contains_key("b"));
    assert_eq!(map.remove("b"), Some(2));
    assert_eq!(map.remove("b"), None);
    assert_eq!(map.keys(), vec!["a".to_string()]);
}

#[test]
fn spans_and_times_of_day() {
    assert!(Duration::zero().is_zero());
    assert_eq!(Duration::from_millis(1_500).as_secs(), 1);
    assert_eq!(Duration::from_millis(1_500).subsec_nanos(), 500_000_000);
    assert_eq!(Duration::new(1, 1_000_000_000), Some(Duration::from_secs(2)));
    assert_eq!(Duration::new(u64::MAX, 1_000_000_000), None);
    assert!(Duration::from_millis(1).shorter_than(&Duration::from_millis(2)));
    assert_eq!(Duration::from_secs(u64::MAX).saturating_mul(2).as_secs(), u64::MAX);
    assert!(TimeOfDay::from_hms(24, 0, 0).is_none());
    assert!(TimeOfDay::from_hms(23, 59, 59).is_some());
    assert!(UtcTime::from_unix_nanos(i128::MAX).is_none());
    assert_eq!(scheduler::time::weekday_of_day(0), Weekday::Thu);
    assert_eq!(scheduler::time::weekday_of_day(-1), Weekday::Wed);
    assert_eq!(scheduler::time::previous_weekday(Weekday::Mon), Weekday::Sun);
}

#[test]
fn lines_of_a_log() {
    let loaded = LogObserver.line(&SchedulerEvent::StateLoaded {
        job_id: "job".to_string(),
        trigger_count: 2,
        next_run_at: Some(at(2026, 4, 3, 1, 2, 3)),
        source: StateLoadSource::Restored,
    });
    assert_eq!(
        loaded.text,
        "scheduler state loaded job_id=job source=Restored trigger_count=2 \
         next_run_at=Some(2026-04-03T01:02:03Z)"
    );

    let emitted = LogObserver.line(&SchedulerEvent::TriggerEmitted {
        job_id: "job".to_string(),
        scheduled_at: at(2026, 4, 3, 1, 2, 3),
        catch_up: true,
        trigger_count: 3,
    });
    assert_eq!(
        emitted.text,
        "scheduler trigger emitted job_id=job scheduled_at=2026-04-03 01:02:03 UTC \
         catch_up=true trigger_count=3"
    );

    let failed = LogObserver.line(&SchedulerEvent::RunCompleted {
        job_id: "job".to_string(),
        scheduled_at: at(2026, 4, 3, 1, 2, 3),
        catch_up: false,
        trigger_count: 3,
        status: RunStatus::Failed,
        error: Some("say \"no\"".to_string()),
    });
    assert_eq!(
        failed.text,
        "scheduler run completed job_id=job scheduled_at=2026-04-03 01:02:03 UTC \
         catch_up=false trigger_count=3 status=Failed error=Some(\"say \\\"no\\\"\")"
    );

    let lost = LogObserver.line(&SchedulerEvent::ExecutionGuardLost {
        job_id: "job".to_string(),
        resource_id: "db".to_string(),
        scope: ExecutionGuardScope::Resource,
        lease_key: "key".to_string(),
        scheduled_at: None,
        catch_up: false,
        trigger_count: 1,
        renewal_count: 2,
        failed_renewal_count: 1,
    });
    assert_eq!(lost.level, LogLevel::Warn);
    assert_eq!(
        lost.text,
        "scheduler execution guard lost job_id=job resource_id=db scope=Resource lease_key=key \
         scheduled_at=None catch_up=false trigger_count=1 renewal_count=2 failed_renewal_count=1"
    );

    let skipped = LogObserver.line(&SchedulerEvent::RunSkipped {
        job_id: "job".to_string(),
        scheduled_at: at(2026, 4, 3, 1, 2, 3),
        catch_up: false,
        trigger_count: 1,
        reason: RunSkipReason::OutsideTimeWindow,
    });
    assert_eq!(
        skipped.text,
        "scheduler run skipped job_id=job scheduled_at=2026-04-03 01:02:03 UTC \
         catch_up=false trigger_count=1 reason=outside_time_window"
    );

    let stopped = LogObserver.line(&SchedulerEvent::SchedulerStopped {
        job_id: "job".to_string(),
        trigger_count: 1,
        reason: SchedulerStopReason::Terminal,
    });
    assert!(stopped.text.contains("reason=Terminal"));

    let paused = LogObserver.line(&SchedulerEvent::SchedulerPaused {
        job_id: "job".to_string(),
        trigger_count: 1,
        scope: PauseScope::Shared,
    });
    assert!(paused.text.contains("scope=Shared"));
}

#[test]
fn a_dirty_job_is_served_while_others_are_loaded_and_saved() {
    let mut store = ResilientStateStore::new();
    store.begin_save(&state("a", 2));
    assert!(store.finish_save(&state("a", 2), PrimaryReply::Unreachable("down".to_string())));
    store.drain_events();

    assert_eq!(store.begin_load("b"), None);
    assert_eq!(
        store.finish_load("b", PrimaryReply::Done(Some(state("b", 1)))),
        LoadOutcome::Found(Some(state("b", 1)))
    );
    assert!(store.is_degraded());
    assert_eq!(store.begin_load("a"), Some(Some(state("a", 2))));

    store.begin_save(&state("b", 2));
    assert!(store.finish_save(&state("b", 2), PrimaryReply::Done(())));
    assert!(store.is_degraded());
    assert_eq!(store.begin_load("a"), Some(Some(state("a", 2))));
    assert_eq!(
        store.drain_events(),
        vec![StoreEvent::Recovering { operation: StoreOperation::Save }]
    );

    store.begin_save(&state("a", 3));
    assert!(store.finish_save(&state("a", 3), PrimaryReply::Done(())));
    assert!(!store.is_degraded());
    assert_eq!(store.begin_load("a"), None);
}
