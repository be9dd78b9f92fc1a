use std::collections::VecDeque;

use chrono::{TimeZone, Utc};
use scheduler::scheduler::execution::{
    apply_completed_run, CompletedRun, LeaseRenewals, RenewalReply,
};
use scheduler::scheduler::overlap::{dispatch_trigger, take_queued_if_idle, OverlapAction};
use scheduler::scheduler::runtime_events::{
    execution_guard_acquired, execution_guard_released, release_outcome, run_completed,
    state_loaded, state_repaired, store_events_for,
};
use scheduler::scheduler::trigger::{
    next_trigger, try_next_trigger, PendingTrigger, TriggerDecision,
};
use scheduler::scheduler::trigger_math::{
    advance_state_for, advance_state_for_manual_trigger, collect_due_times, compute_next_after,
    consume_due_summary, initial_next_run_at, inspect_due_window, is_missed,
    next_run_is_in_future, try_consume_due_summary,
};
use scheduler::{
    CronSchedule, Duration, ExecutionGuardRenewal, ExecutionGuardScope, ExecutionLease, Job,
    JobState, JobTimeWindow, MissedRunPolicy, OverlapPolicy, RunRecord, RunStatus, Schedule,
    SchedulerError, SchedulerEvent, StaggeredIntervalSchedule, StateLoadSource, StoreEvent,
    StoreOperation, TimeOfDay, TimeWindowSegment, Timezone, TriggerSource, UtcTime,
};

fn at(year: i32, month: u32, day: u32, hour: u32, minute: u32, second: u32) -> UtcTime {
    let instant = Utc.with_ymd_and_hms(year, month, day, hour, minute, second).unwrap();
    UtcTime::from_unix_nanos(instant.timestamp() as i128 * 1_000_000_000).unwrap()
}

fn now() -> UtcTime {
    let instant = Utc::now();
    UtcTime::from_unix_nanos(
        instant.timestamp() as i128 * 1_000_000_000 + instant.timestamp_subsec_nanos() as i128,
    )
    .unwrap()
}

fn later(instant: UtcTime, seconds: i128) -> UtcTime {
    instant.shifted(seconds * 1_000_000_000).unwrap()
}

fn noop_job(schedule: Schedule) -> Job {
    Job::without_deps("job", schedule)
}

fn utc_segment(start_hour: u32, end_hour: u32) -> JobTimeWindow {
    JobTimeWindow {
        timezone: Some(Timezone::utc()),
        weekdays: Vec::new(),
        segments: vec![TimeWindowSegment::new(
            TimeOfDay::from_hms(start_hour, 0, 0).unwrap(),
            TimeOfDay::from_hms(end_hour, 0, 0).unwrap(),
        )],
    }
}

fn trigger() -> PendingTrigger {
    PendingTrigger {
        scheduled_at: now(),
        catch_up: false,
        trigger_count: 1,
        source: TriggerSource::Scheduled,
    }
}

#[test]
fn compute_next_after_stops_at_max_runs_for_interval() {
    let scheduled_at = now();
    let job = noop_job(Schedule::Interval(Duration::from_secs(5))).with_max_runs(2);

    let next = compute_next_after(&job, scheduled_at, 2, &Timezone::shanghai()).unwrap();

    assert!(next.is_none());
}

#[test]
fn collect_due_times_replays_all_past_at_times() {
    let now = now();
    let times = vec![later(now, -2), later(now, -1), later(now, 3)];
    let state = JobState::new("job", Some(times[0]));
    let job = noop_job(Schedule::AtTimes(times));

    let due = collect_due_times(&job, &state, now, &Timezone::shanghai()).unwrap().unwrap();

    assert_eq!(due.len(), 2);
}

#[test]
fn inspect_due_window_detects_multiple_due_runs() {
    let now = now();
    let state = JobState::new("job", Some(later(now, -2)));
    let job = noop_job(Schedule::Interval(Duration::from_secs(1))).with_max_runs(4);

    let window = inspect_due_window(&job, &state, now, &Timezone::shanghai()).unwrap().unwrap();

    assert_eq!(window.first_due, later(now, -2));
    assert!(window.has_multiple);
}

#[test]
fn next_trigger_skip_advances_state_without_emitting_run() {
    let now = now();
    let times = vec![later(now, -2), later(now, 2)];
    let mut state = JobState::new("job", Some(times[0]));
    let job = noop_job(Schedule::AtTimes(times)).with_missed_run_policy(MissedRunPolicy::Skip);

    let trigger = next_trigger(&job, &mut state, now, &Timezone::shanghai()).unwrap();

    assert_eq!(trigger, TriggerDecision::StateAdvanced);
    assert_eq!(state.trigger_count, 1);
    assert!(state.next_run_at.unwrap() > now);
}

#[test]
fn next_trigger_replay_all_returns_oldest_due_run() {
    let now = now();
    let first = later(now, -2);
    let second = later(now, -1);
    let mut state = JobState::new("job", Some(first));
    let job = noop_job(Schedule::AtTimes(vec![first, second]))
        .with_missed_run_policy(MissedRunPolicy::ReplayAll);

    let trigger = next_trigger(&job, &mut state, now, &Timezone::shanghai()).unwrap();

    assert_eq!(
        trigger,
        TriggerDecision::Trigger(PendingTrigger {
            scheduled_at: first,
            catch_up: true,
            trigger_count: 1,
            source: TriggerSource::Scheduled,
        })
    );
    assert_eq!(state.trigger_count, 1);
}

#[test]
fn advance_state_for_consumes_multiple_due_times() {
    let now = now();
    let first = later(now, -3);
    let second = later(now, -2);
    let third = later(now, 1);
    let mut state = JobState::new("job", Some(first));
    let job = noop_job(Schedule::AtTimes(vec![first, second, third]));

    advance_state_for(&job, &mut state, &vec![first, second], &Timezone::shanghai()).unwrap();

    assert_eq!(state.trigger_count, 2);
    assert_eq!(state.next_run_at, Some(third));
}

#[test]
fn consume_due_summary_advances_without_collecting_every_due_time() {
    let now = now();
    let mut state = JobState::new("job", Some(later(now, -3)));
    let job = noop_job(Schedule::Interval(Duration::from_secs(1)));

    let summary =
        consume_due_summary(&job, &mut state, now, &Timezone::shanghai()).unwrap().unwrap();

    assert_eq!(summary.first_due, later(now, -3));
    assert_eq!(summary.last_due, now);
    assert_eq!(summary.count, 4);
    assert_eq!(state.trigger_count, 4);
    assert_eq!(state.next_run_at, Some(later(now, 1)));
}

#[test]
fn compute_next_after_advances_cron_from_scheduled_time() {
    let scheduled_at = at(2026, 4, 3, 1, 2, 0);
    let job = noop_job(Schedule::Cron(CronSchedule::parse("* * * * *").unwrap()));

    let next = compute_next_after(&job, scheduled_at, 1, &Timezone::utc()).unwrap();

    assert_eq!(next, Some(at(2026, 4, 3, 1, 3, 0)));
}

#[test]
fn compute_next_after_staggered_interval_advances_by_the_base_duration() {
    let scheduled_at = at(2026, 4, 3, 1, 2, 0);
    let job = noop_job(Schedule::StaggeredInterval(
        StaggeredIntervalSchedule::new(Duration::from_secs(60)).with_seed("site-a"),
    ));

    let next = compute_next_after(&job, scheduled_at, 1, &Timezone::utc()).unwrap();

    assert_eq!(next, Some(at(2026, 4, 3, 1, 3, 0)));
}

#[test]
fn collect_due_times_replays_staggered_interval_in_fixed_steps() {
    let now = at(2026, 4, 3, 1, 2, 3);
    let first = later(now, -3);
    let mut state = JobState::new("job", Some(first));
    let job = noop_job(Schedule::StaggeredInterval(
        StaggeredIntervalSchedule::new(Duration::from_secs(5)).with_seed("site-a"),
    ))
    .with_missed_run_policy(MissedRunPolicy::ReplayAll);

    let due = collect_due_times(&job, &state, now, &Timezone::shanghai()).unwrap().unwrap();

    assert_eq!(due, vec![first]);
    advance_state_for(&job, &mut state, &due, &Timezone::shanghai()).unwrap();
    assert_eq!(state.next_run_at, Some(later(first, 5)));
}

#[test]
fn time_window_alignment_moves_interval_candidate_into_window() {
    let scheduled_at = at(2026, 5, 8, 9, 45, 0);
    let job = noop_job(Schedule::Interval(Duration::from_secs(30 * 60)))
        .with_time_window(utc_segment(9, 10))
        .with_time_window_alignment();

    let next = compute_next_after(&job, scheduled_at, 1, &Timezone::utc()).unwrap();

    assert_eq!(next, Some(at(2026, 5, 9, 9, 0, 0)));
}

#[test]
fn time_window_alignment_does_not_move_at_times_schedule() {
    let first = at(2026, 5, 8, 10, 15, 0);
    let second = at(2026, 5, 8, 10, 30, 0);
    let job = noop_job(Schedule::AtTimes(vec![first, second]))
        .with_time_window(utc_segment(9, 10))
        .with_time_window_alignment();

    let next = compute_next_after(&job, first, 1, &Timezone::utc()).unwrap();

    assert_eq!(next, Some(second));
}

#[test]
fn queue_one_keeps_existing_queued_trigger() {
    let existing = trigger();
    let mut queued_trigger = Some(existing);

    let action = dispatch_trigger(OverlapPolicy::QueueOne, 1, &mut queued_trigger, trigger());

    assert_eq!(action, OverlapAction::QueueUpdated);
    assert_eq!(queued_trigger, Some(existing));
}

#[test]
fn forbid_drops_trigger_while_active() {
    let mut queued_trigger = None;

    let action = dispatch_trigger(OverlapPolicy::Forbid, 1, &mut queued_trigger, trigger());

    assert_eq!(action, OverlapAction::Dropped);
    assert!(queued_trigger.is_none());
}

#[test]
fn queued_trigger_is_taken_only_when_idle() {
    let queued = trigger();
    let mut queued_trigger = Some(queued);

    assert_eq!(take_queued_if_idle(1, &mut queued_trigger), None);
    assert_eq!(take_queued_if_idle(0, &mut queued_trigger), Some(queued));
    assert!(queued_trigger.is_none());
}

#[test]
fn apply_completed_run_updates_state_and_enforces_history_limit() {
    let t0 = now();
    let mut state = JobState::new("job", Some(t0));
    let mut history = VecDeque::from([RunRecord {
        scheduled_at: t0,
        started_at: t0,
        finished_at: t0,
        catch_up: false,
        status: RunStatus::Success,
        error: None,
    }]);
    let t1 = later(t0, 1);

    let (record, trigger_count) = apply_completed_run(
        &mut state,
        &mut history,
        1,
        CompletedRun {
            record: RunRecord {
                scheduled_at: t1,
                started_at: t1,
                finished_at: t1,
                catch_up: true,
                status: RunStatus::Failed,
                error: Some("boom".to_string()),
            },
            trigger_count: 7,
        },
    );

    assert_eq!(trigger_count, 7);
    assert_eq!(record.scheduled_at, t1);
    assert_eq!(state.last_run_at, Some(t1));
    assert_eq!(state.last_error.as_deref(), Some("boom"));
    assert_eq!(history.len(), 1);
    assert_eq!(history.front().expect("history item").scheduled_at, t1);
}

#[test]
fn state_loaded_uses_runtime_state_fields() {
    let state = JobState::new("job", Some(now()));
    let event = state_loaded(&"job".to_string(), &state, StateLoadSource::New);
    assert!(matches!(
        event,
        SchedulerEvent::StateLoaded { job_id, trigger_count, next_run_at, source }
            if job_id == "job"
                && trigger_count == state.trigger_count
                && next_run_at == state.next_run_at
                && source == StateLoadSource::New
    ));
}

fn lease() -> ExecutionLease {
    ExecutionLease::new(
        "job",
        "resource",
        ExecutionGuardScope::Occurrence,
        Some(now()),
        "token",
        "lease-key",
    )
}

#[test]
fn guard_events_preserve_lease_payload() {
    let lease = lease();
    let acquired = execution_guard_acquired(&lease, true, 7);
    let released = execution_guard_released(&lease, true, 7);
    assert!(matches!(
        acquired,
        SchedulerEvent::ExecutionGuardAcquired { lease_key, catch_up, trigger_count, .. }
            if lease_key == "lease-key" && catch_up && trigger_count == 7
    ));
    assert!(matches!(
        released,
        SchedulerEvent::ExecutionGuardReleased { lease_key, catch_up, trigger_count, .. }
            if lease_key == "lease-key" && catch_up && trigger_count == 7
    ));
}

#[test]
fn run_completed_uses_record_fields() {
    let scheduled_at = now();
    let record = RunRecord {
        scheduled_at,
        started_at: scheduled_at,
        finished_at: scheduled_at,
        catch_up: false,
        status: RunStatus::Success,
        error: None,
    };
    let event = run_completed(&"job".to_string(), &record, 3);
    assert!(matches!(
        event,
        SchedulerEvent::RunCompleted { job_id, scheduled_at: event_at, trigger_count, .. }
            if job_id == "job" && event_at == scheduled_at && trigger_count == 3
    ));
}

#[test]
fn the_first_run_of_an_interval_is_one_interval_away() {
    let start = at(2026, 4, 3, 1, 2, 3);
    let job = noop_job(Schedule::Interval(Duration::from_secs(5)));
    assert_eq!(
        initial_next_run_at(&job, start, &Timezone::utc()).unwrap(),
        Some(later(start, 5))
    );
}

#[test]
fn a_job_without_runs_is_never_due() {
    let start = at(2026, 4, 3, 1, 2, 3);
    let job = noop_job(Schedule::Interval(Duration::from_secs(5))).with_max_runs(0);
    assert_eq!(initial_next_run_at(&job, start, &Timezone::utc()).unwrap(), None);
    let job = noop_job(Schedule::AtTimes(Vec::new()));
    assert_eq!(initial_next_run_at(&job, start, &Timezone::utc()).unwrap(), None);
}

#[test]
fn an_interval_beyond_the_calendar_is_an_error() {
    let start = at(2026, 4, 3, 1, 2, 3);
    let job = noop_job(Schedule::Interval(Duration::from_secs(u64::MAX)));
    let error = compute_next_after(&job, start, 1, &Timezone::utc()).unwrap_err();
    assert_eq!(
        error.to_string(),
        "invalid job: interval schedule is too large to represent"
    );
}

#[test]
fn a_run_is_missed_after_twenty_five_milliseconds() {
    let due = at(2026, 4, 3, 1, 2, 3);
    assert!(!is_missed(due, due.shifted(25_000_000).unwrap()));
    assert!(is_missed(due, due.shifted(25_000_001).unwrap()));
}

#[test]
fn only_a_later_run_is_in_the_future() {
    let due = at(2026, 4, 3, 1, 2, 3);
    assert!(!next_run_is_in_future(None, due));
    assert!(!next_run_is_in_future(Some(due), due));
    assert!(next_run_is_in_future(Some(later(due, 1)), due));
}

#[test]
fn catching_up_runs_once_for_everything_missed() {
    let moment = at(2026, 4, 3, 1, 2, 3);
    let mut state = JobState::new("job", Some(later(moment, -3)));
    let job = noop_job(Schedule::Interval(Duration::from_secs(1)));
    let decision = next_trigger(&job, &mut state, moment, &Timezone::utc()).unwrap();
    assert_eq!(
        decision,
        TriggerDecision::Trigger(PendingTrigger {
            scheduled_at: moment,
            catch_up: true,
            trigger_count: 4,
            source: TriggerSource::Scheduled,
        })
    );
    assert_eq!(
        next_trigger(&job, &mut state, moment, &Timezone::utc()).unwrap(),
        TriggerDecision::Idle
    );
}

#[test]
fn skipping_still_runs_what_is_on_time() {
    let moment = at(2026, 4, 3, 1, 2, 3);
    let mut state = JobState::new("job", Some(moment));
    let job = noop_job(Schedule::Interval(Duration::from_secs(10)))
        .with_missed_run_policy(MissedRunPolicy::Skip);
    let decision = next_trigger(&job, &mut state, moment, &Timezone::utc()).unwrap();
    assert_eq!(
        decision,
        TriggerDecision::Trigger(PendingTrigger {
            scheduled_at: moment,
            catch_up: false,
            trigger_count: 1,
            source: TriggerSource::Scheduled,
        })
    );
    assert_eq!(state.next_run_at, Some(later(moment, 10)));
}

#[test]
fn replaying_goes_through_missed_runs_in_order() {
    let moment = at(2026, 4, 3, 1, 2, 3);
    let mut state = JobState::new("job", Some(later(moment, -2)));
    let job = noop_job(Schedule::Interval(Duration::from_secs(1)))
        .with_missed_run_policy(MissedRunPolicy::ReplayAll);
    let mut seen = Vec::new();
    while let TriggerDecision::Trigger(trigger) =
        next_trigger(&job, &mut state, moment, &Timezone::utc()).unwrap()
    {
        seen.push(trigger.scheduled_at);
    }
    assert_eq!(seen, vec![later(moment, -2), later(moment, -1), moment]);
    assert_eq!(state.trigger_count, 3);
}

#[test]
fn a_full_trigger_count_is_told_and_changes_nothing() {
    let moment = at(2026, 4, 3, 1, 2, 3);
    let mut state = JobState::new("job", Some(moment));
    state.trigger_count = u32::MAX;
    let job = noop_job(Schedule::Interval(Duration::from_secs(1)));
    let before = state.clone();
    assert!(try_next_trigger(&job, &mut state, moment, &Timezone::utc()).is_none());
    assert!(try_consume_due_summary(&job, &mut state, moment, &Timezone::utc()).is_none());
    assert!(collect_due_times(&job, &state, moment, &Timezone::utc()).is_none());
    assert_eq!(state, before);
}

#[test]
fn a_manual_trigger_counts_and_keeps_the_schedule() {
    let moment = at(2026, 4, 3, 1, 2, 3);
    let mut state = JobState::new("job", Some(moment));
    let job = noop_job(Schedule::Interval(Duration::from_secs(1))).with_max_runs(2);
    assert_eq!(advance_state_for_manual_trigger(&job, &mut state), 1);
    assert_eq!(state.next_run_at, Some(moment));
    assert_eq!(advance_state_for_manual_trigger(&job, &mut state), 2);
    assert_eq!(state.next_run_at, None);
}

#[test]
fn parallel_runs_are_started_whatever_is_active() {
    let wanted = trigger();
    let mut queued = None;
    assert_eq!(
        dispatch_trigger(OverlapPolicy::AllowParallel, 3, &mut queued, wanted),
        OverlapAction::Spawn(wanted)
    );
    assert_eq!(
        dispatch_trigger(OverlapPolicy::Forbid, 0, &mut queued, wanted),
        OverlapAction::Spawn(wanted)
    );
    assert_eq!(
        dispatch_trigger(OverlapPolicy::QueueOne, 1, &mut queued, wanted),
        OverlapAction::QueueUpdated
    );
    assert_eq!(queued, Some(wanted));
}

#[test]
fn a_run_keeps_what_is_due_next() {
    let moment = at(2026, 4, 3, 1, 2, 3);
    let mut state = JobState::new("job", Some(later(moment, 60)));
    let mut history = VecDeque::new();
    let completed = CompletedRun::of_trigger(trigger(), moment, later(moment, 1), Ok(()));
    apply_completed_run(&mut state, &mut history, 5, completed);
    assert_eq!(state.next_run_at, Some(later(moment, 60)));
    assert_eq!(state.last_run_at, Some(moment));
    assert_eq!(state.last_success_at, Some(later(moment, 1)));
    assert_eq!(history.back().unwrap().status, RunStatus::Success);

    let failed =
        CompletedRun::of_trigger(trigger(), moment, later(moment, 2), Err("boom".to_string()));
    apply_completed_run(&mut state, &mut history, 5, failed);
    assert_eq!(state.last_success_at, Some(later(moment, 1)));
    assert_eq!(state.last_error.as_deref(), Some("boom"));
    assert_eq!(history.len(), 2);
}

#[test]
fn the_loss_of_a_lease_is_told_once() {
    let job_id = "job".to_string();
    let lease = lease();
    let mut renewals = LeaseRenewals::started(true);

    let turn = renewals.on_reply(
        &job_id,
        &lease,
        false,
        4,
        RenewalReply::Answered(ExecutionGuardRenewal::Renewed),
    );
    assert!(!turn.shut_down);
    assert!(matches!(
        turn.events[0],
        SchedulerEvent::ExecutionGuardRenewed { renewal_count: 1, trigger_count: 4, .. }
    ));
    assert!(renewals.renewing);

    let turn =
        renewals.on_reply(&job_id, &lease, false, 4, RenewalReply::Failed("down".to_string()));
    assert!(turn.shut_down);
    assert_eq!(turn.events.len(), 2);
    assert!(matches!(
        &turn.events[0],
        SchedulerEvent::ExecutionGuardRenewFailed { failed_renewal_count: 1, error, .. }
            if error == "down"
    ));
    assert!(matches!(
        turn.events[1],
        SchedulerEvent::ExecutionGuardLost { renewal_count: 1, failed_renewal_count: 1, .. }
    ));
    assert!(!renewals.renewing);

    let turn = renewals.on_reply(
        &job_id,
        &lease,
        false,
        4,
        RenewalReply::Answered(ExecutionGuardRenewal::Lost),
    );
    assert!(!turn.shut_down);
    assert!(turn.events.is_empty());
}

#[test]
fn a_release_is_told_as_it_ended() {
    let job_id = "job".to_string();
    assert!(matches!(
        release_outcome(&job_id, &lease(), false, 1, None),
        SchedulerEvent::ExecutionGuardReleased { .. }
    ));
    assert!(matches!(
        release_outcome(&job_id, &lease(), false, 1, Some("gone".to_string())),
        SchedulerEvent::ExecutionGuardReleaseFailed { error, .. } if error == "gone"
    ));
}

#[test]
fn a_repair_tells_both_due_times() {
    let state = JobState::new("job", Some(at(2026, 4, 3, 1, 2, 3)));
    assert_eq!(
        state_repaired(&"job".to_string(), &state, None),
        SchedulerEvent::StateRepaired {
            job_id: "job".to_string(),
            trigger_count: 0,
            previous_next_run_at: None,
            repaired_next_run_at: state.next_run_at,
        }
    );
}

#[test]
fn events_of_a_store_are_told_in_their_order() {
    let told = store_events_for(
        &"job".to_string(),
        vec![
            StoreEvent::Degraded { operation: StoreOperation::Save, error: "down".to_string() },
            StoreEvent::Recovering { operation: StoreOperation::Save },
            StoreEvent::RecoveryConflict {
                operation: StoreOperation::Load,
                job_id: "other".to_string(),
                error: "newer".to_string(),
            },
        ],
    );
    assert_eq!(told.len(), 3);
    assert!(matches!(&told[0], SchedulerEvent::StoreDegraded { job_id, .. } if job_id == "job"));
    assert!(matches!(&told[1], SchedulerEvent::StoreRecovering { job_id, .. } if job_id == "job"));
    assert!(
        matches!(&told[2], SchedulerEvent::StoreRecoveryConflict { job_id, .. } if job_id == "other")
    );
}

#[test]
fn errors_read_as_where_they_come_from() {
    assert_eq!(
        SchedulerError::invalid_zero_interval().to_string(),
        "invalid job: interval schedule must be greater than zero"
    );
    assert_eq!(
        SchedulerError::store("lost", scheduler::StoreErrorKind::Data).to_string(),
        "state store error: lost"
    );
    assert_eq!(
        SchedulerError::execution_guard("lost", scheduler::ExecutionGuardErrorKind::Data)
            .to_string(),
        "execution guard error: lost"
    );
    let joined = SchedulerError::task_join(false, true, "boom");
    assert_eq!(joined.to_string(), "task join error: boom");
    assert!(matches!(
        joined,
        SchedulerError::TaskJoin(error) if error.kind() == scheduler::TaskJoinErrorKind::Panic
    ));
}
