use std::collections::VecDeque;

use chrono::{TimeZone, Utc};
use scheduler::guarded_runner::answer_request;
use scheduler::model::schedule::SchedulerConfig;
use scheduler::scheduler::control::{
    plan_mode_command, CommandDisposition, ControlSignal, LookStep, Looks, ManualTriggerRequest,
    ModeCommandPlan, SchedulerMode, SharedControl, StopSignal,
};
use scheduler::scheduler::coordinated::{
    changed_or_unreachable, claimed_or_unreachable, is_guard_connection_error,
    is_store_connection_error, look_at_shared_state, refreshed, request_due, take_claim,
    take_delete, take_repair, take_save, ClaimPurpose, DueRequest, SharedStart,
};
use scheduler::scheduler::coordinated_execution::{
    begin_completion, finish_completion, CoordinatedCompletedRun,
};
use scheduler::scheduler::engine::{
    normalize_job, should_repair_interval_state, should_wait_for_active_replay, sleep_until_next,
};
use scheduler::scheduler::execution::CompletedRun;
use scheduler::scheduler::legacy::{
    slot_for, start_legacy_state, start_trigger, LegacyRuntime, StartSave,
};
use scheduler::scheduler::overlap::OverlapAction;
use scheduler::scheduler::runtime::{LoopAction, LoopRules, Phase, RuntimeLoop, Sight, Turn};
use scheduler::scheduler::state_loading::initial_runtime_state;
use scheduler::scheduler::trigger::PendingTrigger;
use scheduler::{
    CoordinatedClaim, CoordinatedLeaseConfig, CoordinatedPendingTrigger, CoordinatedRuntimeState,
    Duration, ExecutionGuardAcquire, ExecutionGuardErrorKind, ExecutionGuardRenewal,
    ExecutionGuardScope, ExecutionLease, ExecutionSlot, GroupedIntervalSchedule, GuardedRunResult,
    InvalidJobKind, Job, JobState, JobTimeWindow, MissedRunPolicy, NoopCoordinatedStateStore,
    NoopExecutionGuard, OverlapPolicy, PauseScope, RunSkipReason, RunStatus, Schedule,
    SchedulerError, SchedulerEvent, SchedulerStopReason, StateLoadSource, StoreErrorKind,
    TerminalStatePolicy, TimeOfDay, TimeWindowSegment, Timezone, TriggerSource, UtcTime,
};

fn at(year: i32, month: u32, day: u32, hour: u32, minute: u32, second: u32) -> UtcTime {
    let instant = Utc.with_ymd_and_hms(year, month, day, hour, minute, second).unwrap();
    UtcTime::from_unix_nanos(instant.timestamp() as i128 * 1_000_000_000).unwrap()
}

fn later(instant: UtcTime, seconds: i128) -> UtcTime {
    instant.shifted(seconds * 1_000_000_000).unwrap()
}

fn moment() -> UtcTime {
    at(2026, 5, 8, 9, 30, 0)
}

fn every(seconds: u64) -> Job {
    Job::without_deps("job", Schedule::Interval(Duration::from_secs(seconds)))
}

fn scheduled(trigger_count: u32) -> PendingTrigger {
    PendingTrigger {
        scheduled_at: moment(),
        catch_up: false,
        trigger_count,
        source: TriggerSource::Scheduled,
    }
}

fn rules(terminal_state_policy: TerminalStatePolicy) -> LoopRules {
    LoopRules { timezone: Timezone::utc(), terminal_state_policy, pause_scope: PauseScope::Local }
}

fn keep() -> LoopRules {
    rules(TerminalStatePolicy::Retain)
}

fn sight() -> Sight {
    Sight {
        now: moment(),
        paused: false,
        control: ControlSignal::running(),
        manual_pending: false,
    }
}

fn closed_window() -> JobTimeWindow {
    JobTimeWindow {
        timezone: Some(Timezone::utc()),
        weekdays: Vec::new(),
        segments: vec![TimeWindowSegment::new(
            TimeOfDay::from_hms(12, 0, 0).unwrap(),
            TimeOfDay::from_hms(13, 0, 0).unwrap(),
        )],
    }
}

/// Brings a loop to the point where a trigger that was asked for is taken.
fn taking_manual(job: &Job, state: &JobState, sight: &Sight) -> RuntimeLoop {
    let mut machine = RuntimeLoop::start();
    let turn = machine.on_refreshed(job, &keep(), state, sight);
    assert!(matches!(turn.action, LoopAction::TryReclaim));
    let turn = machine.on_reclaimed(false);
    assert!(matches!(turn.action, LoopAction::TakeManual));
    machine
}

fn due_turn(machine: &mut RuntimeLoop, job: &Job, state: &JobState, sight: &Sight) -> Turn {
    let turn = machine.on_manual(job, &keep(), state, sight, None).unwrap().unwrap();
    match turn.action {
        LoopAction::CheckDue { candidate_state, trigger } => {
            machine.on_checked(job, &keep(), sight.now, candidate_state, trigger)
        }
        _ => turn,
    }
}

#[test]
fn the_window_is_judged_by_a_new_reading_of_the_clock() {
    let job = every(60).with_time_window(closed_window());
    let noon = at(2026, 5, 8, 12, 0, 0);
    let state = JobState::new("job", Some(later(noon, -1)));
    let before = Sight { now: later(noon, -1), ..sight() };
    let mut machine = taking_manual(&job, &state, &before);
    let turn = machine.on_manual(&job, &keep(), &state, &before, None).unwrap().unwrap();
    match turn.action {
        LoopAction::CheckDue { candidate_state, trigger } => {
            let mut closed = machine;
            let skipped =
                closed.on_checked(&job, &keep(), before.now, candidate_state.clone(), trigger);
            assert!(matches!(skipped.action, LoopAction::Save { .. }));
            let started = machine.on_checked(&job, &keep(), noon, candidate_state, trigger);
            assert!(matches!(started.action, LoopAction::StartDue { .. }));
        }
        other => panic!("unexpected: {other:?}"),
    }
}

#[test]
fn a_due_run_is_started_and_counted() {
    let job = every(60);
    let state = JobState::new("job", Some(moment()));
    let mut machine = taking_manual(&job, &state, &sight());
    let turn = due_turn(&mut machine, &job, &state, &sight());
    match turn.action {
        LoopAction::StartDue { candidate_state, trigger } => {
            assert_eq!(trigger, scheduled(1));
            assert_eq!(candidate_state.next_run_at, Some(later(moment(), 60)));
            assert_eq!(candidate_state.trigger_count, 1);
        }
        other => panic!("unexpected: {other:?}"),
    }
    let turn = machine.on_due_handled(true);
    assert!(matches!(turn.action, LoopAction::Refresh));
    assert_eq!(machine.active_count, 1);
}

#[test]
fn a_loop_sleeps_until_its_next_run() {
    let job = every(60);
    let state = JobState::new("job", Some(later(moment(), 5)));
    let mut machine = taking_manual(&job, &state, &sight());
    let turn = due_turn(&mut machine, &job, &state, &sight());
    assert!(matches!(
        turn.action,
        LoopAction::Wait { for_run: false, until: Some(next), poll_millis: None }
            if next == later(moment(), 5)
    ));
    let turn = machine.on_woken();
    assert!(matches!(turn.action, LoopAction::Refresh));
    assert_eq!(sleep_until_next(Some(later(moment(), 5)), moment()), Some(Duration::from_secs(5)));
    assert_eq!(sleep_until_next(Some(moment()), later(moment(), 5)), None);
    assert_eq!(sleep_until_next(None, moment()), None);
}

#[test]
fn a_paused_job_starts_nothing() {
    let job = every(60);
    let state = JobState::new("job", Some(moment()));
    let mut machine = RuntimeLoop::start();
    let paused = Sight { paused: true, ..sight() };
    let turn = machine.on_refreshed(&job, &keep(), &state, &paused);
    assert!(matches!(
        turn.action,
        LoopAction::Wait { for_run: false, until: None, poll_millis: Some(50) }
    ));
    assert_eq!(machine.phase, Phase::Waiting);
}

#[test]
fn a_command_to_pause_is_followed_and_told() {
    let job = every(60);
    let state = JobState::new("job", Some(moment()));
    let mut machine = RuntimeLoop::start();
    let control = ControlSignal::running()
        .with_mode_command(SchedulerMode::Paused, CommandDisposition::Apply);
    let seen = Sight { control, ..sight() };
    let turn = machine.on_refreshed(&job, &keep(), &state, &seen);
    assert!(matches!(turn.action, LoopAction::SetMode(SchedulerMode::Paused)));
    let turn =
        machine.on_mode_set(&job, &keep(), &state, &Sight { paused: true, ..seen }, true);
    assert_eq!(turn.applied_mode, Some(SchedulerMode::Paused));
    assert_eq!(
        turn.events,
        vec![SchedulerEvent::SchedulerPaused {
            job_id: "job".to_string(),
            trigger_count: 0,
            scope: PauseScope::Local,
        }]
    );
    assert!(matches!(turn.action, LoopAction::Wait { .. }));
    assert_eq!(machine.last_seen_mode_command, 1);
}

#[test]
fn a_change_made_elsewhere_is_only_noted() {
    let job = every(60);
    let state = JobState::new("job", Some(moment()));
    let mut machine = RuntimeLoop::start();
    let control = ControlSignal::running().with_mode_command(
        SchedulerMode::Running,
        CommandDisposition::ObserveOnly { changed: true },
    );
    let turn = machine.on_refreshed(&job, &keep(), &state, &Sight { control, ..sight() });
    assert_eq!(turn.applied_mode, Some(SchedulerMode::Running));
    assert!(matches!(turn.events[0], SchedulerEvent::SchedulerResumed { .. }));
    assert!(matches!(turn.action, LoopAction::TryReclaim));
}

#[test]
fn a_command_to_stop_waits_for_the_active_run() {
    let job = every(60);
    let state = JobState::new("job", Some(moment()));
    let mut machine = RuntimeLoop::start();
    machine.active_count = 1;
    let control = ControlSignal::running().with_stop_signal(StopSignal::Shutdown);
    let seen = Sight { control, ..sight() };
    let turn = machine.on_refreshed(&job, &keep(), &state, &seen);
    assert!(matches!(
        turn.action,
        LoopAction::Wait { for_run: true, until: None, poll_millis: None }
    ));
    let turn = machine.on_run_ended();
    assert!(matches!(turn.action, LoopAction::Refresh));
    let turn = machine.on_refreshed(&job, &keep(), &state, &seen);
    assert!(matches!(turn.action, LoopAction::Stop));
    assert_eq!(
        turn.events,
        vec![SchedulerEvent::SchedulerStopped {
            job_id: "job".to_string(),
            trigger_count: 0,
            reason: SchedulerStopReason::Shutdown,
        }]
    );
}

#[test]
fn a_finished_job_stops_and_drops_its_state_if_told_to() {
    let job = Job::without_deps("job", Schedule::AtTimes(Vec::new()));
    let state = JobState::new("job", None);
    let mut machine = taking_manual(&job, &state, &sight());
    let turn = due_turn(&mut machine, &job, &state, &sight());
    assert!(matches!(turn.action, LoopAction::Stop));
    assert!(matches!(
        turn.events[0],
        SchedulerEvent::SchedulerStopped { reason: SchedulerStopReason::Terminal, .. }
    ));

    let dropping = rules(TerminalStatePolicy::Delete);
    let mut machine = taking_manual(&job, &state, &sight());
    let turn = machine.on_manual(&job, &dropping, &state, &sight(), None).unwrap().unwrap();
    assert!(matches!(turn.action, LoopAction::DeleteTerminal));
    let turn = machine.on_deleted(&job, &state);
    assert!(matches!(turn.events[0], SchedulerEvent::TerminalStateDeleted { .. }));
    assert!(matches!(
        turn.events[1],
        SchedulerEvent::SchedulerStopped { reason: SchedulerStopReason::Terminal, .. }
    ));
    assert!(matches!(turn.action, LoopAction::Stop));
}

#[test]
fn a_job_with_a_trigger_asked_for_is_not_finished() {
    let job = Job::without_deps("job", Schedule::AtTimes(Vec::new()));
    let state = JobState::new("job", None);
    let asked = Sight { manual_pending: true, ..sight() };
    let mut machine = taking_manual(&job, &state, &asked);
    let turn = due_turn(&mut machine, &job, &state, &asked);
    assert!(matches!(turn.action, LoopAction::Wait { .. }));
}

#[test]
fn a_trigger_that_is_asked_for_runs_at_once() {
    let job = every(60);
    let state = JobState::new("job", Some(later(moment(), 30)));
    let mut machine = taking_manual(&job, &state, &sight());
    let request = ManualTriggerRequest { requested_at: moment() };
    let turn = machine
        .on_manual(&job, &keep(), &state, &sight(), Some(request))
        .unwrap()
        .unwrap();
    match turn.action {
        LoopAction::StartDue { candidate_state, trigger } => {
            assert_eq!(trigger.source, TriggerSource::Manual);
            assert_eq!(trigger.scheduled_at, moment());
            assert_eq!(candidate_state.next_run_at, Some(later(moment(), 30)));
            assert_eq!(candidate_state.trigger_count, 1);
        }
        other => panic!("unexpected: {other:?}"),
    }
}

#[test]
fn a_trigger_behind_an_active_run_waits_for_it() {
    let job = every(60).with_overlap_policy(OverlapPolicy::QueueOne);
    let state = JobState::new("job", Some(moment()));
    let mut machine = taking_manual(&job, &state, &sight());
    machine.active_count = 1;
    let turn = due_turn(&mut machine, &job, &state, &sight());
    assert!(matches!(turn.action, LoopAction::RecordDue { .. }));
    assert_eq!(machine.queued_trigger, Some(scheduled(1)));
    let turn = machine.on_due_handled(false);
    assert!(matches!(turn.action, LoopAction::Refresh));
    assert_eq!(machine.active_count, 1);

    machine.active_count = 0;
    let after = JobState::new("job", Some(later(moment(), 60)));
    let turn = machine.on_refreshed(&job, &keep(), &after, &sight());
    assert!(matches!(turn.action, LoopAction::RunQueued(trigger) if trigger == scheduled(1)));
    assert_eq!(machine.queued_trigger, None);
    machine.on_queued_run(true);
    assert_eq!(machine.active_count, 1);
}

#[test]
fn a_trigger_outside_the_window_is_skipped_once_saved() {
    let job = every(60).with_time_window(closed_window());
    let state = JobState::new("job", Some(moment()));
    let mut machine = taking_manual(&job, &state, &sight());
    let turn = due_turn(&mut machine, &job, &state, &sight());
    assert!(matches!(turn.action, LoopAction::Save { .. }));
    assert!(turn.events.is_empty());
    let turn = machine.on_saved(&job, &keep(), &state, &sight(), true);
    assert_eq!(
        turn.events,
        vec![SchedulerEvent::RunSkipped {
            job_id: "job".to_string(),
            scheduled_at: moment(),
            catch_up: false,
            trigger_count: 1,
            reason: RunSkipReason::OutsideTimeWindow,
        }]
    );
    assert_eq!(machine.last_skip_reason, Some(RunSkipReason::OutsideTimeWindow));

    let mut machine = taking_manual(&job, &state, &sight());
    due_turn(&mut machine, &job, &state, &sight());
    let turn = machine.on_saved(&job, &keep(), &state, &sight(), false);
    assert!(turn.events.is_empty());
    assert_eq!(machine.last_skip_reason, None);
}

#[test]
fn a_queued_trigger_outside_the_window_is_skipped() {
    let job = every(60).with_time_window(closed_window());
    let state = JobState::new("job", Some(later(moment(), 60)));
    let mut machine = RuntimeLoop::start();
    machine.queued_trigger = Some(scheduled(3));
    let turn = machine.on_refreshed(&job, &keep(), &state, &sight());
    assert!(matches!(
        turn.events[0],
        SchedulerEvent::RunSkipped { trigger_count: 3, .. }
    ));
    assert!(matches!(turn.action, LoopAction::Refresh));
    assert_eq!(machine.queued_trigger, None);
}

#[test]
fn skipped_runs_only_move_the_state() {
    let job = every(1).with_missed_run_policy(MissedRunPolicy::Skip);
    let state = JobState::new("job", Some(later(moment(), -5)));
    let mut machine = taking_manual(&job, &state, &sight());
    let turn = due_turn(&mut machine, &job, &state, &sight());
    assert!(matches!(
        &turn.action,
        LoopAction::Save { candidate_state }
            if candidate_state.next_run_at == Some(later(moment(), 1))
    ));
    assert_eq!(machine.phase, Phase::SavingAdvance);
    let turn = machine.on_saved(&job, &keep(), &state, &sight(), true);
    assert!(matches!(turn.action, LoopAction::Refresh));
}

#[test]
fn a_replay_waits_for_the_active_run() {
    let job = every(1).with_missed_run_policy(MissedRunPolicy::ReplayAll);
    let state = JobState::new("job", Some(later(moment(), -5)));
    let mut machine = taking_manual(&job, &state, &sight());
    machine.active_count = 1;
    let turn = due_turn(&mut machine, &job, &state, &sight());
    assert!(matches!(turn.action, LoopAction::Wait { for_run: true, .. }));
    assert!(should_wait_for_active_replay(&job, 1));
    assert!(!should_wait_for_active_replay(&job, 0));
    let parallel = job.with_overlap_policy(OverlapPolicy::AllowParallel);
    assert!(!should_wait_for_active_replay(&parallel, 1));
}

#[test]
fn a_claim_that_was_taken_over_counts() {
    let job = every(60);
    let state = JobState::new("job", Some(moment()));
    let mut machine = RuntimeLoop::start();
    machine.on_refreshed(&job, &keep(), &state, &sight());
    let turn = machine.on_reclaimed(true);
    assert!(matches!(turn.action, LoopAction::Refresh));
    assert_eq!(machine.active_count, 1);
}

#[test]
fn a_closed_channel_stops_the_loop() {
    let job = every(60);
    let state = JobState::new("job", Some(later(moment(), 5)));
    let mut machine = taking_manual(&job, &state, &sight());
    due_turn(&mut machine, &job, &state, &sight());
    let turn = machine.on_channel_closed(&job, &state);
    assert!(matches!(
        turn.events[0],
        SchedulerEvent::SchedulerStopped { reason: SchedulerStopReason::ChannelClosed, .. }
    ));
    assert!(matches!(turn.action, LoopAction::Stop));
}

#[test]
fn a_full_count_is_handed_out_as_nothing() {
    let job = every(60);
    let mut state = JobState::new("job", Some(moment()));
    state.trigger_count = u32::MAX;
    let mut machine = taking_manual(&job, &state, &sight());
    assert!(machine.on_manual(&job, &keep(), &state, &sight(), None).is_none());
    let request = Some(ManualTriggerRequest { requested_at: moment() });
    assert!(machine.on_manual(&job, &keep(), &state, &sight(), request).is_none());
}

#[test]
fn a_schedule_that_cannot_go_on_is_an_error() {
    let job = every(u64::MAX);
    let state = JobState::new("job", Some(moment()));
    let mut machine = taking_manual(&job, &state, &sight());
    let error = machine.on_manual(&job, &keep(), &state, &sight(), None).unwrap().unwrap_err();
    assert!(matches!(
        error,
        SchedulerError::InvalidJob(invalid)
            if invalid.kind() == InvalidJobKind::IntervalOutOfRange
    ));
}

#[test]
fn signals_count_their_commands() {
    let signal = ControlSignal::running().poked();
    assert_eq!(signal.poke_seq, 1);
    let signal = signal.with_stop_signal(StopSignal::Cancel);
    assert_eq!(signal.poked().stop_signal, Some(StopSignal::Cancel));
    assert_eq!(signal.without_stop_signal().stop_signal, None);
    let last = ControlSignal { mode_command_seq: u64::MAX, ..signal };
    let next = last.with_mode_command(SchedulerMode::Paused, CommandDisposition::Apply);
    assert_eq!(next.mode_command_seq, u64::MAX);
}

#[test]
fn commands_need_one_active_job() {
    let mut shared = SharedControl::new();
    assert_eq!(shared.single_active_job_id().unwrap(), None);
    assert_eq!(
        shared.request_trigger(moment()).unwrap_err().to_string(),
        "invalid job: trigger_now requires exactly one active job"
    );
    shared.activate("a");
    assert_eq!(shared.single_active_job_id().unwrap(), Some("a".to_string()));
    shared.request_trigger(moment()).unwrap();
    assert!(shared.has_trigger("a"));
    assert_eq!(
        shared.take_trigger("a"),
        Some(ManualTriggerRequest { requested_at: moment() })
    );
    assert!(!shared.has_trigger("a"));
    assert_eq!(shared.take_trigger("a"), None);
    shared.activate("b");
    assert_eq!(
        shared.single_active_job_id().unwrap_err().to_string(),
        "invalid job: pause/resume/trigger_now requires exactly one active job for coordinated schedulers"
    );
    shared.deactivate("a");
    assert_eq!(shared.single_active_job_id().unwrap(), Some("b".to_string()));
    assert!(!shared.mode_applied("b", SchedulerMode::Paused));
    shared.record_mode("b", SchedulerMode::Paused);
    assert!(shared.mode_applied("b", SchedulerMode::Paused));
    assert!(!shared.mode_applied("b", SchedulerMode::Running));
}

#[test]
fn a_shared_store_is_asked_for_an_active_job() {
    assert_eq!(
        plan_mode_command(true, Some("job".to_string())),
        ModeCommandPlan::AskSharedStore { job_id: "job".to_string() }
    );
    assert_eq!(plan_mode_command(true, None), ModeCommandPlan::LeaveToScheduler);
    assert_eq!(
        plan_mode_command(false, Some("job".to_string())),
        ModeCommandPlan::LeaveToScheduler
    );
}

#[test]
fn jobs_are_checked_before_they_run() {
    let zone = Timezone::utc();
    let refused = normalize_job(every(0), false, &zone, moment()).unwrap_err();
    assert_eq!(
        refused.to_string(),
        "invalid job: interval schedule must be greater than zero"
    );
    let group = Job::without_deps(
        "job",
        Schedule::GroupedInterval(GroupedIntervalSchedule::new(Duration::from_secs(60), 3, 3)),
    );
    assert!(normalize_job(group, false, &zone, moment()).is_err());
    let parallel = every(60).with_overlap_policy(OverlapPolicy::AllowParallel);
    assert!(normalize_job(parallel.clone(), false, &zone, moment()).is_ok());
    assert_eq!(
        normalize_job(parallel, true, &zone, moment()).unwrap_err().to_string(),
        "invalid job: coordinated scheduler does not support OverlapPolicy::AllowParallel"
    );
    let times = vec![later(moment(), 3), later(moment(), 1), later(moment(), 2)];
    let job = Job::without_deps("job", Schedule::AtTimes(times));
    let normal = normalize_job(job, false, &zone, moment()).unwrap();
    assert_eq!(
        normal.schedule,
        Schedule::AtTimes(vec![later(moment(), 1), later(moment(), 2), later(moment(), 3)])
    );
}

#[test]
fn a_job_restarts_from_its_state() {
    let job = every(60);
    let zone = Timezone::utc();
    let fresh = start_legacy_state(&job, None, moment(), &zone).unwrap();
    assert_eq!(fresh.state, initial_runtime_state(&job, moment(), &zone).unwrap());
    assert_eq!(fresh.state.next_run_at, Some(later(moment(), 60)));
    assert_eq!(fresh.save, StartSave::AfterEvents);
    assert!(matches!(
        fresh.events[0],
        SchedulerEvent::StateLoaded { source: StateLoadSource::New, .. }
    ));

    let stored = JobState::new("job", Some(later(moment(), -7)));
    let resumed = start_legacy_state(&job, Some(stored.clone()), moment(), &zone).unwrap();
    assert_eq!(resumed.state, stored);
    assert_eq!(resumed.save, StartSave::Stored);

    let mut lost = JobState::new("job", None);
    lost.trigger_count = 4;
    assert!(should_repair_interval_state(&job, &lost));
    let repaired = start_legacy_state(&job, Some(lost), moment(), &zone).unwrap();
    assert_eq!(repaired.state.trigger_count, 4);
    assert_eq!(repaired.state.next_run_at, Some(later(moment(), 60)));
    assert_eq!(repaired.save, StartSave::BeforeEvents);
    assert_eq!(repaired.events.len(), 2);
    assert!(matches!(repaired.events[0], SchedulerEvent::StateRepaired { .. }));

    let done = every(60).with_max_runs(4);
    let mut finished = JobState::new("job", None);
    finished.trigger_count = 4;
    assert!(!should_repair_interval_state(&done, &finished));
}

#[test]
fn a_slot_follows_the_scope_of_the_job() {
    let mut job = every(60);
    job.execution_resource_id = "db".to_string();
    assert_eq!(
        slot_for(&job, &scheduled(1)),
        ExecutionSlot::for_occurrence("job", "db", moment())
    );
    job.guard_scope = ExecutionGuardScope::Resource;
    assert_eq!(slot_for(&job, &scheduled(1)), ExecutionSlot::for_resource("job", "db"));
}

#[test]
fn only_a_lease_starts_a_run() {
    let job = every(60);
    let slot = slot_for(&job, &scheduled(2));
    let contended = start_trigger(&job, &scheduled(2), ExecutionGuardAcquire::Contended);
    assert!(contended.lease.is_none());
    assert!(matches!(
        contended.event,
        SchedulerEvent::ExecutionGuardContended { trigger_count: 2, scheduled_at: Some(at), .. }
            if at == moment()
    ));
    let given = start_trigger(&job, &scheduled(2), NoopExecutionGuard.acquire(slot.clone()));
    assert_eq!(given.lease, Some(ExecutionLease::for_slot(slot.clone(), "", "")));

    let refused = answer_request(slot.clone(), true, 9, ExecutionGuardAcquire::Contended);
    assert!(refused.lease.is_none());
    assert!(matches!(
        refused.event,
        SchedulerEvent::ExecutionGuardContended { catch_up: true, trigger_count: 9, .. }
    ));
    let lease = ExecutionLease::for_slot(slot.clone(), "t", "k");
    let admitted =
        answer_request(slot, true, 9, ExecutionGuardAcquire::Acquired(lease.clone()));
    assert_eq!(admitted.lease, Some(lease.clone()));
    assert_eq!(NoopExecutionGuard.renew(&lease), ExecutionGuardRenewal::Renewed);
    assert_ne!(GuardedRunResult::Completed(3), GuardedRunResult::Contended);
}

#[test]
fn the_state_of_a_running_job() {
    let job = every(60);
    let mut runtime = LegacyRuntime::new(JobState::new("job", Some(moment())));
    assert!(runtime.pause());
    assert!(!runtime.pause());
    assert!(runtime.resume());
    assert!(!runtime.resume());

    let candidate = JobState::new("job", Some(later(moment(), 60)));
    let start =
        runtime.take_due(&job, candidate.clone(), OverlapAction::Spawn(scheduled(1))).unwrap();
    assert_eq!(runtime.state, candidate);
    assert_eq!(start.trigger, scheduled(1));
    assert!(matches!(start.event, SchedulerEvent::TriggerEmitted { trigger_count: 1, .. }));
    assert_eq!(start.slot, ExecutionSlot::new("job", moment()));
    assert!(runtime.take_due(&job, candidate, OverlapAction::QueueUpdated).is_none());

    let mut history = VecDeque::new();
    let completed =
        CompletedRun::of_trigger(scheduled(1), moment(), later(moment(), 1), Ok(()));
    let event = runtime.finish_run(&mut history, 10, completed);
    assert!(matches!(
        event,
        SchedulerEvent::RunCompleted { status: RunStatus::Success, trigger_count: 1, .. }
    ));
    assert_eq!(history.len(), 1);
}

fn shared(revision: u64) -> CoordinatedRuntimeState {
    CoordinatedRuntimeState {
        state: JobState::new("job", Some(moment())),
        revision,
        paused: false,
    }
}

fn unreachable_store() -> SchedulerError {
    SchedulerError::store("down", StoreErrorKind::Connection)
}

fn unreachable_guard() -> SchedulerError {
    SchedulerError::execution_guard("down", ExecutionGuardErrorKind::Connection)
}

#[test]
fn a_store_that_cannot_be_reached_changes_nothing() {
    assert!(is_store_connection_error(&unreachable_store()));
    assert!(!is_store_connection_error(&unreachable_guard()));
    assert!(is_guard_connection_error(&unreachable_guard()));
    assert!(!is_guard_connection_error(&unreachable_store()));

    assert_eq!(refreshed(shared(3), Err(unreachable_store())).unwrap(), shared(3));
    assert_eq!(refreshed(shared(3), Ok(shared(4))).unwrap(), shared(4));
    let data = SchedulerError::store("bad", StoreErrorKind::Data);
    assert!(refreshed(shared(3), Err(data)).is_err());
    assert!(!changed_or_unreachable(Err(unreachable_store())).unwrap());
    assert!(changed_or_unreachable(Ok(true)).unwrap());
    assert!(changed_or_unreachable(Err(unreachable_guard())).is_err());
    assert!(claimed_or_unreachable(Err(unreachable_guard())).unwrap().is_none());
    assert!(claimed_or_unreachable(Err(unreachable_store())).is_err());

    let mut runtime = shared(3);
    assert!(take_delete(&mut runtime, Err(unreachable_store())).is_ok());
    assert_eq!(runtime, shared(3));
    assert!(take_delete(&mut runtime, Ok(())).is_ok());
    assert_eq!(runtime.state.next_run_at, None);
}

#[test]
fn a_save_makes_a_new_version() {
    let mut runtime = shared(3);
    let state = JobState::new("job", Some(later(moment(), 60)));
    take_save(&mut runtime, &state, false);
    assert_eq!(runtime, shared(3));
    take_save(&mut runtime, &state, true);
    assert_eq!(runtime.revision, 4);
    assert_eq!(runtime.state, state);
}

fn claim() -> CoordinatedClaim {
    CoordinatedClaim {
        state: shared(9),
        trigger: CoordinatedPendingTrigger::of_trigger(scheduled(5)),
        lease: ExecutionLease::for_slot(ExecutionSlot::new("job", moment()), "t", "k"),
        replayed: true,
    }
}

#[test]
fn a_claim_brings_its_state() {
    let job_id = "job".to_string();
    let mut runtime = shared(3);
    let events = take_claim(&mut runtime, &job_id, &claim(), ClaimPurpose::Due(scheduled(5)));
    assert_eq!(runtime, shared(9));
    assert_eq!(events.len(), 2);
    assert!(matches!(events[0], SchedulerEvent::TriggerEmitted { .. }));
    assert!(matches!(events[1], SchedulerEvent::ExecutionGuardAcquired { .. }));
    let events = take_claim(&mut runtime, &job_id, &claim(), ClaimPurpose::Queued(scheduled(5)));
    assert_eq!(events.len(), 1);
    let events = take_claim(&mut runtime, &job_id, &claim(), ClaimPurpose::LeftBehind);
    assert!(matches!(
        events[0],
        SchedulerEvent::ExecutionGuardAcquired { trigger_count: 5, .. }
    ));
    assert_eq!(claim().trigger.to_trigger(), scheduled(5));
}

#[test]
fn a_shared_state_is_looked_at() {
    let job = every(60);
    let zone = Timezone::utc();
    match look_at_shared_state(&job, shared(0), true, moment(), &zone).unwrap() {
        SharedStart::Ready { runtime, events } => {
            assert_eq!(runtime, shared(0));
            assert!(matches!(
                events[0],
                SchedulerEvent::StateLoaded { source: StateLoadSource::New, .. }
            ));
        }
        other => panic!("unexpected: {other:?}"),
    }
    match look_at_shared_state(&job, shared(2), false, moment(), &zone).unwrap() {
        SharedStart::Ready { events, .. } => assert!(events.is_empty()),
        other => panic!("unexpected: {other:?}"),
    }
    let mut lost = shared(2);
    lost.state.next_run_at = None;
    match look_at_shared_state(&job, lost, true, moment(), &zone).unwrap() {
        SharedStart::Repair { mut runtime, previous_next_run_at } => {
            assert_eq!(runtime.state.next_run_at, Some(later(moment(), 60)));
            assert_eq!(runtime.revision, 2);
            let job_id = "job".to_string();
            let silent =
                take_repair(&job_id, &mut runtime, previous_next_run_at, false, true);
            assert!(silent.is_empty());
            assert_eq!(runtime.revision, 2);
            let told = take_repair(&job_id, &mut runtime, previous_next_run_at, true, true);
            assert_eq!(told.len(), 2);
            assert_eq!(runtime.revision, 3);
        }
        other => panic!("unexpected: {other:?}"),
    }
}

#[test]
fn the_end_of_a_claimed_run() {
    let mut runtime = shared(3);
    let mut history = VecDeque::new();
    let completed = CoordinatedCompletedRun {
        completed: CompletedRun::of_trigger(
            scheduled(5),
            moment(),
            later(moment(), 2),
            Err("boom".to_string()),
        ),
        lease: claim().lease,
    };
    let pending = begin_completion(&mut runtime.state, &mut history, 10, completed);
    assert_eq!(pending.completion.last_run_at, later(moment(), 2));
    assert_eq!(pending.completion.last_success_at, None);
    assert_eq!(pending.completion.last_error.as_deref(), Some("boom"));
    assert_eq!(runtime.state.last_run_at, Some(moment()));
    assert_eq!(history.len(), 1);

    let silent = finish_completion(&mut runtime, &pending, Err(unreachable_store())).unwrap();
    assert!(silent.is_empty());
    assert_eq!(runtime.revision, 3);
    let told = finish_completion(&mut runtime, &pending, Ok(true)).unwrap();
    assert_eq!(told.len(), 2);
    assert!(matches!(told[0], SchedulerEvent::ExecutionGuardReleased { .. }));
    assert_eq!(runtime.revision, 4);
    let told = finish_completion(&mut runtime, &pending, Ok(false)).unwrap();
    assert_eq!(told.len(), 1);
    assert!(matches!(told[0], SchedulerEvent::RunCompleted { status: RunStatus::Failed, .. }));
}

#[test]
fn a_store_that_shares_nothing() {
    let store = NoopCoordinatedStateStore;
    let state = JobState::new("job", Some(moment()));
    assert_eq!(store.load_or_initialize(state.clone()), shared(0));
    assert!(store.save_state(0, &state));
    assert!(store.reclaim_inflight().is_none());
    assert!(store
        .claim_trigger(claim().trigger, ExecutionGuardScope::Occurrence)
        .is_none());
    assert_eq!(store.renew(&claim().lease), ExecutionGuardRenewal::Lost);
    assert!(!store.pause());
    assert!(!store.resume());
}

#[test]
fn coordinated_leases_are_checked_in_order() {
    let config = |ttl: u64, renew: u64| CoordinatedLeaseConfig {
        ttl: Duration::from_millis(ttl),
        renew_interval: Duration::from_millis(renew),
    };
    assert_eq!(
        config(0, 0).validate(),
        Err("coordinated lease ttl must be greater than zero")
    );
    assert_eq!(
        config(5, 0).validate(),
        Err("coordinated lease renew_interval must be greater than zero")
    );
    assert_eq!(
        config(5, 5).validate(),
        Err("coordinated lease renew_interval must be less than ttl")
    );
    assert_eq!(config(5, 4).validate(), Ok(config(5, 4)));
}

#[test]
fn the_default_configuration() {
    let config = SchedulerConfig::default();
    assert_eq!(config.timezone.name(), "Asia/Shanghai");
    assert_eq!(config.terminal_state_policy, TerminalStatePolicy::Retain);
}

#[test]
fn a_due_trigger_is_claimed_or_only_recorded() {
    let known = shared(4);
    let next = JobState::new("job", Some(later(moment(), 60)));
    let trigger = scheduled(1);
    match request_due(&known, next.clone(), OverlapAction::Spawn(trigger)) {
        DueRequest::Claim { trigger: claimed, revision, next_state } => {
            assert_eq!(claimed, trigger);
            assert_eq!(revision, 4);
            assert_eq!(next_state, next);
        }
        DueRequest::Save { .. } => panic!("a trigger that starts is claimed"),
    }
    for action in [OverlapAction::QueueUpdated, OverlapAction::Dropped] {
        match request_due(&known, next.clone(), action) {
            DueRequest::Save { revision, next_state } => {
                assert_eq!(revision, 4);
                assert_eq!(next_state, next);
            }
            DueRequest::Claim { .. } => panic!("a trigger that waits is not claimed"),
        }
    }
}

#[test]
fn a_handle_looks_so_often_and_gives_up() {
    let mut looks = Looks::for_active_job();
    let mut count = 0;
    while looks.on_look(false) == (LookStep::LookAfter { millis: 5 }) {
        count += 1;
    }
    assert_eq!(count, 19);
    assert_eq!(looks.on_look(false), LookStep::Done);
    let mut looks = Looks::for_mode();
    assert_eq!(looks.left, 100);
    assert_eq!(looks.on_look(true), LookStep::Done);
    let mut last = Looks { left: 1 };
    assert_eq!(last.on_look(false), LookStep::GiveUpAfter { millis: 5 });
}
