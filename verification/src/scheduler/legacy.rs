//! A job whose state belongs to one scheduler, and whose runs are guarded by
//! leases.
use std::collections::VecDeque;
use vstd::prelude::*;
use crate::error::{ErrorView, SchedulerError};
use crate::execution_guard::{
    self, ExecutionGuardAcquire, ExecutionGuardScope, ExecutionSlot, SlotView,
};
use crate::guarded_runner::Admission;
use crate::model::job::{Job, JobView};
use crate::model::state::{JobState, JobStateView, RunRecord};
use crate::observer::{SchedulerEvent, StateLoadSource};
use crate::scheduler::engine::{self, should_repair_interval_state};
use crate::scheduler::execution::{self, apply_completed_run, CompletedRun};
use crate::scheduler::overlap::OverlapAction;
use crate::scheduler::runtime_events::{
    execution_guard_acquired, run_completed, state_loaded, state_repaired, trigger_emitted,
};
use crate::scheduler::state_loading::{self, initial_runtime_state};
use crate::scheduler::trigger::PendingTrigger;
use crate::scheduler::trigger_math::{self, initial_next_run_at};
use crate::time::UtcTime;
use crate::zone::Timezone;

verus! {

/// When a state that was started from is saved.
#[derive(Debug, Clone, Copy, PartialEq, Eq, Structural)]
pub enum StartSave {
    /// It is in the store already.
    Stored,
    BeforeEvents,
    AfterEvents,
}

/// The state that a job starts from, when it is saved, and what is told.
#[derive(Debug)]
pub struct LegacyStart {
    pub state: JobState,
    pub save: StartSave,
    pub events: Vec<SchedulerEvent>,
}

/// The state that a job starts from, and where it comes from: the state that
/// was stored, with the next run put back where it was lost, or a new one.
pub open spec fn started_state(
    job: JobView,
    stored: Option<JobStateView>,
    now: int,
    zone: Seq<char>,
) -> Result<(JobStateView, StateLoadSource), ErrorView> {
    match stored {
        None => match state_loading::initial_state(job, now, zone) {
            Ok(state) => Ok((state, StateLoadSource::New)),
            Err(error) => Err(error),
        },
        Some(state) => if engine::needs_repair(job, state) {
            match trigger_math::initial_due(job, now, zone) {
                Ok(due) => Ok(
                    (JobStateView { next_run_at: due, ..state }, StateLoadSource::Repaired),
                ),
                Err(error) => Err(error),
            }
        } else {
            Ok((state, StateLoadSource::Restored))
        },
    }
}

/// A restarted job goes on from the state that was stored: where that has a
/// next run, nothing about it changes.
pub proof fn law_restart_resumes(job: JobView, stored: JobStateView, now: int, zone: Seq<char>)
    requires
        stored.next_run_at is Some,
    ensures
        started_state(job, Some(stored), now, zone) == Ok::<
            (JobStateView, StateLoadSource),
            ErrorView,
        >((stored, StateLoadSource::Restored)),
{
}

/// A repair keeps everything but the next run, and is made only where an
/// interval schedule has runs left.
pub proof fn law_repair_keeps_counts(job: JobView, stored: JobStateView, now: int, zone: Seq<char>)
    ensures
        started_state(job, Some(stored), now, zone) matches Ok((state, source)) ==> {
            &&& state == (JobStateView { next_run_at: state.next_run_at, ..stored })
            &&& source == StateLoadSource::Repaired ==> stored.next_run_at is None
                && !trigger_math::runs_exhausted(job, stored.trigger_count)
        },
{
}

/// The view of a state that may not be there.
pub open spec fn stored_view(stored: Option<JobState>) -> Option<JobStateView> {
    match stored {
        Some(state) => Some(state@),
        None => None,
    }
}

/// What is told about a state that a job starts from.
pub open spec fn start_events(
    job_id: String,
    state: JobState,
    source: StateLoadSource,
    previous_next_run_at: Option<UtcTime>,
) -> Seq<SchedulerEvent> {
    let loaded = SchedulerEvent::StateLoaded {
        job_id,
        trigger_count: state.trigger_count,
        next_run_at: state.next_run_at,
        source,
    };
    if source == StateLoadSource::Repaired {
        seq![
            SchedulerEvent::StateRepaired {
                job_id,
                trigger_count: state.trigger_count,
                previous_next_run_at,
                repaired_next_run_at: state.next_run_at,
            },
            loaded,
        ]
    } else {
        seq![loaded]
    }
}

/// When a state from a source is saved.
pub open spec fn start_save(source: StateLoadSource) -> StartSave {
    match source {
        StateLoadSource::New => StartSave::AfterEvents,
        StateLoadSource::Restored => StartSave::Stored,
        StateLoadSource::Repaired => StartSave::BeforeEvents,
    }
}

/// Starts a job from what the store holds for it.
pub fn start_legacy_state(
    job: &Job,
    stored: Option<JobState>,
    now: UtcTime,
    timezone: &Timezone,
) -> (r: Result<LegacyStart, SchedulerError>)
    ensures
        match r {
            Ok(start) => {
                &&& started_state(job@, stored_view(stored), now@, timezone@) is Ok
                &&& started_state(job@, stored_view(stored), now@, timezone@)->Ok_0.0
                    == start.state@
                &&& ({
                    let source = started_state(
                        job@,
                        stored_view(stored),
                        now@,
                        timezone@,
                    )->Ok_0.1;
                    &&& start.save == start_save(source)
                    &&& start.events@ == start_events(job.job_id, start.state, source, None)
                })
            },
            Err(error) => started_state(job@, stored_view(stored), now@, timezone@) == Err::<
                (JobStateView, StateLoadSource),
                ErrorView,
            >(error@),
        },
{
    let mut events: Vec<SchedulerEvent> = Vec::new();
    match stored {
        None => match initial_runtime_state(job, now, timezone) {
            Ok(state) => {
                events.push(state_loaded(&job.job_id, &state, StateLoadSource::New));
                Ok(LegacyStart { state, save: StartSave::AfterEvents, events })
            },
            Err(error) => Err(error),
        },
        Some(state) => {
            let mut state = state;
            if should_repair_interval_state(job, &state) {
                let previous_next_run_at = state.next_run_at;
                match initial_next_run_at(job, now, timezone) {
                    Ok(next_run_at) => {
                        state.next_run_at = next_run_at;
                        events.push(state_repaired(&job.job_id, &state, previous_next_run_at));
                        events.push(state_loaded(&job.job_id, &state, StateLoadSource::Repaired));
                        Ok(LegacyStart { state, save: StartSave::BeforeEvents, events })
                    },
                    Err(error) => Err(error),
                }
            } else {
                events.push(state_loaded(&job.job_id, &state, StateLoadSource::Restored));
                Ok(LegacyStart { state, save: StartSave::Stored, events })
            }
        },
    }
}

/// The slot that a run of a job asks for.
pub open spec fn job_slot(job: JobView, scheduled_at: int) -> SlotView {
    match job.guard_scope {
        ExecutionGuardScope::Occurrence => execution_guard::occurrence_slot(
            job.job_id,
            job.execution_resource_id,
            scheduled_at,
        ),
        ExecutionGuardScope::Resource => execution_guard::resource_slot(
            job.job_id,
            job.execution_resource_id,
        ),
    }
}

/// The slot that a run of a job asks for.
pub fn slot_for(job: &Job, trigger: &PendingTrigger) -> (r: ExecutionSlot)
    ensures
        r@ == job_slot(job@, trigger.scheduled_at@),
{
    match job.guard_scope {
        ExecutionGuardScope::Occurrence => ExecutionSlot::for_occurrence(
            job.job_id.as_str(),
            job.execution_resource_id.as_str(),
            trigger.scheduled_at,
        ),
        ExecutionGuardScope::Resource => ExecutionSlot::for_resource(
            job.job_id.as_str(),
            job.execution_resource_id.as_str(),
        ),
    }
}

/// Whether a run of a job may begin, by what the guard answered. Only a lease
/// lets it; a slot that is taken is told with the occurrence, whatever the
/// scope.
pub fn start_trigger(
    job: &Job,
    trigger: &PendingTrigger,
    acquired: ExecutionGuardAcquire,
) -> (r: Admission)
    ensures
        match acquired {
            ExecutionGuardAcquire::Acquired(lease) => {
                &&& r.lease == Some(lease)
                &&& r.event == (SchedulerEvent::ExecutionGuardAcquired {
                    job_id: lease.job_id,
                    resource_id: lease.resource_id,
                    scope: lease.scope,
                    lease_key: lease.lease_key,
                    scheduled_at: lease.scheduled_at,
                    catch_up: trigger.catch_up,
                    trigger_count: trigger.trigger_count,
                })
            },
            ExecutionGuardAcquire::Contended => {
                &&& r.lease is None
                &&& r.event == (SchedulerEvent::ExecutionGuardContended {
                    job_id: job.job_id,
                    resource_id: job.execution_resource_id,
                    scope: job.guard_scope,
                    scheduled_at: Some(trigger.scheduled_at),
                    catch_up: trigger.catch_up,
                    trigger_count: trigger.trigger_count,
                })
            },
        },
{
    match acquired {
        ExecutionGuardAcquire::Acquired(lease) => {
            let event = execution_guard_acquired(&lease, trigger.catch_up, trigger.trigger_count);
            Admission { lease: Some(lease), event }
        },
        ExecutionGuardAcquire::Contended => Admission {
            lease: None,
            event: SchedulerEvent::ExecutionGuardContended {
                job_id: job.job_id.clone(),
                resource_id: job.execution_resource_id.clone(),
                scope: job.guard_scope,
                scheduled_at: Some(trigger.scheduled_at),
                catch_up: trigger.catch_up,
                trigger_count: trigger.trigger_count,
            },
        },
    }
}

/// The state of a job while it runs, and whether it is paused.
#[derive(Debug)]
pub struct LegacyRuntime {
    pub state: JobState,
    pub paused: bool,
}

/// A run that is to be started once the state is saved: what is told first, and
/// the slot to ask for.
#[derive(Debug)]
pub struct DueStart {
    pub trigger: PendingTrigger,
    pub event: SchedulerEvent,
    pub slot: ExecutionSlot,
}

impl LegacyRuntime {
    /// A job at its start is not paused.
    pub fn new(state: JobState) -> (r: Self)
        ensures
            r == (LegacyRuntime { state, paused: false }),
    {
        LegacyRuntime { state, paused: false }
    }

    /// Takes over the state that a due trigger leaves, and tells what to start,
    /// if anything.
    pub fn take_due(
        &mut self,
        job: &Job,
        candidate_state: JobState,
        action: OverlapAction,
    ) -> (r: Option<DueStart>)
        ensures
            *final(self) == (LegacyRuntime { state: candidate_state, ..*old(self) }),
            match action {
                OverlapAction::Spawn(trigger) => {
                    &&& r is Some
                    &&& r->0.trigger == trigger
                    &&& r->0.event == (SchedulerEvent::TriggerEmitted {
                        job_id: job.job_id,
                        scheduled_at: trigger.scheduled_at,
                        catch_up: trigger.catch_up,
                        trigger_count: trigger.trigger_count,
                    })
                    &&& r->0.slot@ == job_slot(job@, trigger.scheduled_at@)
                },
                _ => r is None,
            },
    {
        self.state = candidate_state;
        match action {
            OverlapAction::Spawn(trigger) => {
                let event = trigger_emitted(
                    &job.job_id,
                    trigger.scheduled_at,
                    trigger.catch_up,
                    trigger.trigger_count,
                );
                Some(DueStart { trigger, event, slot: slot_for(job, &trigger) })
            },
            _ => None,
        }
    }

    /// Writes a run that ended into the state and the history, and gives back
    /// what is told once the state is saved.
    pub fn finish_run(
        &mut self,
        history: &mut VecDeque<RunRecord>,
        history_limit: usize,
        completed: CompletedRun,
    ) -> (r: SchedulerEvent)
        ensures
            *final(self) == (LegacyRuntime {
                state: execution::state_after_run(old(self).state, completed.record),
                ..*old(self)
            }),
            final(history)@ == execution::history_after_run(
                old(history)@,
                completed.record,
                history_limit,
            ),
            r == (SchedulerEvent::RunCompleted {
                job_id: old(self).state.job_id,
                scheduled_at: completed.record.scheduled_at,
                catch_up: completed.record.catch_up,
                trigger_count: completed.trigger_count,
                status: completed.record.status,
                error: completed.record.error,
            }),
    {
        let (record, trigger_count) = apply_completed_run(
            &mut self.state,
            history,
            history_limit,
            completed,
        );
        run_completed(&self.state.job_id, &record, trigger_count)
    }

    /// Pauses, and tells whether that changed anything.
    pub fn pause(&mut self) -> (r: bool)
        ensures
            r == !old(self).paused,
            *final(self) == (LegacyRuntime { paused: true, ..*old(self) }),
    {
        let changed = !self.paused;
        self.paused = true;
        changed
    }

    /// Resumes, and tells whether that changed anything.
    pub fn resume(&mut self) -> (r: bool)
        ensures
            r == old(self).paused,
            *final(self) == (LegacyRuntime { paused: false, ..*old(self) }),
    {
        let changed = self.paused;
        self.paused = false;
        changed
    }
}

/// A job without a stored state starts from a new one that is due as its
/// schedule says; it is saved after the events.
pub proof fn law_call_new_start(
    job: &Job,
    now: UtcTime,
    timezone: &Timezone,
    due: Result<Option<UtcTime>, SchedulerError>,
    r: Result<LegacyStart, SchedulerError>,
)
    requires
        call_ensures(start_legacy_state, (job, None::<JobState>, now, timezone), r),
        call_ensures(initial_next_run_at, (job, now, timezone), due),
    ensures
        due is Err ==> r is Err && r->Err_0@ == due->Err_0@,
        due is Ok ==> {
            &&& r matches Ok(start)
            &&& start.save == StartSave::AfterEvents
            &&& start.state@.next_run_at == crate::time::instant_view(due->Ok_0)
            &&& start.state.job_id@ == job.job_id@
            &&& start.state.trigger_count == 0
            &&& start.state.last_run_at is None
            &&& start.state.last_success_at is None
            &&& start.state.last_error is None
            &&& start.events@ == seq![
                SchedulerEvent::StateLoaded {
                    job_id: job.job_id,
                    trigger_count: 0,
                    next_run_at: start.state.next_run_at,
                    source: StateLoadSource::New,
                },
            ]
        },
{
    if let Ok(start) = r {
        assert(start.state.trigger_count as nat == start.state@.trigger_count);
        assert(start.state@.last_run_at is None);
    }
}

/// A stored state with a next run, one of a job that does not repeat an
/// interval, and one whose runs are used up, is gone on with as it is.
pub proof fn law_call_restored_start(
    job: &Job,
    stored: JobState,
    now: UtcTime,
    timezone: &Timezone,
    r: Result<LegacyStart, SchedulerError>,
)
    requires
        call_ensures(start_legacy_state, (job, Some(stored), now, timezone), r),
        stored.next_run_at is Some || job.schedule is AtTimes || job.schedule is Cron
            || job.schedule is GroupedCron || job.schedule is WindowedInterval || (job.max_runs
            is Some && stored.trigger_count >= job.max_runs->0),
    ensures
        r is Ok,
        r->Ok_0.state@ == stored@,
        r->Ok_0.save == StartSave::Stored,
        r->Ok_0.events@ == seq![
            SchedulerEvent::StateLoaded {
                job_id: job.job_id,
                trigger_count: r->Ok_0.state.trigger_count,
                next_run_at: r->Ok_0.state.next_run_at,
                source: StateLoadSource::Restored,
            },
        ],
{
}

/// A stored state that lost its next run gets the first due time of its
/// schedule and keeps everything else. It is saved before the events, which
/// tell of the repair first.
pub proof fn law_call_repaired_start(
    job: &Job,
    stored: JobState,
    now: UtcTime,
    timezone: &Timezone,
    due: Result<Option<UtcTime>, SchedulerError>,
    r: Result<LegacyStart, SchedulerError>,
)
    requires
        call_ensures(start_legacy_state, (job, Some(stored), now, timezone), r),
        call_ensures(initial_next_run_at, (job, now, timezone), due),
        stored.next_run_at is None,
        job.schedule is Interval || job.schedule is StaggeredInterval || job.schedule
            is GroupedInterval,
        job.max_runs is None || stored.trigger_count < job.max_runs->0,
    ensures
        due is Err ==> r is Err && r->Err_0@ == due->Err_0@,
        due is Ok ==> {
            &&& r matches Ok(start)
            &&& start.save == StartSave::BeforeEvents
            &&& start.state@.next_run_at == crate::time::instant_view(due->Ok_0)
            &&& start.state@.job_id == stored@.job_id
            &&& start.state@.trigger_count == stored@.trigger_count
            &&& start.state@.last_run_at == stored@.last_run_at
            &&& start.state@.last_success_at == stored@.last_success_at
            &&& start.state@.last_error == stored@.last_error
            &&& start.events@.len() == 2
            &&& start.events@[0] == (SchedulerEvent::StateRepaired {
                job_id: job.job_id,
                trigger_count: start.state.trigger_count,
                previous_next_run_at: None,
                repaired_next_run_at: start.state.next_run_at,
            })
            &&& start.events@[1] == (SchedulerEvent::StateLoaded {
                job_id: job.job_id,
                trigger_count: start.state.trigger_count,
                next_run_at: start.state.next_run_at,
                source: StateLoadSource::Repaired,
            })
        },
{
}

/// The slot of a run names the job and its resource, and the occurrence exactly
/// where each occurrence is guarded by itself.
pub proof fn law_call_slot(job: &Job, trigger: &PendingTrigger, r: ExecutionSlot)
    requires
        call_ensures(slot_for, (job, trigger), r),
    ensures
        r.job_id@ == job.job_id@,
        r.resource_id@ == job.execution_resource_id@,
        r.scope == job.guard_scope,
        job.guard_scope == ExecutionGuardScope::Occurrence ==> r@.scheduled_at == Some(
            trigger.scheduled_at@,
        ),
        job.guard_scope == ExecutionGuardScope::Resource ==> r@.scheduled_at is None,
{
    assert(r@.job_id == r.job_id@ && r@.resource_id == r.resource_id@ && r@.scope == r.scope);
}

/// A due trigger leaves its state whatever becomes of it, and is started
/// exactly where it is to run at once.
pub proof fn law_call_take_due(
    runtime: &mut LegacyRuntime,
    job: &Job,
    candidate: JobState,
    action: OverlapAction,
    r: Option<DueStart>,
)
    requires
        call_ensures(LegacyRuntime::take_due, (runtime, job, candidate, action), r),
    ensures
        final(runtime).state == candidate,
        final(runtime).paused == old(runtime).paused,
        r is Some <==> action is Spawn,
        r matches Some(start) ==> {
            &&& OverlapAction::Spawn(start.trigger) == action
            &&& start.event == (SchedulerEvent::TriggerEmitted {
                job_id: job.job_id,
                scheduled_at: start.trigger.scheduled_at,
                catch_up: start.trigger.catch_up,
                trigger_count: start.trigger.trigger_count,
            })
            &&& start.slot@.job_id == job.job_id@
            &&& start.slot@.resource_id == job.execution_resource_id@
            &&& start.slot@.scope == job.guard_scope
            &&& job.guard_scope == ExecutionGuardScope::Occurrence ==> start.slot@.scheduled_at
                == Some(start.trigger.scheduled_at@)
        },
{
}

/// A run that ended is told with its own outcome, and leaves the next run and
/// the count of triggers as they were.
pub proof fn law_call_finish_run(
    runtime: &mut LegacyRuntime,
    history: &mut VecDeque<RunRecord>,
    history_limit: usize,
    completed: CompletedRun,
    r: SchedulerEvent,
)
    requires
        call_ensures(LegacyRuntime::finish_run, (runtime, history, history_limit, completed), r),
    ensures
        final(runtime).paused == old(runtime).paused,
        final(runtime).state.next_run_at == old(runtime).state.next_run_at,
        final(runtime).state.trigger_count == old(runtime).state.trigger_count,
        final(runtime).state.job_id == old(runtime).state.job_id,
        final(runtime).state.last_run_at == Some(completed.record.started_at),
        completed.record.status == crate::model::state::RunStatus::Success ==> final(
            runtime
        ).state.last_success_at == Some(completed.record.finished_at) && final(
            runtime
        ).state.last_error is None,
        completed.record.status == crate::model::state::RunStatus::Failed ==> final(
            runtime
        ).state.last_success_at == old(runtime).state.last_success_at && final(
            runtime
        ).state.last_error == completed.record.error,
        history_limit > 0 ==> 0 < final(history)@.len() <= history_limit && final(
            history
        )@.last() == completed.record,
        r == (SchedulerEvent::RunCompleted {
            job_id: old(runtime).state.job_id,
            scheduled_at: completed.record.scheduled_at,
            catch_up: completed.record.catch_up,
            trigger_count: completed.trigger_count,
            status: completed.record.status,
            error: completed.record.error,
        }),
{
}

/// Only a lease admits a run, and it is that lease which the run holds.
pub proof fn law_call_start_trigger(
    job: &Job,
    trigger: &PendingTrigger,
    acquired: ExecutionGuardAcquire,
    r: Admission,
)
    requires
        call_ensures(start_trigger, (job, trigger, acquired), r),
    ensures
        acquired == ExecutionGuardAcquire::Contended <==> r.lease is None,
        r.lease matches Some(lease) ==> acquired == ExecutionGuardAcquire::Acquired(lease),
        r.lease is None <==> r.event is ExecutionGuardContended,
        r.event matches SchedulerEvent::ExecutionGuardContended { scheduled_at, .. }
            ==> scheduled_at == Some(trigger.scheduled_at),
{
}

/// Pausing and resuming tell whether the mode was another one before, and
/// change nothing else.
pub proof fn law_call_pause(runtime: &mut LegacyRuntime, r: bool)
    requires
        call_ensures(LegacyRuntime::pause, (runtime,), r),
    ensures
        final(runtime).paused,
        final(runtime).state == old(runtime).state,
        r <==> final(runtime).paused != old(runtime).paused,
{
}

/// Resuming tells whether the job was paused before, and changes nothing else.
pub proof fn law_call_resume(runtime: &mut LegacyRuntime, r: bool)
    requires
        call_ensures(LegacyRuntime::resume, (runtime,), r),
    ensures
        !final(runtime).paused,
        final(runtime).state == old(runtime).state,
        r <==> final(runtime).paused != old(runtime).paused,
{
}

} // verus!
