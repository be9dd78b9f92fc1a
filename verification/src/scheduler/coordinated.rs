//! A job whose state schedulers share: the store that cannot be reached never
//! lets a run start, and never ends the scheduler.
use vstd::prelude::*;
use crate::coordinated_store::{CoordinatedClaim, CoordinatedRuntimeState};
use crate::error::{
    ErrorView, ExecutionGuardErrorKind, SchedulerError, StoreErrorKind,
};
use crate::model::job::Job;
use crate::model::state::JobState;
use crate::observer::{SchedulerEvent, StateLoadSource};
use crate::scheduler::engine::{self, should_repair_interval_state};
use crate::scheduler::overlap::OverlapAction;
use crate::scheduler::runtime_events::{
    execution_guard_acquired, state_loaded, state_repaired, trigger_emitted,
};
use crate::scheduler::trigger::PendingTrigger;
use crate::scheduler::trigger_math::{self, initial_next_run_at};
use crate::time::{self, UtcTime};
use crate::zone::Timezone;

verus! {

/// Whether an error means that the store could not be reached.
pub open spec fn store_unreachable(error: SchedulerError) -> bool {
    error matches SchedulerError::Store(store_error) && store_error@.0
        == StoreErrorKind::Connection
}

/// Whether an error means that the guard could not be reached.
pub open spec fn guard_unreachable(error: SchedulerError) -> bool {
    error matches SchedulerError::ExecutionGuard(guard_error) && guard_error@.0
        == ExecutionGuardErrorKind::Connection
}

pub fn is_store_connection_error(error: &SchedulerError) -> (r: bool)
    ensures
        r == store_unreachable(*error),
{
    match error {
        SchedulerError::Store(store_error) => store_error.kind() == StoreErrorKind::Connection,
        _ => false,
    }
}

pub fn is_guard_connection_error(error: &SchedulerError) -> (r: bool)
    ensures
        r == guard_unreachable(*error),
{
    match error {
        SchedulerError::ExecutionGuard(guard_error) => guard_error.kind()
            == ExecutionGuardErrorKind::Connection,
        _ => false,
    }
}

/// What is gone on with after the shared state was read again: the state that
/// was known before, where the store could not be reached.
pub open spec fn known_or_read(
    known: CoordinatedRuntimeState,
    read: Result<CoordinatedRuntimeState, SchedulerError>,
) -> Result<CoordinatedRuntimeState, SchedulerError> {
    match read {
        Ok(runtime) => Ok(runtime),
        Err(error) => if store_unreachable(error) {
            Ok(known)
        } else {
            Err(error)
        },
    }
}

/// What a write to the shared state amounts to: nothing changed, where the
/// store could not be reached.
pub open spec fn write_outcome(
    reply: Result<bool, SchedulerError>,
) -> Result<bool, SchedulerError> {
    match reply {
        Ok(changed) => Ok(changed),
        Err(error) => if store_unreachable(error) {
            Ok(false)
        } else {
            Err(error)
        },
    }
}

/// What asking for a claim amounts to: no claim, where the store could not be
/// reached.
pub open spec fn claim_reply(
    reply: Result<Option<CoordinatedClaim>, SchedulerError>,
) -> Result<Option<CoordinatedClaim>, SchedulerError> {
    match reply {
        Ok(claim) => Ok(claim),
        Err(error) => if guard_unreachable(error) {
            Ok(None)
        } else {
            Err(error)
        },
    }
}

/// Takes in how reading the shared state went.
pub fn refreshed(
    known: CoordinatedRuntimeState,
    read: Result<CoordinatedRuntimeState, SchedulerError>,
) -> (r: Result<CoordinatedRuntimeState, SchedulerError>)
    ensures
        r == known_or_read(known, read),
{
    match read {
        Ok(runtime) => Ok(runtime),
        Err(error) => {
            if is_store_connection_error(&error) {
                Ok(known)
            } else {
                Err(error)
            }
        },
    }
}

/// Takes in how a write to the shared state went.
pub fn changed_or_unreachable(
    reply: Result<bool, SchedulerError>,
) -> (r: Result<bool, SchedulerError>)
    ensures
        r == write_outcome(reply),
{
    match reply {
        Ok(changed) => Ok(changed),
        Err(error) => {
            if is_store_connection_error(&error) {
                Ok(false)
            } else {
                Err(error)
            }
        },
    }
}

/// Takes in how asking for a claim went.
pub fn claimed_or_unreachable(
    reply: Result<Option<CoordinatedClaim>, SchedulerError>,
) -> (r: Result<Option<CoordinatedClaim>, SchedulerError>)
    ensures
        r == claim_reply(reply),
{
    match reply {
        Ok(claim) => Ok(claim),
        Err(error) => {
            if is_guard_connection_error(&error) {
                Ok(None)
            } else {
                Err(error)
            }
        },
    }
}

/// The runtime state after a write of a state: the next version with that
/// state, where it was saved, and as it was otherwise.
pub open spec fn after_save(
    runtime: CoordinatedRuntimeState,
    state: JobState,
    saved: bool,
) -> CoordinatedRuntimeState {
    if saved {
        CoordinatedRuntimeState { state, revision: (runtime.revision + 1) as u64, ..runtime }
    } else {
        runtime
    }
}

/// Takes in whether a state was saved.
pub fn take_save(runtime: &mut CoordinatedRuntimeState, state: &JobState, saved: bool)
    requires
        saved ==> old(runtime).revision < u64::MAX,
    ensures
        *final(runtime) == after_save(*old(runtime), *state, saved),
{
    if saved {
        runtime.revision = runtime.revision + 1;
        runtime.state = state.clone();
    }
}

/// Takes in that the state of a finished job was deleted, unless the store
/// could not be reached.
pub fn take_delete(
    runtime: &mut CoordinatedRuntimeState,
    reply: Result<(), SchedulerError>,
) -> (r: Result<(), SchedulerError>)
    ensures
        match reply {
            Ok(()) => r is Ok && *final(runtime) == (CoordinatedRuntimeState {
                state: JobState { next_run_at: None, ..old(runtime).state },
                ..*old(runtime)
            }),
            Err(error) => *final(runtime) == *old(runtime) && r == if store_unreachable(error) {
                Ok(())
            } else {
                Err(error)
            },
        },
{
    match reply {
        Ok(()) => {
            runtime.state.next_run_at = None;
            Ok(())
        },
        Err(error) => {
            if is_store_connection_error(&error) {
                Ok(())
            } else {
                Err(error)
            }
        },
    }
}

/// What a claim was made for.
#[derive(Debug, Clone, Copy, PartialEq, Eq)]
pub enum ClaimPurpose {
    /// A trigger that waited.
    Queued(PendingTrigger),
    /// A trigger that is due.
    Due(PendingTrigger),
    /// A claim that was left behind.
    LeftBehind,
}

/// The event of a claim that was given for a trigger.
pub open spec fn acquired_event(
    claim: CoordinatedClaim,
    catch_up: bool,
    trigger_count: u32,
) -> SchedulerEvent {
    SchedulerEvent::ExecutionGuardAcquired {
        job_id: claim.lease.job_id,
        resource_id: claim.lease.resource_id,
        scope: claim.lease.scope,
        lease_key: claim.lease.lease_key,
        scheduled_at: claim.lease.scheduled_at,
        catch_up,
        trigger_count,
    }
}

/// What is told about a claim. That a trigger was emitted is told once the
/// claim is there, and only for one that was due.
pub open spec fn claim_events(
    job_id: String,
    claim: CoordinatedClaim,
    purpose: ClaimPurpose,
) -> Seq<SchedulerEvent> {
    match purpose {
        ClaimPurpose::Queued(trigger) => seq![
            acquired_event(claim, trigger.catch_up, trigger.trigger_count),
        ],
        ClaimPurpose::Due(trigger) => seq![
            SchedulerEvent::TriggerEmitted {
                job_id,
                scheduled_at: trigger.scheduled_at,
                catch_up: trigger.catch_up,
                trigger_count: trigger.trigger_count,
            },
            acquired_event(claim, trigger.catch_up, trigger.trigger_count),
        ],
        ClaimPurpose::LeftBehind => seq![
            acquired_event(claim, claim.trigger.catch_up, claim.trigger.trigger_count),
        ],
    }
}

/// Takes over the state of a claim, and gives back what is told about it.
pub fn take_claim(
    runtime: &mut CoordinatedRuntimeState,
    job_id: &String,
    claim: &CoordinatedClaim,
    purpose: ClaimPurpose,
) -> (r: Vec<SchedulerEvent>)
    ensures
        *final(runtime) == claim.state,
        r@ == claim_events(*job_id, *claim, purpose),
{
    *runtime = claim.state.clone();
    let mut events: Vec<SchedulerEvent> = Vec::new();
    match purpose {
        ClaimPurpose::Queued(trigger) => {
            events.push(
                execution_guard_acquired(&claim.lease, trigger.catch_up, trigger.trigger_count),
            );
        },
        ClaimPurpose::Due(trigger) => {
            events.push(
                trigger_emitted(
                    job_id,
                    trigger.scheduled_at,
                    trigger.catch_up,
                    trigger.trigger_count,
                ),
            );
            events.push(
                execution_guard_acquired(&claim.lease, trigger.catch_up, trigger.trigger_count),
            );
        },
        ClaimPurpose::LeftBehind => {
            events.push(
                execution_guard_acquired(
                    &claim.lease,
                    claim.trigger.catch_up,
                    claim.trigger.trigger_count,
                ),
            );
        },
    }
    assert(events@ =~= claim_events(*job_id, *claim, purpose));
    events
}

/// What is asked of the shared store about a trigger that is due.
#[derive(Debug)]
pub enum DueRequest {
    /// A claim for the trigger, from this version on to this state.
    Claim { trigger: PendingTrigger, revision: u64, next_state: JobState },
    /// To save the state; the run does not start now.
    Save { revision: u64, next_state: JobState },
}

/// What is asked about a trigger that is due: a claim where it is to be started,
/// and to save the state that it leaves where it waits or is dropped. The state
/// that is known stays until the store has answered.
pub fn request_due(
    runtime: &CoordinatedRuntimeState,
    candidate_state: JobState,
    action: OverlapAction,
) -> (r: DueRequest)
    ensures
        r == match action {
            OverlapAction::Spawn(trigger) => DueRequest::Claim {
                trigger,
                revision: runtime.revision,
                next_state: candidate_state,
            },
            _ => DueRequest::Save { revision: runtime.revision, next_state: candidate_state },
        },
{
    match action {
        OverlapAction::Spawn(trigger) => DueRequest::Claim {
            trigger,
            revision: runtime.revision,
            next_state: candidate_state,
        },
        _ => DueRequest::Save { revision: runtime.revision, next_state: candidate_state },
    }
}

/// What is to be done about a shared state that was read.
#[derive(Debug)]
pub enum SharedStart {
    /// It is as it should be; this is told.
    Ready { runtime: CoordinatedRuntimeState, events: Vec<SchedulerEvent> },
    /// Its next run was lost: it is to be saved with a new one.
    Repair { runtime: CoordinatedRuntimeState, previous_next_run_at: Option<UtcTime> },
}

/// Looks at a shared state that was read. A state in its first version is new;
/// any other was restored. `tell` is set where a job starts, and not where its
/// state is only read again.
pub fn look_at_shared_state(
    job: &Job,
    runtime: CoordinatedRuntimeState,
    tell: bool,
    now: UtcTime,
    timezone: &Timezone,
) -> (r: Result<SharedStart, SchedulerError>)
    ensures
        if engine::needs_repair(job@, runtime.state@) {
            match r {
                Ok(SharedStart::Repair { runtime: repaired, previous_next_run_at }) => {
                    &&& trigger_math::initial_due(job@, now@, timezone@) == Ok::<
                        Option<int>,
                        ErrorView,
                    >(time::instant_view(repaired.state.next_run_at))
                    &&& repaired == (CoordinatedRuntimeState {
                        state: JobState {
                            next_run_at: repaired.state.next_run_at,
                            ..runtime.state
                        },
                        ..runtime
                    })
                    &&& previous_next_run_at == runtime.state.next_run_at
                },
                Ok(_) => false,
                Err(error) => trigger_math::initial_due(job@, now@, timezone@) == Err::<
                    Option<int>,
                    ErrorView,
                >(error@),
            }
        } else {
            &&& r matches Ok(SharedStart::Ready { runtime: same, events })
            &&& same == runtime
            &&& events@ == if tell {
                seq![
                    SchedulerEvent::StateLoaded {
                        job_id: job.job_id,
                        trigger_count: runtime.state.trigger_count,
                        next_run_at: runtime.state.next_run_at,
                        source: if runtime.revision == 0 {
                            StateLoadSource::New
                        } else {
                            StateLoadSource::Restored
                        },
                    },
                ]
            } else {
                Seq::empty()
            }
        },
{
    let mut runtime = runtime;
    if should_repair_interval_state(job, &runtime.state) {
        let previous_next_run_at = runtime.state.next_run_at;
        match initial_next_run_at(job, now, timezone) {
            Ok(next_run_at) => {
                runtime.state.next_run_at = next_run_at;
                Ok(SharedStart::Repair { runtime, previous_next_run_at })
            },
            Err(error) => Err(error),
        }
    } else {
        let mut events: Vec<SchedulerEvent> = Vec::new();
        if tell {
            let source = if runtime.revision == 0 {
                StateLoadSource::New
            } else {
                StateLoadSource::Restored
            };
            events.push(state_loaded(&job.job_id, &runtime.state, source));
        }
        Ok(SharedStart::Ready { runtime, events })
    }
}

/// What is told about a repair: nothing where another scheduler was faster.
pub open spec fn repair_events(
    job_id: String,
    runtime: CoordinatedRuntimeState,
    previous_next_run_at: Option<UtcTime>,
    saved: bool,
    tell: bool,
) -> Seq<SchedulerEvent> {
    let repaired = SchedulerEvent::StateRepaired {
        job_id,
        trigger_count: runtime.state.trigger_count,
        previous_next_run_at,
        repaired_next_run_at: runtime.state.next_run_at,
    };
    let loaded = SchedulerEvent::StateLoaded {
        job_id,
        trigger_count: runtime.state.trigger_count,
        next_run_at: runtime.state.next_run_at,
        source: StateLoadSource::Repaired,
    };
    if !saved {
        Seq::empty()
    } else if tell {
        seq![repaired, loaded]
    } else {
        seq![repaired]
    }
}

/// Takes in whether a repair was saved, and gives back what is told about it.
pub fn take_repair(
    job_id: &String,
    runtime: &mut CoordinatedRuntimeState,
    previous_next_run_at: Option<UtcTime>,
    saved: bool,
    tell: bool,
) -> (r: Vec<SchedulerEvent>)
    requires
        saved ==> old(runtime).revision < u64::MAX,
    ensures
        *final(runtime) == after_save(*old(runtime), old(runtime).state, saved),
        r@ == repair_events(*job_id, *old(runtime), previous_next_run_at, saved, tell),
{
    let mut events: Vec<SchedulerEvent> = Vec::new();
    if saved {
        runtime.revision = runtime.revision + 1;
        events.push(state_repaired(job_id, &runtime.state, previous_next_run_at));
        if tell {
            events.push(state_loaded(job_id, &runtime.state, StateLoadSource::Repaired));
        }
    }
    assert(events@ =~= repair_events(
        *job_id,
        *old(runtime),
        previous_next_run_at,
        saved,
        tell,
    ));
    events
}

/// A state that is saved gets the next version; one that is not saved, because
/// another scheduler was faster or the store cannot be reached, leaves
/// everything as it was.
pub proof fn law_versions_count_saves(runtime: CoordinatedRuntimeState, state: JobState)
    requires
        runtime.revision < u64::MAX,
    ensures
        after_save(runtime, state, false) == runtime,
        after_save(runtime, state, true).state == state,
        after_save(runtime, state, true).revision == runtime.revision + 1,
        after_save(runtime, state, true).paused == runtime.paused,
{
}

/// While the store cannot be reached no trigger is claimed and the shared state
/// does not move on: what was known stays, and nothing fails.
pub proof fn law_unreachable_changes_nothing(
    runtime: CoordinatedRuntimeState,
    state: JobState,
    store_error: SchedulerError,
    guard_error: SchedulerError,
)
    requires
        store_unreachable(store_error),
        guard_unreachable(guard_error),
    ensures
        known_or_read(runtime, Err(store_error)) == Ok::<CoordinatedRuntimeState, SchedulerError>(
            runtime,
        ),
        write_outcome(Err(store_error)) matches Ok(saved) && after_save(runtime, state, saved)
            == runtime,
        claim_reply(Err(guard_error)) == Ok::<Option<CoordinatedClaim>, SchedulerError>(None),
{
}

/// A read that came through is gone on with; one that failed because the store
/// could not be reached leaves what was known; any other error is handed on.
pub proof fn law_call_refreshed(
    known: CoordinatedRuntimeState,
    read: Result<CoordinatedRuntimeState, SchedulerError>,
    r: Result<CoordinatedRuntimeState, SchedulerError>,
)
    requires
        call_ensures(refreshed, (known, read), r),
    ensures
        read is Ok ==> r == read,
        read matches Err(SchedulerError::Store(cause)) ==> {
            &&& cause@.0 == StoreErrorKind::Connection ==> r == Ok::<
                CoordinatedRuntimeState,
                SchedulerError,
            >(known)
            &&& cause@.0 != StoreErrorKind::Connection ==> r == read
        },
        read is Err && !(read->Err_0 is Store) ==> r == read,
{
}

/// A write that could not reach the store changed nothing; any other answer is
/// handed on.
pub proof fn law_call_write(
    reply: Result<bool, SchedulerError>,
    r: Result<bool, SchedulerError>,
)
    requires
        call_ensures(changed_or_unreachable, (reply,), r),
    ensures
        reply is Ok ==> r == reply,
        reply matches Err(SchedulerError::Store(cause)) ==> {
            &&& cause@.0 == StoreErrorKind::Connection ==> r == Ok::<bool, SchedulerError>(false)
            &&& cause@.0 != StoreErrorKind::Connection ==> r == reply
        },
        reply is Err && !(reply->Err_0 is Store) ==> r == reply,
{
}

/// A claim that could not be asked for was not given; any other answer is
/// handed on.
pub proof fn law_call_claimed(
    reply: Result<Option<CoordinatedClaim>, SchedulerError>,
    r: Result<Option<CoordinatedClaim>, SchedulerError>,
)
    requires
        call_ensures(claimed_or_unreachable, (reply,), r),
    ensures
        reply is Ok ==> r == reply,
        reply matches Err(SchedulerError::ExecutionGuard(cause)) ==> {
            &&& cause@.0 == ExecutionGuardErrorKind::Connection ==> r == Ok::<
                Option<CoordinatedClaim>,
                SchedulerError,
            >(None)
            &&& cause@.0 != ExecutionGuardErrorKind::Connection ==> r == reply
        },
        reply is Err && !(reply->Err_0 is ExecutionGuard) ==> r == reply,
{
}

/// A save that was accepted is the next version with the state that was sent;
/// one that was not changes nothing.
pub proof fn law_call_take_save(
    runtime: &mut CoordinatedRuntimeState,
    state: &JobState,
    saved: bool,
)
    requires
        call_ensures(take_save, (runtime, state, saved), ()),
        saved ==> old(runtime).revision < u64::MAX,
    ensures
        saved ==> final(runtime).state == *state && final(runtime).revision == old(
            runtime
        ).revision + 1 && final(runtime).paused == old(runtime).paused,
        !saved ==> *final(runtime) == *old(runtime),
{
}

/// A claim brings its own state. What was due is told as emitted before its
/// lease is, with the trigger that was asked for; a claim that was left behind
/// is told with the trigger that it holds.
pub proof fn law_call_take_claim(
    runtime: &mut CoordinatedRuntimeState,
    job_id: &String,
    claim: &CoordinatedClaim,
    purpose: ClaimPurpose,
    r: Vec<SchedulerEvent>,
)
    requires
        call_ensures(take_claim, (runtime, job_id, claim, purpose), r),
    ensures
        *final(runtime) == claim.state,
        r@.len() == (if purpose is Due {
            2nat
        } else {
            1
        }),
        r@.last() == (SchedulerEvent::ExecutionGuardAcquired {
            job_id: claim.lease.job_id,
            resource_id: claim.lease.resource_id,
            scope: claim.lease.scope,
            lease_key: claim.lease.lease_key,
            scheduled_at: claim.lease.scheduled_at,
            catch_up: match purpose {
                ClaimPurpose::Queued(trigger) => trigger.catch_up,
                ClaimPurpose::Due(trigger) => trigger.catch_up,
                ClaimPurpose::LeftBehind => claim.trigger.catch_up,
            },
            trigger_count: match purpose {
                ClaimPurpose::Queued(trigger) => trigger.trigger_count,
                ClaimPurpose::Due(trigger) => trigger.trigger_count,
                ClaimPurpose::LeftBehind => claim.trigger.trigger_count,
            },
        }),
        purpose matches ClaimPurpose::Due(trigger) ==> r@[0] == (SchedulerEvent::TriggerEmitted {
            job_id: *job_id,
            scheduled_at: trigger.scheduled_at,
            catch_up: trigger.catch_up,
            trigger_count: trigger.trigger_count,
        }),
{
}

/// A claim is asked for exactly where a trigger is to start; both requests go
/// out from the version that is known, on to the state that the trigger leaves.
pub proof fn law_call_request_due(
    runtime: &CoordinatedRuntimeState,
    candidate: JobState,
    action: OverlapAction,
    r: DueRequest,
)
    requires
        call_ensures(request_due, (runtime, candidate, action), r),
    ensures
        r is Claim <==> action is Spawn,
        r matches DueRequest::Claim { trigger, revision, next_state } ==> action
            == OverlapAction::Spawn(trigger) && revision == runtime.revision && next_state
            == candidate,
        r matches DueRequest::Save { revision, next_state } ==> revision == runtime.revision
            && next_state == candidate,
{
}

/// A shared state that has a next run is ready as it is. It is told only where
/// the job starts: as new in its first version, and as restored in any other.
pub proof fn law_call_shared_ready(
    job: &Job,
    runtime: CoordinatedRuntimeState,
    tell: bool,
    now: UtcTime,
    timezone: &Timezone,
    r: Result<SharedStart, SchedulerError>,
)
    requires
        call_ensures(look_at_shared_state, (job, runtime, tell, now, timezone), r),
        runtime.state.next_run_at is Some || job.schedule is AtTimes || job.schedule is Cron
            || job.schedule is GroupedCron || job.schedule is WindowedInterval || (job.max_runs
            is Some && runtime.state.trigger_count >= job.max_runs->0),
    ensures
        r is Ok,
        r->Ok_0 is Ready,
        r->Ok_0->Ready_runtime == runtime,
        !tell ==> r->Ok_0->Ready_events@.len() == 0,
        tell ==> r->Ok_0->Ready_events@ == seq![
            SchedulerEvent::StateLoaded {
                job_id: job.job_id,
                trigger_count: runtime.state.trigger_count,
                next_run_at: runtime.state.next_run_at,
                source: if runtime.revision == 0 {
                    StateLoadSource::New
                } else {
                    StateLoadSource::Restored
                },
            },
        ],
{
}

/// A shared state that lost its next run is to be repaired with the first due
/// time of its schedule, and nothing else about it changes.
pub proof fn law_call_shared_repair(
    job: &Job,
    runtime: CoordinatedRuntimeState,
    tell: bool,
    now: UtcTime,
    timezone: &Timezone,
    due: Result<Option<UtcTime>, SchedulerError>,
    r: Result<SharedStart, SchedulerError>,
)
    requires
        call_ensures(look_at_shared_state, (job, runtime, tell, now, timezone), r),
        call_ensures(initial_next_run_at, (job, now, timezone), due),
        runtime.state.next_run_at is None,
        job.schedule is Interval || job.schedule is StaggeredInterval || job.schedule
            is GroupedInterval,
        job.max_runs is None || runtime.state.trigger_count < job.max_runs->0,
    ensures
        due is Err ==> r is Err && r->Err_0@ == due->Err_0@,
        due is Ok ==> {
            &&& r matches Ok(SharedStart::Repair { runtime: repaired, previous_next_run_at })
            &&& time::instant_view(repaired.state.next_run_at) == time::instant_view(due->Ok_0)
            &&& previous_next_run_at is None
            &&& repaired.revision == runtime.revision
            &&& repaired.paused == runtime.paused
            &&& repaired.state.job_id == runtime.state.job_id
            &&& repaired.state.trigger_count == runtime.state.trigger_count
            &&& repaired.state.last_run_at == runtime.state.last_run_at
            &&& repaired.state.last_success_at == runtime.state.last_success_at
            &&& repaired.state.last_error == runtime.state.last_error
        },
{
}

/// A repair counts as a version and is told only once it is saved; that the
/// state was loaded is told after it, and only where the job starts.
pub proof fn law_call_take_repair(
    job_id: &String,
    runtime: &mut CoordinatedRuntimeState,
    previous: Option<UtcTime>,
    saved: bool,
    tell: bool,
    r: Vec<SchedulerEvent>,
)
    requires
        call_ensures(take_repair, (job_id, runtime, previous, saved, tell), r),
        saved ==> old(runtime).revision < u64::MAX,
    ensures
        final(runtime).state == old(runtime).state,
        final(runtime).paused == old(runtime).paused,
        final(runtime).revision == old(runtime).revision + (if saved {
            1int
        } else {
            0
        }),
        !saved ==> r@.len() == 0,
        saved ==> r@.len() == (if tell {
            2nat
        } else {
            1
        }) && r@[0] == (SchedulerEvent::StateRepaired {
            job_id: *job_id,
            trigger_count: old(runtime).state.trigger_count,
            previous_next_run_at: previous,
            repaired_next_run_at: old(runtime).state.next_run_at,
        }),
        saved && tell ==> r@[1] == (SchedulerEvent::StateLoaded {
            job_id: *job_id,
            trigger_count: old(runtime).state.trigger_count,
            next_run_at: old(runtime).state.next_run_at,
            source: StateLoadSource::Repaired,
        }),
{
}

/// A state that was deleted has no next run any more; one that could not be
/// deleted stays as it is, and only an error other than an unreachable store is
/// handed on.
pub proof fn law_call_take_delete(
    runtime: &mut CoordinatedRuntimeState,
    reply: Result<(), SchedulerError>,
    r: Result<(), SchedulerError>,
)
    requires
        call_ensures(take_delete, (runtime, reply), r),
    ensures
        reply is Ok ==> r is Ok && final(runtime).state.next_run_at is None && final(
            runtime
        ).revision == old(runtime).revision && final(runtime).paused == old(runtime).paused
            && final(runtime).state.trigger_count == old(runtime).state.trigger_count,
        reply is Err ==> *final(runtime) == *old(runtime),
        reply matches Err(SchedulerError::Store(cause)) ==> (r is Ok <==> cause@.0
            == StoreErrorKind::Connection),
        reply is Err && !(reply->Err_0 is Store) ==> r == reply,
{
}

} // verus!
