//! The end of a run that was claimed.
use std::collections::VecDeque;
use vstd::prelude::*;
use crate::coordinated_store::{CoordinatedCompletion, CoordinatedRuntimeState};
use crate::error::SchedulerError;
use crate::execution_guard::ExecutionLease;
use crate::model::state::{JobState, RunRecord, RunStatus};
use crate::observer::SchedulerEvent;
use crate::scheduler::coordinated::{self, is_store_connection_error};
use crate::scheduler::execution::{self, apply_completed_run, CompletedRun};
use crate::scheduler::runtime_events::{execution_guard_released, run_completed};

verus! {

/// A run that came to its end, and the lease of its claim.
#[derive(Debug)]
pub struct CoordinatedCompletedRun {
    pub completed: CompletedRun,
    pub lease: ExecutionLease,
}

/// A run that is written into the state and is to be completed in the store.
#[derive(Debug)]
pub struct PendingCompletion {
    pub record: RunRecord,
    pub trigger_count: u32,
    pub lease: ExecutionLease,
    pub completion: CoordinatedCompletion,
}

/// Writes a run that ended into the state and the history of its job, and gives
/// back what the store is to be told.
pub fn begin_completion(
    state: &mut JobState,
    history: &mut VecDeque<RunRecord>,
    history_limit: usize,
    completed: CoordinatedCompletedRun,
) -> (r: PendingCompletion)
    ensures
        *final(state) == execution::state_after_run(*old(state), completed.completed.record),
        final(history)@ == execution::history_after_run(
            old(history)@,
            completed.completed.record,
            history_limit,
        ),
        r.record == completed.completed.record,
        r.trigger_count == completed.completed.trigger_count,
        r.lease == completed.lease,
        r.completion == (CoordinatedCompletion {
            last_run_at: r.record.finished_at,
            last_success_at: if r.record.status == RunStatus::Success {
                Some(r.record.finished_at)
            } else {
                None
            },
            last_error: r.record.error,
        }),
{
    let CoordinatedCompletedRun { completed, lease } = completed;
    let (record, trigger_count) = apply_completed_run(state, history, history_limit, completed);
    let completion = CoordinatedCompletion::of_record(&record);
    PendingCompletion { record, trigger_count, lease, completion }
}

/// What is told about a run whose completion the store answered: that its lease
/// was released, where the claim was still there, and that it ended.
pub open spec fn completion_events(
    job_id: String,
    pending: PendingCompletion,
    saved: bool,
) -> Seq<SchedulerEvent> {
    let ended = SchedulerEvent::RunCompleted {
        job_id,
        scheduled_at: pending.record.scheduled_at,
        catch_up: pending.record.catch_up,
        trigger_count: pending.trigger_count,
        status: pending.record.status,
        error: pending.record.error,
    };
    if saved {
        seq![
            SchedulerEvent::ExecutionGuardReleased {
                job_id: pending.lease.job_id,
                resource_id: pending.lease.resource_id,
                scope: pending.lease.scope,
                lease_key: pending.lease.lease_key,
                scheduled_at: pending.lease.scheduled_at,
                catch_up: pending.record.catch_up,
                trigger_count: pending.trigger_count,
            },
            ended,
        ]
    } else {
        seq![ended]
    }
}

/// Takes in how the store answered, and gives back what is told. A store that
/// could not be reached leaves the version as it was, and nothing is told.
pub fn finish_completion(
    runtime: &mut CoordinatedRuntimeState,
    pending: &PendingCompletion,
    reply: Result<bool, SchedulerError>,
) -> (r: Result<Vec<SchedulerEvent>, SchedulerError>)
    requires
        reply is Ok ==> old(runtime).revision < u64::MAX,
    ensures
        match reply {
            Ok(saved) => {
                &&& *final(runtime) == (CoordinatedRuntimeState {
                    revision: (old(runtime).revision + 1) as u64,
                    ..*old(runtime)
                })
                &&& r is Ok
                &&& r->Ok_0@ == completion_events(old(runtime).state.job_id, *pending, saved)
            },
            Err(error) => {
                &&& *final(runtime) == *old(runtime)
                &&& coordinated::store_unreachable(error) ==> r is Ok && r->Ok_0@.len() == 0
                &&& !coordinated::store_unreachable(error) ==> r == Err::<
                    Vec<SchedulerEvent>,
                    SchedulerError,
                >(error)
            },
        },
{
    let mut events: Vec<SchedulerEvent> = Vec::new();
    match reply {
        Ok(saved) => {
            if saved {
                events.push(
                    execution_guard_released(
                        &pending.lease,
                        pending.record.catch_up,
                        pending.trigger_count,
                    ),
                );
            }
            events.push(
                run_completed(&runtime.state.job_id, &pending.record, pending.trigger_count),
            );
            assert(events@ =~= completion_events(runtime.state.job_id, *pending, saved));
            runtime.revision = runtime.revision + 1;
            Ok(events)
        },
        Err(error) => {
            if is_store_connection_error(&error) {
                Ok(events)
            } else {
                Err(error)
            }
        },
    }
}

/// The end of a run goes to the store with its end as the last run, and as the
/// last success where it succeeded; the state at hand has its start as the last
/// run.
pub proof fn law_call_begin_completion(
    state: &mut JobState,
    history: &mut VecDeque<RunRecord>,
    history_limit: usize,
    run: CoordinatedCompletedRun,
    r: PendingCompletion,
)
    requires
        call_ensures(begin_completion, (state, history, history_limit, run), r),
    ensures
        r.record == run.completed.record,
        r.trigger_count == run.completed.trigger_count,
        r.lease == run.lease,
        r.completion.last_run_at == run.completed.record.finished_at,
        run.completed.record.status == RunStatus::Success ==> r.completion.last_success_at == Some(
            run.completed.record.finished_at,
        ) && final(state).last_success_at == Some(run.completed.record.finished_at) && final(
            state
        ).last_error is None,
        run.completed.record.status == RunStatus::Failed ==> r.completion.last_success_at is None
            && final(state).last_success_at == old(state).last_success_at && final(
            state
        ).last_error == run.completed.record.error,
        r.completion.last_error == run.completed.record.error,
        final(state).last_run_at == Some(run.completed.record.started_at),
        final(state).next_run_at == old(state).next_run_at,
        final(state).trigger_count == old(state).trigger_count,
        final(state).job_id == old(state).job_id,
        history_limit > 0 ==> 0 < final(history)@.len() <= history_limit && final(
            history
        )@.last() == run.completed.record,
{
}

/// Once the store answered, the version goes up and the end of the run is told
/// last, after the release of its lease where the claim was still there. An
/// unreachable store is told nothing of, and any other error is handed on.
pub proof fn law_call_finish_completion(
    runtime: &mut CoordinatedRuntimeState,
    pending: &PendingCompletion,
    reply: Result<bool, SchedulerError>,
    r: Result<Vec<SchedulerEvent>, SchedulerError>,
)
    requires
        call_ensures(finish_completion, (runtime, pending, reply), r),
        reply is Ok ==> old(runtime).revision < u64::MAX,
    ensures
        final(runtime).state == old(runtime).state,
        final(runtime).paused == old(runtime).paused,
        reply is Ok ==> final(runtime).revision == old(runtime).revision + 1,
        reply is Err ==> final(runtime).revision == old(runtime).revision,
        reply matches Ok(saved) ==> {
            &&& r matches Ok(events)
            &&& events@.len() == (if saved {
                2nat
            } else {
                1
            })
            &&& events@.last() == (SchedulerEvent::RunCompleted {
                job_id: old(runtime).state.job_id,
                scheduled_at: pending.record.scheduled_at,
                catch_up: pending.record.catch_up,
                trigger_count: pending.trigger_count,
                status: pending.record.status,
                error: pending.record.error,
            })
            &&& saved ==> events@[0] == (SchedulerEvent::ExecutionGuardReleased {
                job_id: pending.lease.job_id,
                resource_id: pending.lease.resource_id,
                scope: pending.lease.scope,
                lease_key: pending.lease.lease_key,
                scheduled_at: pending.lease.scheduled_at,
                catch_up: pending.record.catch_up,
                trigger_count: pending.trigger_count,
            })
        },
        reply matches Err(SchedulerError::Store(cause)) ==> {
            &&& cause@.0 == crate::error::StoreErrorKind::Connection ==> r is Ok
                && r->Ok_0@.len() == 0
            &&& cause@.0 != crate::error::StoreErrorKind::Connection ==> r == Err::<
                Vec<SchedulerEvent>,
                SchedulerError,
            >(reply->Err_0)
        },
        reply is Err && !(reply->Err_0 is Store) ==> r == Err::<Vec<SchedulerEvent>, SchedulerError>(
            reply->Err_0,
        ),
{
}

} // verus!
