//! The events that tell about states, triggers, leases and runs.
use vstd::prelude::*;
use crate::execution_guard::ExecutionLease;
use crate::model::schedule::clone_text;
use crate::model::state::{JobState, RunRecord};
use crate::observer::{SchedulerEvent, StateLoadSource};
use crate::store::StoreEvent;
use crate::time::UtcTime;

verus! {

/// Tells that a state was loaded.
pub fn state_loaded(
    job_id: &String,
    state: &JobState,
    source: StateLoadSource,
) -> (r: SchedulerEvent)
    ensures
        r == (SchedulerEvent::StateLoaded {
            job_id: *job_id,
            trigger_count: state.trigger_count,
            next_run_at: state.next_run_at,
            source,
        }),
{
    SchedulerEvent::StateLoaded {
        job_id: job_id.clone(),
        trigger_count: state.trigger_count,
        next_run_at: state.next_run_at,
        source,
    }
}

/// Tells that a state had no next run although the job is not finished.
pub fn state_repaired(
    job_id: &String,
    state: &JobState,
    previous_next_run_at: Option<UtcTime>,
) -> (r: SchedulerEvent)
    ensures
        r == (SchedulerEvent::StateRepaired {
            job_id: *job_id,
            trigger_count: state.trigger_count,
            previous_next_run_at,
            repaired_next_run_at: state.next_run_at,
        }),
{
    SchedulerEvent::StateRepaired {
        job_id: job_id.clone(),
        trigger_count: state.trigger_count,
        previous_next_run_at,
        repaired_next_run_at: state.next_run_at,
    }
}

pub fn trigger_emitted(
    job_id: &String,
    scheduled_at: UtcTime,
    catch_up: bool,
    trigger_count: u32,
) -> (r: SchedulerEvent)
    ensures
        r == (SchedulerEvent::TriggerEmitted {
            job_id: *job_id,
            scheduled_at,
            catch_up,
            trigger_count,
        }),
{
    SchedulerEvent::TriggerEmitted { job_id: job_id.clone(), scheduled_at, catch_up, trigger_count }
}

pub fn execution_guard_acquired(
    lease: &ExecutionLease,
    catch_up: bool,
    trigger_count: u32,
) -> (r: SchedulerEvent)
    ensures
        r == (SchedulerEvent::ExecutionGuardAcquired {
            job_id: lease.job_id,
            resource_id: lease.resource_id,
            scope: lease.scope,
            lease_key: lease.lease_key,
            scheduled_at: lease.scheduled_at,
            catch_up,
            trigger_count,
        }),
{
    SchedulerEvent::ExecutionGuardAcquired {
        job_id: lease.job_id.clone(),
        resource_id: lease.resource_id.clone(),
        scope: lease.scope,
        lease_key: lease.lease_key.clone(),
        scheduled_at: lease.scheduled_at,
        catch_up,
        trigger_count,
    }
}

pub fn execution_guard_released(
    lease: &ExecutionLease,
    catch_up: bool,
    trigger_count: u32,
) -> (r: SchedulerEvent)
    ensures
        r == (SchedulerEvent::ExecutionGuardReleased {
            job_id: lease.job_id,
            resource_id: lease.resource_id,
            scope: lease.scope,
            lease_key: lease.lease_key,
            scheduled_at: lease.scheduled_at,
            catch_up,
            trigger_count,
        }),
{
    SchedulerEvent::ExecutionGuardReleased {
        job_id: lease.job_id.clone(),
        resource_id: lease.resource_id.clone(),
        scope: lease.scope,
        lease_key: lease.lease_key.clone(),
        scheduled_at: lease.scheduled_at,
        catch_up,
        trigger_count,
    }
}

/// Tells how the release of a lease ended: that it was released, or the text
/// of the error.
pub fn release_outcome(
    job_id: &String,
    lease: &ExecutionLease,
    catch_up: bool,
    trigger_count: u32,
    error: Option<String>,
) -> (r: SchedulerEvent)
    ensures
        r == match error {
            None => SchedulerEvent::ExecutionGuardReleased {
                job_id: lease.job_id,
                resource_id: lease.resource_id,
                scope: lease.scope,
                lease_key: lease.lease_key,
                scheduled_at: lease.scheduled_at,
                catch_up,
                trigger_count,
            },
            Some(text) => SchedulerEvent::ExecutionGuardReleaseFailed {
                job_id: *job_id,
                resource_id: lease.resource_id,
                scope: lease.scope,
                lease_key: lease.lease_key,
                scheduled_at: lease.scheduled_at,
                catch_up,
                trigger_count,
                error: text,
            },
        },
{
    match error {
        None => execution_guard_released(lease, catch_up, trigger_count),
        Some(text) => SchedulerEvent::ExecutionGuardReleaseFailed {
            job_id: job_id.clone(),
            resource_id: lease.resource_id.clone(),
            scope: lease.scope,
            lease_key: lease.lease_key.clone(),
            scheduled_at: lease.scheduled_at,
            catch_up,
            trigger_count,
            error: text,
        },
    }
}

pub fn run_completed(job_id: &String, record: &RunRecord, trigger_count: u32) -> (r: SchedulerEvent)
    ensures
        r == (SchedulerEvent::RunCompleted {
            job_id: *job_id,
            scheduled_at: record.scheduled_at,
            catch_up: record.catch_up,
            trigger_count,
            status: record.status,
            error: record.error,
        }),
{
    SchedulerEvent::RunCompleted {
        job_id: job_id.clone(),
        scheduled_at: record.scheduled_at,
        catch_up: record.catch_up,
        trigger_count,
        status: record.status,
        error: clone_text(&record.error),
    }
}

/// What a scheduler tells for an event of its store. A conflict names the job
/// that it is about; everything else concerns the job that is being run.
pub open spec fn told_of_store(job_id: String, event: StoreEvent) -> SchedulerEvent {
    match event {
        StoreEvent::Degraded { operation, error } => SchedulerEvent::StoreDegraded {
            job_id,
            operation,
            error,
        },
        StoreEvent::Recovering { operation } => SchedulerEvent::StoreRecovering {
            job_id,
            operation,
        },
        StoreEvent::Recovered { operation } => SchedulerEvent::StoreRecovered { job_id, operation },
        StoreEvent::RecoveryFailed { operation, error } => SchedulerEvent::StoreRecoveryFailed {
            job_id,
            operation,
            error,
        },
        StoreEvent::RecoveryConflict {
            operation,
            job_id: other,
            error,
        } => SchedulerEvent::StoreRecoveryConflict { job_id: other, operation, error },
    }
}

/// What a scheduler tells for the events of its store, in their order.
pub fn store_events_for(job_id: &String, events: Vec<StoreEvent>) -> (r: Vec<SchedulerEvent>)
    ensures
        r@ == events@.map_values(|event: StoreEvent| told_of_store(*job_id, event)),
{
    let ghost all = events@;
    let mut rest = events;
    let mut told: Vec<SchedulerEvent> = Vec::new();
    while rest.len() > 0
        invariant
            told@.len() + rest@.len() == all.len(),
            rest@ == all.skip(told@.len() as int),
            forall|i: int|
                0 <= i < told@.len() ==> #[trigger] told@[i] == told_of_store(*job_id, all[i]),
        decreases rest@.len(),
    {
        let ghost place = told@.len() as int;
        let event = rest.remove(0);
        assert(event == all[place]);
        assert(rest@ =~= all.skip(place + 1));
        told.push(store_event_for(job_id, event));
    }
    assert(told@ =~= all.map_values(|event: StoreEvent| told_of_store(*job_id, event)));
    told
}

/// What a scheduler tells for an event of its store.
pub fn store_event_for(job_id: &String, event: StoreEvent) -> (r: SchedulerEvent)
    ensures
        r == told_of_store(*job_id, event),
{
    match event {
        StoreEvent::Degraded { operation, error } => SchedulerEvent::StoreDegraded {
            job_id: job_id.clone(),
            operation,
            error,
        },
        StoreEvent::Recovering { operation } => SchedulerEvent::StoreRecovering {
            job_id: job_id.clone(),
            operation,
        },
        StoreEvent::Recovered { operation } => SchedulerEvent::StoreRecovered {
            job_id: job_id.clone(),
            operation,
        },
        StoreEvent::RecoveryFailed { operation, error } => SchedulerEvent::StoreRecoveryFailed {
            job_id: job_id.clone(),
            operation,
            error,
        },
        StoreEvent::RecoveryConflict {
            operation,
            job_id: other,
            error,
        } => SchedulerEvent::StoreRecoveryConflict { job_id: other, operation, error },
    }
}

/// As many events are told as the store has, in their order. Each is told for
/// the job that is run, but a conflict for the job that it names.
pub proof fn law_call_store_events(
    job_id: &String,
    events: Vec<StoreEvent>,
    r: Vec<SchedulerEvent>,
    place: int,
)
    requires
        call_ensures(store_events_for, (job_id, events), r),
        0 <= place < events@.len(),
    ensures
        r@.len() == events@.len(),
        events@[place] matches StoreEvent::Degraded { operation, error } ==> r@[place] == (
        SchedulerEvent::StoreDegraded { job_id: *job_id, operation, error }),
        events@[place] matches StoreEvent::Recovering { operation } ==> r@[place] == (
        SchedulerEvent::StoreRecovering { job_id: *job_id, operation }),
        events@[place] matches StoreEvent::Recovered { operation } ==> r@[place] == (
        SchedulerEvent::StoreRecovered { job_id: *job_id, operation }),
        events@[place] matches StoreEvent::RecoveryFailed { operation, error } ==> r@[place] == (
        SchedulerEvent::StoreRecoveryFailed { job_id: *job_id, operation, error }),
        events@[place] matches StoreEvent::RecoveryConflict {
            operation,
            job_id: other,
            error,
        } ==> r@[place] == (SchedulerEvent::StoreRecoveryConflict {
            job_id: other,
            operation,
            error,
        }),
{
}

} // verus!
