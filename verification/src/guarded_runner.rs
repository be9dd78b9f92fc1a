//! Running something once under a lease.
use vstd::prelude::*;
use crate::execution_guard::{ExecutionGuardAcquire, ExecutionLease, ExecutionSlot};
use crate::observer::SchedulerEvent;
use crate::scheduler::runtime_events::execution_guard_acquired;

verus! {

/// How a guarded run ended: with its result, or not begun because the slot was
/// taken.
#[derive(Debug, Clone, PartialEq, Eq)]
pub enum GuardedRunResult<T> {
    Completed(T),
    Contended,
}

/// What follows from asking for a slot: the lease, if it was given, and what is
/// told about it.
#[derive(Debug)]
pub struct Admission {
    pub lease: Option<ExecutionLease>,
    pub event: SchedulerEvent,
}

/// Whether a run may begin, by what a guard answered. Only a lease admits it.
pub fn answer_request(
    slot: ExecutionSlot,
    catch_up: bool,
    trigger_count: u32,
    acquired: ExecutionGuardAcquire,
) -> (r: Admission)
    ensures
        match acquired {
            ExecutionGuardAcquire::Acquired(lease) => {
                &&& r.lease == Some(lease)
                &&& r.event == (SchedulerEvent::ExecutionGuardAcquired {
                    job_id: lease.job_id,
                    resource_id: lease.resource_id,
                    scope: lease.scope,
                    lease_key: lease.lease_key,
                    scheduled_at: lease.scheduled_at,
                    catch_up,
                    trigger_count,
                })
            },
            ExecutionGuardAcquire::Contended => {
                &&& r.lease is None
                &&& r.event == (SchedulerEvent::ExecutionGuardContended {
                    job_id: slot.job_id,
                    resource_id: slot.resource_id,
                    scope: slot.scope,
                    scheduled_at: slot.scheduled_at,
                    catch_up,
                    trigger_count,
                })
            },
        },
{
    match acquired {
        ExecutionGuardAcquire::Acquired(lease) => {
            let event = execution_guard_acquired(&lease, catch_up, trigger_count);
            Admission { lease: Some(lease), event }
        },
        ExecutionGuardAcquire::Contended => Admission {
            lease: None,
            event: SchedulerEvent::ExecutionGuardContended {
                job_id: slot.job_id,
                resource_id: slot.resource_id,
                scope: slot.scope,
                scheduled_at: slot.scheduled_at,
                catch_up,
                trigger_count,
            },
        },
    }
}

} // verus!
