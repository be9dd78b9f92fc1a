//! Leases that keep two schedulers from running the same thing at once.
use vstd::prelude::*;
use crate::time::{self, UtcTime};

verus! {

/// What a lease excludes others from: one occurrence of a job, or a resource
/// whatever the occurrence.
#[derive(Debug, Clone, Copy, PartialEq, Eq, Structural)]
pub enum ExecutionGuardScope {
    Occurrence,
    Resource,
}

impl Default for ExecutionGuardScope {
    fn default() -> (r: Self)
        ensures
            r == ExecutionGuardScope::Occurrence,
    {
        ExecutionGuardScope::Occurrence
    }
}

/// What an [`ExecutionSlot`] says; the instant in nanoseconds.
pub struct SlotView {
    pub job_id: Seq<char>,
    pub resource_id: Seq<char>,
    pub scope: ExecutionGuardScope,
    pub scheduled_at: Option<int>,
}

/// What a lease is asked for.
#[derive(Debug, PartialEq, Eq)]
pub struct ExecutionSlot {
    pub job_id: String,
    pub resource_id: String,
    pub scope: ExecutionGuardScope,
    pub scheduled_at: Option<UtcTime>,
}

impl View for ExecutionSlot {
    type V = SlotView;

    open spec fn view(&self) -> SlotView {
        SlotView {
            job_id: self.job_id@,
            resource_id: self.resource_id@,
            scope: self.scope,
            scheduled_at: time::instant_view(self.scheduled_at),
        }
    }
}

impl Clone for ExecutionSlot {
    fn clone(&self) -> (r: Self)
        ensures
            r == *self,
    {
        ExecutionSlot {
            job_id: self.job_id.clone(),
            resource_id: self.resource_id.clone(),
            scope: self.scope,
            scheduled_at: self.scheduled_at,
        }
    }
}

/// The slot of one occurrence.
pub open spec fn occurrence_slot(
    job_id: Seq<char>,
    resource_id: Seq<char>,
    scheduled_at: int,
) -> SlotView {
    SlotView {
        job_id,
        resource_id,
        scope: ExecutionGuardScope::Occurrence,
        scheduled_at: Some(scheduled_at),
    }
}

/// The slot of a resource.
pub open spec fn resource_slot(job_id: Seq<char>, resource_id: Seq<char>) -> SlotView {
    SlotView { job_id, resource_id, scope: ExecutionGuardScope::Resource, scheduled_at: None }
}

impl ExecutionSlot {
    /// The slot of an occurrence of a job that is its own resource.
    pub fn new(job_id: &str, scheduled_at: UtcTime) -> (r: Self)
        ensures
            r@ == occurrence_slot(job_id@, job_id@, scheduled_at@),
    {
        Self::for_occurrence(job_id, job_id, scheduled_at)
    }

    pub fn for_occurrence(job_id: &str, resource_id: &str, scheduled_at: UtcTime) -> (r: Self)
        ensures
            r@ == occurrence_slot(job_id@, resource_id@, scheduled_at@),
    {
        ExecutionSlot {
            job_id: job_id.to_owned(),
            resource_id: resource_id.to_owned(),
            scope: ExecutionGuardScope::Occurrence,
            scheduled_at: Some(scheduled_at),
        }
    }

    pub fn for_resource(job_id: &str, resource_id: &str) -> (r: Self)
        ensures
            r@ == resource_slot(job_id@, resource_id@),
    {
        ExecutionSlot {
            job_id: job_id.to_owned(),
            resource_id: resource_id.to_owned(),
            scope: ExecutionGuardScope::Resource,
            scheduled_at: None,
        }
    }
}

/// What an [`ExecutionLease`] says: the slot that it was given for, its token
/// and its key.
pub struct LeaseView {
    pub slot: SlotView,
    pub token: Seq<char>,
    pub lease_key: Seq<char>,
}

/// A slot that was given.
#[derive(Debug, PartialEq, Eq)]
pub struct ExecutionLease {
    pub job_id: String,
    pub resource_id: String,
    pub scope: ExecutionGuardScope,
    pub scheduled_at: Option<UtcTime>,
    pub token: String,
    pub lease_key: String,
}

impl View for ExecutionLease {
    type V = LeaseView;

    open spec fn view(&self) -> LeaseView {
        LeaseView {
            slot: SlotView {
                job_id: self.job_id@,
                resource_id: self.resource_id@,
                scope: self.scope,
                scheduled_at: time::instant_view(self.scheduled_at),
            },
            token: self.token@,
            lease_key: self.lease_key@,
        }
    }
}

impl Clone for ExecutionLease {
    fn clone(&self) -> (r: Self)
        ensures
            r == *self,
    {
        ExecutionLease {
            job_id: self.job_id.clone(),
            resource_id: self.resource_id.clone(),
            scope: self.scope,
            scheduled_at: self.scheduled_at,
            token: self.token.clone(),
            lease_key: self.lease_key.clone(),
        }
    }
}

impl ExecutionLease {
    pub fn new(
        job_id: &str,
        resource_id: &str,
        scope: ExecutionGuardScope,
        scheduled_at: Option<UtcTime>,
        token: &str,
        lease_key: &str,
    ) -> (r: Self)
        ensures
            r@ == (LeaseView {
                slot: SlotView {
                    job_id: job_id@,
                    resource_id: resource_id@,
                    scope,
                    scheduled_at: time::instant_view(scheduled_at),
                },
                token: token@,
                lease_key: lease_key@,
            }),
    {
        ExecutionLease {
            job_id: job_id.to_owned(),
            resource_id: resource_id.to_owned(),
            scope,
            scheduled_at,
            token: token.to_owned(),
            lease_key: lease_key.to_owned(),
        }
    }

    /// The lease of a slot under a token and a key.
    pub fn for_slot(slot: ExecutionSlot, token: &str, lease_key: &str) -> (r: Self)
        ensures
            r@ == (LeaseView { slot: slot@, token: token@, lease_key: lease_key@ }),
    {
        ExecutionLease {
            job_id: slot.job_id,
            resource_id: slot.resource_id,
            scope: slot.scope,
            scheduled_at: slot.scheduled_at,
            token: token.to_owned(),
            lease_key: lease_key.to_owned(),
        }
    }
}

#[derive(Debug, Clone, PartialEq, Eq)]
pub enum ExecutionGuardAcquire {
    Acquired(ExecutionLease),
    Contended,
}

#[derive(Debug, Clone, Copy, PartialEq, Eq, Structural)]
pub enum ExecutionGuardRenewal {
    Renewed,
    Lost,
}

/// A guard that gives every slot.
#[derive(Debug, Clone, Copy)]
pub struct NoopExecutionGuard;

impl Default for NoopExecutionGuard {
    fn default() -> (r: Self)
        ensures
            r == NoopExecutionGuard,
    {
        NoopExecutionGuard
    }
}

impl NoopExecutionGuard {
    /// Gives the slot, under an empty token and an empty key.
    pub fn acquire(&self, slot: ExecutionSlot) -> (r: ExecutionGuardAcquire)
        ensures
            r matches ExecutionGuardAcquire::Acquired(lease) && lease@ == (LeaseView {
                slot: slot@,
                token: ""@,
                lease_key: ""@,
            }),
    {
        ExecutionGuardAcquire::Acquired(ExecutionLease::for_slot(slot, "", ""))
    }

    /// Renews every lease.
    pub fn renew(&self, _lease: &ExecutionLease) -> (r: ExecutionGuardRenewal)
        ensures
            r == ExecutionGuardRenewal::Renewed,
    {
        ExecutionGuardRenewal::Renewed
    }
}

} // verus!
