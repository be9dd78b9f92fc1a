//! State that several schedulers share, and the claims that they make on it.
use vstd::prelude::*;
use crate::execution_guard::{ExecutionGuardRenewal, ExecutionGuardScope, ExecutionLease};
use crate::model::job::TriggerSource;
use crate::model::schedule::clone_text;
use crate::model::state::{JobState, RunRecord, RunStatus};
use crate::scheduler::trigger::PendingTrigger;
use crate::time::{Duration, UtcTime};

verus! {

/// How long a claim lasts, and how often it is renewed.
#[derive(Debug, Clone, Copy, PartialEq, Eq)]
pub struct CoordinatedLeaseConfig {
    pub ttl: Duration,
    pub renew_interval: Duration,
}

/// What is wrong with a lease of a length `ttl` that is renewed every
/// `renew_interval`; `None` is a valid one.
pub open spec fn lease_config_error(ttl: int, renew_interval: int) -> Option<Seq<char>> {
    if ttl == 0 {
        Some("coordinated lease ttl must be greater than zero"@)
    } else if renew_interval == 0 {
        Some("coordinated lease renew_interval must be greater than zero"@)
    } else if renew_interval >= ttl {
        Some("coordinated lease renew_interval must be less than ttl"@)
    } else {
        None
    }
}

impl CoordinatedLeaseConfig {
    /// Rejects spans of length zero, and a lease that ends before it is
    /// renewed.
    pub fn validate(self) -> (r: Result<Self, &'static str>)
        ensures
            match r {
                Ok(config) => config == self && lease_config_error(
                    self.ttl@,
                    self.renew_interval@,
                ) is None,
                Err(message) => lease_config_error(self.ttl@, self.renew_interval@) == Some(
                    message@,
                ),
            },
    {
        if self.ttl.is_zero() {
            return Err("coordinated lease ttl must be greater than zero");
        }
        if self.renew_interval.is_zero() {
            return Err("coordinated lease renew_interval must be greater than zero");
        }
        if !self.renew_interval.shorter_than(&self.ttl) {
            return Err("coordinated lease renew_interval must be less than ttl");
        }
        Ok(self)
    }
}

/// A valid lease is renewed before it ends.
pub proof fn law_valid_lease_is_renewed_in_time(ttl: int, renew_interval: int)
    requires
        lease_config_error(ttl, renew_interval) is None,
        ttl >= 0,
        renew_interval >= 0,
    ensures
        0 < renew_interval < ttl,
{
}

/// The shared state of a job, the number of its version, and whether the job
/// is paused.
#[derive(Debug, PartialEq, Eq)]
pub struct CoordinatedRuntimeState {
    pub state: JobState,
    pub revision: u64,
    pub paused: bool,
}

impl Clone for CoordinatedRuntimeState {
    fn clone(&self) -> (r: Self)
        ensures
            r == *self,
    {
        CoordinatedRuntimeState {
            state: self.state.clone(),
            revision: self.revision,
            paused: self.paused,
        }
    }
}

/// A trigger that is to be claimed.
#[derive(Debug, Clone, Copy, PartialEq, Eq)]
pub struct CoordinatedPendingTrigger {
    pub scheduled_at: UtcTime,
    pub catch_up: bool,
    pub trigger_count: u32,
    pub source: TriggerSource,
}

impl CoordinatedPendingTrigger {
    pub fn of_trigger(trigger: PendingTrigger) -> (r: Self)
        ensures
            r == (CoordinatedPendingTrigger {
                scheduled_at: trigger.scheduled_at,
                catch_up: trigger.catch_up,
                trigger_count: trigger.trigger_count,
                source: trigger.source,
            }),
    {
        CoordinatedPendingTrigger {
            scheduled_at: trigger.scheduled_at,
            catch_up: trigger.catch_up,
            trigger_count: trigger.trigger_count,
            source: trigger.source,
        }
    }

    pub fn to_trigger(self) -> (r: PendingTrigger)
        ensures
            r == (PendingTrigger {
                scheduled_at: self.scheduled_at,
                catch_up: self.catch_up,
                trigger_count: self.trigger_count,
                source: self.source,
            }),
    {
        PendingTrigger {
            scheduled_at: self.scheduled_at,
            catch_up: self.catch_up,
            trigger_count: self.trigger_count,
            source: self.source,
        }
    }
}

/// A trigger that was claimed. A claim is replayed where another scheduler
/// left it behind.
#[derive(Debug, PartialEq, Eq)]
pub struct CoordinatedClaim {
    pub state: CoordinatedRuntimeState,
    pub trigger: CoordinatedPendingTrigger,
    pub lease: ExecutionLease,
    pub replayed: bool,
}

impl Clone for CoordinatedClaim {
    fn clone(&self) -> (r: Self)
        ensures
            r == *self,
    {
        CoordinatedClaim {
            state: self.state.clone(),
            trigger: self.trigger,
            lease: self.lease.clone(),
            replayed: self.replayed,
        }
    }
}

/// What a run leaves in the shared state.
#[derive(Debug, Clone, PartialEq, Eq)]
pub struct CoordinatedCompletion {
    pub last_run_at: UtcTime,
    pub last_success_at: Option<UtcTime>,
    pub last_error: Option<String>,
}

impl CoordinatedCompletion {
    /// What a run leaves in the shared state: when it ended, and how.
    pub fn of_record(record: &RunRecord) -> (r: Self)
        ensures
            r == (CoordinatedCompletion {
                last_run_at: record.finished_at,
                last_success_at: if record.status == RunStatus::Success {
                    Some(record.finished_at)
                } else {
                    None
                },
                last_error: record.error,
            }),
    {
        let last_success_at = if record.status == RunStatus::Success {
            Some(record.finished_at)
        } else {
            None
        };
        CoordinatedCompletion {
            last_run_at: record.finished_at,
            last_success_at,
            last_error: clone_text(&record.error),
        }
    }
}

/// A shared store that shares nothing: it accepts every write and never gives
/// a claim.
#[derive(Debug, Clone, Copy)]
pub struct NoopCoordinatedStateStore;

impl Default for NoopCoordinatedStateStore {
    fn default() -> (r: Self)
        ensures
            r == NoopCoordinatedStateStore,
    {
        NoopCoordinatedStateStore
    }
}

impl NoopCoordinatedStateStore {
    /// The state that is given, at its first version and not paused.
    pub fn load_or_initialize(&self, initial_state: JobState) -> (r: CoordinatedRuntimeState)
        ensures
            r == (CoordinatedRuntimeState { state: initial_state, revision: 0, paused: false }),
    {
        CoordinatedRuntimeState { state: initial_state, revision: 0, paused: false }
    }

    pub fn save_state(&self, _revision: u64, _state: &JobState) -> (r: bool)
        ensures
            r,
    {
        true
    }

    pub fn reclaim_inflight(&self) -> (r: Option<CoordinatedClaim>)
        ensures
            r is None,
    {
        None
    }

    pub fn claim_trigger(
        &self,
        _trigger: CoordinatedPendingTrigger,
        _scope: ExecutionGuardScope,
    ) -> (r: Option<CoordinatedClaim>)
        ensures
            r is None,
    {
        None
    }

    pub fn renew(&self, _lease: &ExecutionLease) -> (r: ExecutionGuardRenewal)
        ensures
            r == ExecutionGuardRenewal::Lost,
    {
        ExecutionGuardRenewal::Lost
    }

    pub fn complete(&self, _lease: &ExecutionLease, _completion: CoordinatedCompletion) -> (r: bool)
        ensures
            r,
    {
        true
    }

    pub fn pause(&self) -> (r: bool)
        ensures
            !r,
    {
        false
    }

    pub fn resume(&self) -> (r: bool)
        ensures
            !r,
    {
        false
    }
}

/// A lease holds exactly where it is renewed before it ends; the first thing
/// that is wrong is told.
pub proof fn law_call_validate(
    config: CoordinatedLeaseConfig,
    r: Result<CoordinatedLeaseConfig, &'static str>,
)
    requires
        call_ensures(CoordinatedLeaseConfig::validate, (config,), r),
        config.ttl@ >= 0,
        config.renew_interval@ >= 0,
    ensures
        r is Ok <==> 0 < config.renew_interval@ < config.ttl@,
        r is Ok ==> r->Ok_0 == config,
        config.ttl@ == 0 ==> r->Err_0@ == "coordinated lease ttl must be greater than zero"@,
        config.ttl@ > 0 && config.renew_interval@ == 0 ==> r->Err_0@
            == "coordinated lease renew_interval must be greater than zero"@,
        config.renew_interval@ >= config.ttl@ > 0 ==> r->Err_0@
            == "coordinated lease renew_interval must be less than ttl"@,
{
}

/// A trigger comes back from a claim as it went into it.
pub proof fn law_call_trigger_round_trip(
    trigger: PendingTrigger,
    claimed: CoordinatedPendingTrigger,
    back: PendingTrigger,
)
    requires
        call_ensures(CoordinatedPendingTrigger::of_trigger, (trigger,), claimed),
        call_ensures(CoordinatedPendingTrigger::to_trigger, (claimed,), back),
    ensures
        back == trigger,
        claimed.scheduled_at == trigger.scheduled_at,
        claimed.trigger_count == trigger.trigger_count,
{
}

/// What a run leaves in the shared state: its end, whether it succeeded, and its
/// error.
pub proof fn law_call_completion(record: &RunRecord, r: CoordinatedCompletion)
    requires
        call_ensures(CoordinatedCompletion::of_record, (record,), r),
    ensures
        r.last_run_at == record.finished_at,
        record.status == RunStatus::Success ==> r.last_success_at == Some(record.finished_at),
        record.status == RunStatus::Failed ==> r.last_success_at is None,
        r.last_error == record.error,
{
}

} // verus!
