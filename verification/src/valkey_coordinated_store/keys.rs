//! The keys and the fields of the shared state.
use vstd::prelude::*;
use crate::execution_guard::ExecutionGuardScope;
use crate::model::job::TriggerSource;
use crate::text::{join2, join3, same_text};
use crate::time::UtcTime;
use crate::valkey_execution_support::{
    self, occurrence_index_key, occurrence_lease_key, resource_lock_key,
};

verus! {

pub const DEFAULT_STATE_KEY_PREFIX: &'static str = "scheduler:valkey:job-state:";

pub const LEGACY_DEFAULT_STATE_KEY_PREFIX: &'static str = "scheduler:job-state:";

pub const DEFAULT_EXECUTION_KEY_PREFIX: &'static str = "scheduler:valkey:execution-lease:";

pub const FIELD_VERSION: &'static str = "version";

pub const FIELD_STATE: &'static str = "state";

pub const FIELD_PAUSED: &'static str = "paused";

pub const FIELD_INFLIGHT_SCHEDULED_AT: &'static str = "inflight_scheduled_at";

pub const FIELD_INFLIGHT_CATCH_UP: &'static str = "inflight_catch_up";

pub const FIELD_INFLIGHT_TRIGGER_COUNT: &'static str = "inflight_trigger_count";

pub const FIELD_INFLIGHT_SOURCE: &'static str = "inflight_source";

pub const FIELD_INFLIGHT_RESOURCE_ID: &'static str = "inflight_resource_id";

pub const FIELD_INFLIGHT_SCOPE: &'static str = "inflight_scope";

pub const FIELD_INFLIGHT_TOKEN: &'static str = "inflight_token";

pub const FIELD_INFLIGHT_LEASE_KEY: &'static str = "inflight_lease_key";

pub const FIELD_INFLIGHT_LEASE_EXPIRES_AT: &'static str = "inflight_lease_expires_at";

/// What [`CoordinatedKeys`] say.
pub struct KeysView {
    pub state: Seq<char>,
    pub execution: Seq<char>,
}

impl KeysView {
    /// The key of the shared state of a job.
    pub open spec fn state_key(self, job_id: Seq<char>) -> Seq<char> {
        self.state + job_id
    }

    /// The key that the state of a job once had, where the prefix is the one
    /// that states have by default.
    pub open spec fn legacy_key(self, job_id: Seq<char>) -> Option<Seq<char>> {
        if self.state == DEFAULT_STATE_KEY_PREFIX@ {
            Some(LEGACY_DEFAULT_STATE_KEY_PREFIX@ + job_id)
        } else {
            None
        }
    }

    /// The key of the index of the claims of a job.
    pub open spec fn inflight_key(self, job_id: Seq<char>) -> Seq<char> {
        self.state + job_id + ":inflight"@
    }

    /// The key of the lock of a resource.
    pub open spec fn resource_key(self, resource_id: Seq<char>) -> Seq<char> {
        valkey_execution_support::resource_key(self.execution, resource_id)
    }

    /// The key of the index of the occurrences on a resource.
    pub open spec fn occurrences_key(self, resource_id: Seq<char>) -> Seq<char> {
        valkey_execution_support::occurrences_key(self.execution, resource_id)
    }

    /// The key of the lease of one occurrence on a resource.
    pub open spec fn occurrence_key(self, resource_id: Seq<char>, scheduled_at: int) -> Seq<char> {
        valkey_execution_support::occurrence_key(self.execution, resource_id, scheduled_at)
    }
}

/// The prefixes of the keys of the shared state and of the leases.
#[derive(Debug)]
pub struct CoordinatedKeys {
    pub state_key_prefix: String,
    pub execution_key_prefix: String,
}

impl View for CoordinatedKeys {
    type V = KeysView;

    open spec fn view(&self) -> KeysView {
        KeysView { state: self.state_key_prefix@, execution: self.execution_key_prefix@ }
    }
}

impl CoordinatedKeys {
    pub fn new(state_key_prefix: &str, execution_key_prefix: &str) -> (r: Self)
        ensures
            r@ == (KeysView { state: state_key_prefix@, execution: execution_key_prefix@ }),
    {
        CoordinatedKeys {
            state_key_prefix: state_key_prefix.to_owned(),
            execution_key_prefix: execution_key_prefix.to_owned(),
        }
    }

    pub fn state_key(&self, job_id: &str) -> (r: String)
        ensures
            r@ == self@.state_key(job_id@),
    {
        join2(self.state_key_prefix.as_str(), job_id)
    }

    pub fn legacy_state_key(&self, job_id: &str) -> (r: Option<String>)
        ensures
            match r {
                Some(key) => self@.legacy_key(job_id@) == Some(key@),
                None => self@.legacy_key(job_id@) is None,
            },
    {
        if same_text(self.state_key_prefix.as_str(), DEFAULT_STATE_KEY_PREFIX) {
            Some(join2(LEGACY_DEFAULT_STATE_KEY_PREFIX, job_id))
        } else {
            None
        }
    }

    pub fn resource_lock_key(&self, resource_id: &str) -> (r: String)
        ensures
            r@ == self@.resource_key(resource_id@),
    {
        resource_lock_key(self.execution_key_prefix.as_str(), resource_id)
    }

    pub fn occurrence_index_key(&self, resource_id: &str) -> (r: String)
        ensures
            r@ == self@.occurrences_key(resource_id@),
    {
        occurrence_index_key(self.execution_key_prefix.as_str(), resource_id)
    }

    pub fn occurrence_lease_key(&self, resource_id: &str, scheduled_at: UtcTime) -> (r: String)
        ensures
            r@ == self@.occurrence_key(resource_id@, scheduled_at@),
    {
        occurrence_lease_key(self.execution_key_prefix.as_str(), resource_id, scheduled_at)
    }

    pub fn inflight_index_key(&self, job_id: &str) -> (r: String)
        ensures
            r@ == self@.inflight_key(job_id@),
    {
        join3(self.state_key_prefix.as_str(), job_id, ":inflight")
    }
}

/// The name of a scope.
pub open spec fn scope_name(scope: ExecutionGuardScope) -> Seq<char> {
    match scope {
        ExecutionGuardScope::Occurrence => "occurrence"@,
        ExecutionGuardScope::Resource => "resource"@,
    }
}

/// The scope of a name; a name that is not known is taken for an occurrence.
pub open spec fn named_scope(raw: Seq<char>) -> ExecutionGuardScope {
    if raw == "resource"@ {
        ExecutionGuardScope::Resource
    } else {
        ExecutionGuardScope::Occurrence
    }
}

/// The name of the source of a trigger.
pub open spec fn source_name(source: TriggerSource) -> Seq<char> {
    match source {
        TriggerSource::Scheduled => "scheduled"@,
        TriggerSource::Manual => "manual"@,
    }
}

/// The source of a name; a name that is not known is taken for the schedule.
pub open spec fn named_source(raw: Seq<char>) -> TriggerSource {
    if raw == "manual"@ {
        TriggerSource::Manual
    } else {
        TriggerSource::Scheduled
    }
}

pub fn parse_scope(raw: &str) -> (r: ExecutionGuardScope)
    ensures
        r == named_scope(raw@),
{
    if same_text(raw, "resource") {
        ExecutionGuardScope::Resource
    } else {
        ExecutionGuardScope::Occurrence
    }
}

pub fn scope_to_str(scope: ExecutionGuardScope) -> (r: &'static str)
    ensures
        r@ == scope_name(scope),
{
    match scope {
        ExecutionGuardScope::Occurrence => "occurrence",
        ExecutionGuardScope::Resource => "resource",
    }
}

pub fn parse_trigger_source(raw: &str) -> (r: TriggerSource)
    ensures
        r == named_source(raw@),
{
    if same_text(raw, "manual") {
        TriggerSource::Manual
    } else {
        TriggerSource::Scheduled
    }
}

pub fn trigger_source_to_str(source: TriggerSource) -> (r: &'static str)
    ensures
        r@ == source_name(source),
{
    match source {
        TriggerSource::Scheduled => "scheduled",
        TriggerSource::Manual => "manual",
    }
}

/// Every scope is read back from its name.
pub proof fn law_scope_reads_back(scope: ExecutionGuardScope)
    ensures
        named_scope(scope_name(scope)) == scope,
{
    reveal_strlit("occurrence");
    reveal_strlit("resource");
    if scope == ExecutionGuardScope::Occurrence {
        assert("occurrence"@.len() != "resource"@.len());
    }
}

/// Every source of a trigger is read back from its name.
pub proof fn law_source_reads_back(source: TriggerSource)
    ensures
        named_source(source_name(source)) == source,
{
    reveal_strlit("scheduled");
    reveal_strlit("manual");
    if source == TriggerSource::Scheduled {
        assert("scheduled"@.len() != "manual"@.len());
    }
}

/// The keys of a job and of a resource: everything of a job is under the prefix
/// of states, and everything of a resource under that of leases.
pub proof fn law_call_keys(
    keys: &CoordinatedKeys,
    job_id: &str,
    resource_id: &str,
    scheduled_at: UtcTime,
    state: String,
    inflight: String,
    lock: String,
    index: String,
    occurrence: String,
)
    requires
        call_ensures(CoordinatedKeys::state_key, (keys, job_id), state),
        call_ensures(CoordinatedKeys::inflight_index_key, (keys, job_id), inflight),
        call_ensures(CoordinatedKeys::resource_lock_key, (keys, resource_id), lock),
        call_ensures(CoordinatedKeys::occurrence_index_key, (keys, resource_id), index),
        call_ensures(
            CoordinatedKeys::occurrence_lease_key,
            (keys, resource_id, scheduled_at),
            occurrence,
        ),
    ensures
        state@ == keys.state_key_prefix@ + job_id@,
        inflight@ == keys.state_key_prefix@ + job_id@ + ":inflight"@,
        lock@ == keys.execution_key_prefix@ + resource_id@ + ":resource"@,
        index@ == keys.execution_key_prefix@ + resource_id@ + ":occurrences"@,
        occurrence@ == keys.execution_key_prefix@ + resource_id@ + ":occurrence:"@
            + crate::timestamp::rfc3339(scheduled_at@),
{
}

/// A state once had another key exactly under the prefix that states have by
/// default.
pub proof fn law_call_legacy_key(keys: &CoordinatedKeys, job_id: &str, r: Option<String>)
    requires
        call_ensures(CoordinatedKeys::legacy_state_key, (keys, job_id), r),
    ensures
        r is Some <==> keys.state_key_prefix@ == "scheduler:valkey:job-state:"@,
        r is Some ==> r->0@ == "scheduler:job-state:"@ + job_id@,
{
}

/// The names under which schedulers share a state.
pub proof fn law_names()
    ensures
        DEFAULT_STATE_KEY_PREFIX@ == "scheduler:valkey:job-state:"@,
        LEGACY_DEFAULT_STATE_KEY_PREFIX@ == "scheduler:job-state:"@,
        DEFAULT_EXECUTION_KEY_PREFIX@ == "scheduler:valkey:execution-lease:"@,
        FIELD_VERSION@ == "version"@,
        FIELD_STATE@ == "state"@,
        FIELD_PAUSED@ == "paused"@,
        FIELD_INFLIGHT_SCHEDULED_AT@ == "inflight_scheduled_at"@,
        FIELD_INFLIGHT_CATCH_UP@ == "inflight_catch_up"@,
        FIELD_INFLIGHT_TRIGGER_COUNT@ == "inflight_trigger_count"@,
        FIELD_INFLIGHT_SOURCE@ == "inflight_source"@,
        FIELD_INFLIGHT_RESOURCE_ID@ == "inflight_resource_id"@,
        FIELD_INFLIGHT_SCOPE@ == "inflight_scope"@,
        FIELD_INFLIGHT_TOKEN@ == "inflight_token"@,
        FIELD_INFLIGHT_LEASE_KEY@ == "inflight_lease_key"@,
        FIELD_INFLIGHT_LEASE_EXPIRES_AT@ == "inflight_lease_expires_at"@,
{
}

/// Only the name of a resource is read as one, and only the name of a trigger by
/// hand as that; whatever else is read as an occurrence of the schedule.
pub proof fn law_call_names_read(raw: &str, scope: ExecutionGuardScope, source: TriggerSource)
    requires
        call_ensures(parse_scope, (raw,), scope),
        call_ensures(parse_trigger_source, (raw,), source),
    ensures
        scope == ExecutionGuardScope::Resource <==> raw@ == "resource"@,
        source == TriggerSource::Manual <==> raw@ == "manual"@,
{
}

/// The names of scopes and sources.
pub proof fn law_call_names_written(
    scope: ExecutionGuardScope,
    source: TriggerSource,
    scope_text: &'static str,
    source_text: &'static str,
)
    requires
        call_ensures(scope_to_str, (scope,), scope_text),
        call_ensures(trigger_source_to_str, (source,), source_text),
    ensures
        scope == ExecutionGuardScope::Occurrence ==> scope_text@ == "occurrence"@,
        scope == ExecutionGuardScope::Resource ==> scope_text@ == "resource"@,
        source == TriggerSource::Scheduled ==> source_text@ == "scheduled"@,
        source == TriggerSource::Manual ==> source_text@ == "manual"@,
{
}

} // verus!
