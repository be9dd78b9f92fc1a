//! Claiming triggers, and keeping, taking over and completing the claims.
use vstd::prelude::*;
use crate::coordinated_store::{
    CoordinatedClaim, CoordinatedCompletion, CoordinatedPendingTrigger, CoordinatedRuntimeState,
};
use crate::execution_guard::{
    ExecutionGuardScope, ExecutionLease, LeaseView, SlotView,
};
use crate::model::schedule;
use crate::model::state::JobState;
use crate::text::{self, decimal_text, same_text};
use crate::timestamp::{self, to_rfc3339};
use crate::valkey_coordinated_store::codec::{self, number_or, parse_utc_rfc3339};
use crate::valkey_coordinated_store::keys::{
    self, parse_scope, parse_trigger_source, scope_to_str, trigger_source_to_str, CoordinatedKeys,
    KeysView, FIELD_INFLIGHT_CATCH_UP, FIELD_INFLIGHT_LEASE_EXPIRES_AT, FIELD_INFLIGHT_LEASE_KEY,
    FIELD_INFLIGHT_RESOURCE_ID, FIELD_INFLIGHT_SCHEDULED_AT, FIELD_INFLIGHT_SCOPE,
    FIELD_INFLIGHT_SOURCE, FIELD_INFLIGHT_TOKEN, FIELD_INFLIGHT_TRIGGER_COUNT, FIELD_PAUSED,
    FIELD_STATE, FIELD_VERSION,
};
use crate::valkey_coordinated_store::scripts::{
    self, flag_text, CallView, CoordinatedScript, ScriptCall,
};
use crate::valkey_execution_support::expires_at_millis;
use crate::valkey_runtime::ValkeyCommandOutcome;
use crate::valkey_store::ValkeyStoreError;

verus! {

/// The time and the name that a claim is made with.
#[derive(Debug)]
pub struct ClaimTerms {
    /// The token of whoever makes the claim.
    pub token: String,
    /// How long the claim lasts.
    pub ttl_millis: u64,
    pub now_millis: u64,
}

/// When a claim ends, in milliseconds since the Unix epoch, or the greatest
/// number where that does not fit.
pub open spec fn claim_end(terms: ClaimTerms) -> nat {
    if terms.now_millis + terms.ttl_millis <= u64::MAX {
        (terms.now_millis + terms.ttl_millis) as nat
    } else {
        u64::MAX as nat
    }
}

/// The call that takes over a claim that was left behind.
pub open spec fn reclaim_call(
    keys: KeysView,
    job_id: Seq<char>,
    resource_id: Seq<char>,
    terms: ClaimTerms,
) -> CallView {
    CallView {
        script: CoordinatedScript::ReclaimInflight,
        keys: seq![
            keys.state_key(job_id),
            keys.resource_key(resource_id),
            keys.occurrences_key(resource_id),
            keys.inflight_key(job_id),
        ],
        args: seq![
            FIELD_STATE@,
            FIELD_VERSION@,
            FIELD_PAUSED@,
            text::decimal(terms.now_millis as nat),
            terms.token@,
            text::decimal(terms.ttl_millis as nat),
            text::decimal(claim_end(terms)),
            FIELD_INFLIGHT_SCHEDULED_AT@,
            FIELD_INFLIGHT_CATCH_UP@,
            FIELD_INFLIGHT_TRIGGER_COUNT@,
            FIELD_INFLIGHT_SOURCE@,
            FIELD_INFLIGHT_RESOURCE_ID@,
            FIELD_INFLIGHT_SCOPE@,
            FIELD_INFLIGHT_LEASE_KEY@,
            FIELD_INFLIGHT_LEASE_EXPIRES_AT@,
            FIELD_INFLIGHT_TOKEN@,
        ],
    }
}

/// Asks to take over a claim of a job that was left behind.
pub fn reclaim_inflight(
    keys: &CoordinatedKeys,
    job_id: &str,
    resource_id: &str,
    terms: &ClaimTerms,
) -> (r: ScriptCall)
    ensures
        r@ == reclaim_call(keys@, job_id@, resource_id@, *terms),
{
    let end: u64 = expires_at_millis(terms.now_millis, terms.ttl_millis);
    let mut call_keys: Vec<String> = Vec::new();
    call_keys.push(keys.state_key(job_id));
    call_keys.push(keys.resource_lock_key(resource_id));
    call_keys.push(keys.occurrence_index_key(resource_id));
    call_keys.push(keys.inflight_index_key(job_id));
    let mut args: Vec<String> = Vec::new();
    args.push(FIELD_STATE.to_owned());
    args.push(FIELD_VERSION.to_owned());
    args.push(FIELD_PAUSED.to_owned());
    args.push(decimal_text(terms.now_millis as u128));
    args.push(terms.token.clone());
    args.push(decimal_text(terms.ttl_millis as u128));
    args.push(decimal_text(end as u128));
    args.push(FIELD_INFLIGHT_SCHEDULED_AT.to_owned());
    args.push(FIELD_INFLIGHT_CATCH_UP.to_owned());
    args.push(FIELD_INFLIGHT_TRIGGER_COUNT.to_owned());
    args.push(FIELD_INFLIGHT_SOURCE.to_owned());
    args.push(FIELD_INFLIGHT_RESOURCE_ID.to_owned());
    args.push(FIELD_INFLIGHT_SCOPE.to_owned());
    args.push(FIELD_INFLIGHT_LEASE_KEY.to_owned());
    args.push(FIELD_INFLIGHT_LEASE_EXPIRES_AT.to_owned());
    args.push(FIELD_INFLIGHT_TOKEN.to_owned());
    let call = ScriptCall { script: CoordinatedScript::ReclaimInflight, keys: call_keys, args };
    proof {
        let expected = reclaim_call(keys@, job_id@, resource_id@, *terms);
        assert(call@.keys =~= expected.keys);
        assert(call@.args =~= expected.args);
    }
    call
}

/// How many texts describe a claim that was taken over.
pub const CLAIM_VALUE_COUNT: usize = 9;

/// The description of a claim that was taken over; one of another length
/// counts as none.
pub fn complete_values(values: Option<Vec<String>>) -> (r: Option<Vec<String>>)
    ensures
        r == match values {
            Some(list) => if list@.len() == CLAIM_VALUE_COUNT {
                Some(list)
            } else {
                None
            },
            None => None,
        },
{
    match values {
        Some(list) => {
            if list.len() == CLAIM_VALUE_COUNT {
                Some(list)
            } else {
                None
            }
        },
        None => None,
    }
}

/// Whether a claim is what the texts of a script and the state of the job
/// describe: the version, the occurrence, whether it is a catch-up, the number
/// and the source of the trigger, the scope, the key and the token. What is not
/// readable as a number counts as zero, and what is not `true` as not caught
/// up.
pub open spec fn claim_described(
    claim: CoordinatedClaim,
    job_id: Seq<char>,
    resource_id: Seq<char>,
    values: Seq<Seq<char>>,
    state: JobState,
    scheduled_at: int,
    replayed: bool,
) -> bool {
    &&& claim.state.state == state
    &&& claim.state.revision == codec::number_or_zero(Some(values[0]), u64::MAX as nat)
    &&& !claim.state.paused
    &&& claim.trigger.scheduled_at@ == scheduled_at
    &&& claim.trigger.catch_up == (values[3] == "true"@)
    &&& claim.trigger.trigger_count == codec::number_or_zero(Some(values[4]), u32::MAX as nat)
    &&& claim.trigger.source == keys::named_source(values[5])
    &&& claim.lease@ == (LeaseView {
        slot: SlotView {
            job_id,
            resource_id,
            scope: keys::named_scope(values[6]),
            scheduled_at: Some(scheduled_at),
        },
        token: values[8],
        lease_key: values[7],
    })
    &&& claim.replayed == replayed
}

/// The claim that the texts of a script describe, with the state of the job as
/// it was read from the second of them.
pub fn claim_from_script_values(
    job_id: &str,
    resource_id: &str,
    values: &Vec<String>,
    state: JobState,
    replayed: bool,
) -> (r: Result<CoordinatedClaim, ValkeyStoreError>)
    requires
        values@.len() == CLAIM_VALUE_COUNT,
    ensures
        match r {
            Ok(claim) => {
                &&& timestamp::parsed_instant(values@[2]@) is Ok
                &&& claim_described(
                    claim,
                    job_id@,
                    resource_id@,
                    text::texts(values@),
                    state,
                    timestamp::parsed_instant(values@[2]@)->Ok_0,
                    replayed,
                )
            },
            Err(error) => error is Codec && timestamp::parsed_instant(values@[2]@) == Err::<
                int,
                Seq<char>,
            >(error->Codec_message@),
        },
{
    let revision: u64 = number_or(values[0].as_str(), u64::MAX);
    let scheduled_at = match parse_utc_rfc3339(values[2].as_str()) {
        Ok(instant) => instant,
        Err(error) => {
            return Err(error);
        },
    };
    let catch_up = same_text(values[3].as_str(), "true");
    let trigger_count: u64 = number_or(values[4].as_str(), u32::MAX as u64);
    let source = parse_trigger_source(values[5].as_str());
    let scope = parse_scope(values[6].as_str());
    let lease = ExecutionLease::new(
        job_id,
        resource_id,
        scope,
        Some(scheduled_at),
        values[8].as_str(),
        values[7].as_str(),
    );
    Ok(
        CoordinatedClaim {
            state: CoordinatedRuntimeState { state, revision, paused: false },
            trigger: CoordinatedPendingTrigger {
                scheduled_at,
                catch_up,
                trigger_count: trigger_count as u32,
                source,
            },
            lease,
            replayed,
        },
    )
}

/// The call that claims a trigger if the version is still the expected one.
pub open spec fn claim_call(
    keys: KeysView,
    job_id: Seq<char>,
    resource_id: Seq<char>,
    revision: nat,
    trigger: CoordinatedPendingTrigger,
    payload: Seq<char>,
    terms: ClaimTerms,
    scope: ExecutionGuardScope,
) -> CallView {
    CallView {
        script: CoordinatedScript::ClaimTrigger,
        keys: seq![
            keys.state_key(job_id),
            keys.resource_key(resource_id),
            keys.occurrence_key(resource_id, trigger.scheduled_at@),
            keys.occurrences_key(resource_id),
            keys.inflight_key(job_id),
        ],
        args: seq![
            FIELD_VERSION@,
            FIELD_PAUSED@,
            text::decimal(terms.now_millis as nat),
            text::decimal(revision),
            terms.token@,
            text::decimal(terms.ttl_millis as nat),
            text::decimal(claim_end(terms)),
            FIELD_STATE@,
            payload,
            timestamp::rfc3339(trigger.scheduled_at@),
            scripts::flag_name(trigger.catch_up),
            text::decimal(trigger.trigger_count as nat),
            keys::source_name(trigger.source),
            resource_id,
            keys::scope_name(scope),
        ],
    }
}

/// Asks to claim a trigger, and to advance the state of the job to the one
/// written as `payload`, if its version is still `revision`.
pub fn claim_trigger(
    keys: &CoordinatedKeys,
    job_id: &str,
    resource_id: &str,
    revision: u64,
    trigger: &CoordinatedPendingTrigger,
    payload: String,
    terms: &ClaimTerms,
    scope: ExecutionGuardScope,
) -> (r: ScriptCall)
    ensures
        r@ == claim_call(
            keys@,
            job_id@,
            resource_id@,
            revision as nat,
            *trigger,
            payload@,
            *terms,
            scope,
        ),
{
    let end: u64 = expires_at_millis(terms.now_millis, terms.ttl_millis);
    let mut call_keys: Vec<String> = Vec::new();
    call_keys.push(keys.state_key(job_id));
    call_keys.push(keys.resource_lock_key(resource_id));
    call_keys.push(keys.occurrence_lease_key(resource_id, trigger.scheduled_at));
    call_keys.push(keys.occurrence_index_key(resource_id));
    call_keys.push(keys.inflight_index_key(job_id));
    let mut args: Vec<String> = Vec::new();
    args.push(FIELD_VERSION.to_owned());
    args.push(FIELD_PAUSED.to_owned());
    args.push(decimal_text(terms.now_millis as u128));
    args.push(decimal_text(revision as u128));
    args.push(terms.token.clone());
    args.push(decimal_text(terms.ttl_millis as u128));
    args.push(decimal_text(end as u128));
    args.push(FIELD_STATE.to_owned());
    args.push(payload);
    args.push(to_rfc3339(trigger.scheduled_at));
    args.push(flag_text(trigger.catch_up));
    args.push(decimal_text(trigger.trigger_count as u128));
    args.push(trigger_source_to_str(trigger.source).to_owned());
    args.push(resource_id.to_owned());
    args.push(scope_to_str(scope).to_owned());
    let call = ScriptCall { script: CoordinatedScript::ClaimTrigger, keys: call_keys, args };
    proof {
        let expected = claim_call(
            keys@,
            job_id@,
            resource_id@,
            revision as nat,
            *trigger,
            payload@,
            *terms,
            scope,
        );
        assert(call@.keys =~= expected.keys);
        assert(call@.args =~= expected.args);
    }
    call
}

/// The slot of a claim: an occurrence, or a resource whatever the occurrence.
pub open spec fn claimed_slot(
    job_id: Seq<char>,
    resource_id: Seq<char>,
    scheduled_at: int,
    scope: ExecutionGuardScope,
) -> SlotView {
    SlotView {
        job_id,
        resource_id,
        scope,
        scheduled_at: match scope {
            ExecutionGuardScope::Occurrence => Some(scheduled_at),
            ExecutionGuardScope::Resource => None,
        },
    }
}

/// The key of the lease of a claim.
pub open spec fn claimed_key(
    keys: KeysView,
    resource_id: Seq<char>,
    scheduled_at: int,
    scope: ExecutionGuardScope,
) -> Seq<char> {
    match scope {
        ExecutionGuardScope::Occurrence => keys.occurrence_key(resource_id, scheduled_at),
        ExecutionGuardScope::Resource => keys.resource_key(resource_id),
    }
}

/// What becomes of a claim that was asked for: the script answers with the new
/// version, or with nothing above zero where the claim was refused.
pub fn claim_outcome(
    keys: &CoordinatedKeys,
    job_id: &str,
    resource_id: &str,
    trigger: CoordinatedPendingTrigger,
    next_state: &JobState,
    token: &str,
    scope: ExecutionGuardScope,
    reply: ValkeyCommandOutcome<i64>,
) -> (r: Result<Option<CoordinatedClaim>, ValkeyStoreError>)
    ensures
        match reply {
            ValkeyCommandOutcome::Degraded => r == Err::<
                Option<CoordinatedClaim>,
                ValkeyStoreError,
            >(ValkeyStoreError::Unavailable),
            ValkeyCommandOutcome::Available(new_revision) => if new_revision <= 0 {
                r == Ok::<Option<CoordinatedClaim>, ValkeyStoreError>(None)
            } else {
                &&& r is Ok && r->Ok_0 is Some
                &&& r->Ok_0->0.state == (CoordinatedRuntimeState {
                    state: *next_state,
                    revision: new_revision as u64,
                    paused: false,
                })
                &&& r->Ok_0->0.trigger == trigger
                &&& r->Ok_0->0.lease@ == (LeaseView {
                    slot: claimed_slot(job_id@, resource_id@, trigger.scheduled_at@, scope),
                    token: token@,
                    lease_key: claimed_key(keys@, resource_id@, trigger.scheduled_at@, scope),
                })
                &&& !r->Ok_0->0.replayed
            },
        },
{
    let new_revision: i64 = match reply {
        ValkeyCommandOutcome::Available(value) => value,
        ValkeyCommandOutcome::Degraded => {
            return Err(ValkeyStoreError::Unavailable);
        },
    };
    if new_revision <= 0 {
        return Ok(None);
    }
    let lease_key = match scope {
        ExecutionGuardScope::Occurrence => keys.occurrence_lease_key(
            resource_id,
            trigger.scheduled_at,
        ),
        ExecutionGuardScope::Resource => keys.resource_lock_key(resource_id),
    };
    let scheduled_at = match scope {
        ExecutionGuardScope::Occurrence => Some(trigger.scheduled_at),
        ExecutionGuardScope::Resource => None,
    };
    let lease = ExecutionLease::new(
        job_id,
        resource_id,
        scope,
        scheduled_at,
        token,
        lease_key.as_str(),
    );
    Ok(
        Some(
            CoordinatedClaim {
                state: CoordinatedRuntimeState {
                    state: next_state.clone(),
                    revision: new_revision as u64,
                    paused: false,
                },
                trigger,
                lease,
                replayed: false,
            },
        ),
    )
}

/// The call that renews the lease of a claim.
pub open spec fn renew_call(
    keys: KeysView,
    lease: LeaseView,
    ttl_millis: nat,
    end: nat,
) -> CallView {
    CallView {
        script: CoordinatedScript::RenewLease,
        keys: seq![
            lease.lease_key,
            keys.occurrences_key(lease.slot.resource_id),
            keys.state_key(lease.slot.job_id),
            keys.inflight_key(lease.slot.job_id),
        ],
        args: seq![
            lease.token,
            text::decimal(ttl_millis),
            text::decimal(end),
            keys::scope_name(lease.slot.scope),
        ],
    }
}

/// Asks to renew the lease of a claim, for `ttl_millis` from now.
pub fn renew_claim_lease(
    keys: &CoordinatedKeys,
    lease: &ExecutionLease,
    ttl_millis: u64,
    now_millis: u64,
) -> (r: ScriptCall)
    ensures
        r@ == renew_call(
            keys@,
            lease@,
            ttl_millis as nat,
            if now_millis + ttl_millis <= u64::MAX {
                (now_millis + ttl_millis) as nat
            } else {
                u64::MAX as nat
            },
        ),
{
    let end: u64 = expires_at_millis(now_millis, ttl_millis);
    let mut call_keys: Vec<String> = Vec::new();
    call_keys.push(lease.lease_key.clone());
    call_keys.push(keys.occurrence_index_key(lease.resource_id.as_str()));
    call_keys.push(keys.state_key(lease.job_id.as_str()));
    call_keys.push(keys.inflight_index_key(lease.job_id.as_str()));
    let mut args: Vec<String> = Vec::new();
    args.push(lease.token.clone());
    args.push(decimal_text(ttl_millis as u128));
    args.push(decimal_text(end as u128));
    args.push(scope_to_str(lease.scope).to_owned());
    let call = ScriptCall { script: CoordinatedScript::RenewLease, keys: call_keys, args };
    proof {
        let expected = renew_call(keys@, lease@, ttl_millis as nat, end as nat);
        assert(call@.keys =~= expected.keys);
        assert(call@.args =~= expected.args);
    }
    call
}

/// The text of an optional instant: empty where there is none.
pub open spec fn optional_instant(instant: Option<int>) -> Seq<char> {
    match instant {
        Some(value) => timestamp::rfc3339(value),
        None => ""@,
    }
}

/// An optional text: empty where there is none.
pub open spec fn optional_text(value: Option<Seq<char>>) -> Seq<char> {
    match value {
        Some(characters) => characters,
        None => ""@,
    }
}

/// The call that completes a claim.
pub open spec fn complete_call(
    keys: KeysView,
    job_id: Seq<char>,
    lease: LeaseView,
    completion: CoordinatedCompletion,
) -> CallView {
    CallView {
        script: CoordinatedScript::Complete,
        keys: seq![
            keys.state_key(job_id),
            lease.lease_key,
            keys.occurrences_key(lease.slot.resource_id),
            keys.inflight_key(job_id),
        ],
        args: seq![
            lease.token,
            FIELD_VERSION@,
            FIELD_STATE@,
            timestamp::rfc3339(completion.last_run_at@),
            optional_instant(crate::time::instant_view(completion.last_success_at)),
            optional_text(schedule::text_view(completion.last_error)),
            FIELD_INFLIGHT_TOKEN@,
            FIELD_INFLIGHT_SCOPE@,
            FIELD_INFLIGHT_SCHEDULED_AT@,
            FIELD_INFLIGHT_CATCH_UP@,
            FIELD_INFLIGHT_TRIGGER_COUNT@,
            FIELD_INFLIGHT_SOURCE@,
            FIELD_INFLIGHT_RESOURCE_ID@,
            FIELD_INFLIGHT_LEASE_KEY@,
        ],
    }
}

/// Asks to complete a claim.
pub fn complete_claim(
    keys: &CoordinatedKeys,
    job_id: &str,
    lease: &ExecutionLease,
    completion: &CoordinatedCompletion,
) -> (r: ScriptCall)
    ensures
        r@ == complete_call(keys@, job_id@, lease@, *completion),
{
    let last_success_at = match completion.last_success_at {
        Some(instant) => to_rfc3339(instant),
        None => "".to_owned(),
    };
    let last_error = match &completion.last_error {
        Some(message) => message.clone(),
        None => "".to_owned(),
    };
    let mut call_keys: Vec<String> = Vec::new();
    call_keys.push(keys.state_key(job_id));
    call_keys.push(lease.lease_key.clone());
    call_keys.push(keys.occurrence_index_key(lease.resource_id.as_str()));
    call_keys.push(keys.inflight_index_key(job_id));
    let mut args: Vec<String> = Vec::new();
    args.push(lease.token.clone());
    args.push(FIELD_VERSION.to_owned());
    args.push(FIELD_STATE.to_owned());
    args.push(to_rfc3339(completion.last_run_at));
    args.push(last_success_at);
    args.push(last_error);
    args.push(FIELD_INFLIGHT_TOKEN.to_owned());
    args.push(FIELD_INFLIGHT_SCOPE.to_owned());
    args.push(FIELD_INFLIGHT_SCHEDULED_AT.to_owned());
    args.push(FIELD_INFLIGHT_CATCH_UP.to_owned());
    args.push(FIELD_INFLIGHT_TRIGGER_COUNT.to_owned());
    args.push(FIELD_INFLIGHT_SOURCE.to_owned());
    args.push(FIELD_INFLIGHT_RESOURCE_ID.to_owned());
    args.push(FIELD_INFLIGHT_LEASE_KEY.to_owned());
    let call = ScriptCall { script: CoordinatedScript::Complete, keys: call_keys, args };
    proof {
        let expected = complete_call(keys@, job_id@, lease@, *completion);
        assert(call@.keys =~= expected.keys);
        assert(call@.args =~= expected.args);
    }
    call
}

/// The number, the source and the scope that a claim is made with are read
/// back from the texts that it is made with.
pub proof fn law_claim_reads_back(
    keys: KeysView,
    job_id: Seq<char>,
    resource_id: Seq<char>,
    revision: nat,
    trigger: CoordinatedPendingTrigger,
    payload: Seq<char>,
    terms: ClaimTerms,
    scope: ExecutionGuardScope,
)
    requires
        revision <= u64::MAX,
    ensures
        ({
            let args = claim_call(
                keys,
                job_id,
                resource_id,
                revision,
                trigger,
                payload,
                terms,
                scope,
            ).args;
            &&& codec::number_or_zero(Some(args[3]), u64::MAX as nat) == revision
            &&& args[9] == timestamp::rfc3339(trigger.scheduled_at@)
            &&& codec::number_or_zero(Some(args[11]), u32::MAX as nat) == trigger.trigger_count
            &&& keys::named_source(args[12]) == trigger.source
            &&& keys::named_scope(args[14]) == scope
        }),
{
    text::law_decimal_reads_back(revision);
    text::law_decimal_reads_back(trigger.trigger_count as nat);
    keys::law_source_reads_back(trigger.source);
    keys::law_scope_reads_back(scope);
}

/// A claim is asked for under the version that is expected, for the occurrence,
/// the number and the source of its trigger, and ends its length after now.
pub proof fn law_call_claim(
    keys: &CoordinatedKeys,
    job_id: &str,
    resource_id: &str,
    revision: u64,
    trigger: &CoordinatedPendingTrigger,
    payload: String,
    terms: &ClaimTerms,
    scope: ExecutionGuardScope,
    r: ScriptCall,
)
    requires
        call_ensures(
            claim_trigger,
            (keys, job_id, resource_id, revision, trigger, payload, terms, scope),
            r,
        ),
    ensures
        r.script == CoordinatedScript::ClaimTrigger,
        r@.keys.len() == 5,
        r@.keys[0] == keys.state_key_prefix@ + job_id@,
        r@.keys[1] == keys.execution_key_prefix@ + resource_id@ + ":resource"@,
        r@.keys[2] == keys.execution_key_prefix@ + resource_id@ + ":occurrence:"@
            + timestamp::rfc3339(trigger.scheduled_at@),
        r@.keys[3] == keys.execution_key_prefix@ + resource_id@ + ":occurrences"@,
        r@.keys[4] == keys.state_key_prefix@ + job_id@ + ":inflight"@,
        r@.args.len() == 15,
        r@.args[0] == "version"@,
        r@.args[1] == "paused"@,
        r@.args[2] == text::decimal(terms.now_millis as nat),
        r@.args[3] == text::decimal(revision as nat),
        r@.args[4] == terms.token@,
        r@.args[5] == text::decimal(terms.ttl_millis as nat),
        terms.now_millis + terms.ttl_millis <= u64::MAX ==> r@.args[6] == text::decimal(
            (terms.now_millis + terms.ttl_millis) as nat,
        ),
        terms.now_millis + terms.ttl_millis > u64::MAX ==> r@.args[6] == text::decimal(
            u64::MAX as nat,
        ),
        r@.args[7] == "state"@,
        r@.args[8] == payload@,
        r@.args[9] == timestamp::rfc3339(trigger.scheduled_at@),
        trigger.catch_up ==> r@.args[10] == "1"@,
        !trigger.catch_up ==> r@.args[10] == "0"@,
        r@.args[11] == text::decimal(trigger.trigger_count as nat),
        keys::named_source(r@.args[12]) == trigger.source,
        r@.args[13] == resource_id@,
        keys::named_scope(r@.args[14]) == scope,
{
    keys::law_source_reads_back(trigger.source);
    keys::law_scope_reads_back(scope);
}

/// A claim that was left behind is asked for with the keys of its job and its
/// resource, and ends its length after now.
pub proof fn law_call_reclaim(
    keys: &CoordinatedKeys,
    job_id: &str,
    resource_id: &str,
    terms: &ClaimTerms,
    r: ScriptCall,
)
    requires
        call_ensures(reclaim_inflight, (keys, job_id, resource_id, terms), r),
    ensures
        r.script == CoordinatedScript::ReclaimInflight,
        r@.keys == seq![
            keys.state_key_prefix@ + job_id@,
            keys.execution_key_prefix@ + resource_id@ + ":resource"@,
            keys.execution_key_prefix@ + resource_id@ + ":occurrences"@,
            keys.state_key_prefix@ + job_id@ + ":inflight"@,
        ],
        r@.args.len() == 16,
        r@.args[0] == "state"@,
        r@.args[1] == "version"@,
        r@.args[2] == "paused"@,
        r@.args[3] == text::decimal(terms.now_millis as nat),
        r@.args[4] == terms.token@,
        r@.args[5] == text::decimal(terms.ttl_millis as nat),
        terms.now_millis + terms.ttl_millis <= u64::MAX ==> r@.args[6] == text::decimal(
            (terms.now_millis + terms.ttl_millis) as nat,
        ),
        terms.now_millis + terms.ttl_millis > u64::MAX ==> r@.args[6] == text::decimal(
            u64::MAX as nat,
        ),
        r@.args[7] == "inflight_scheduled_at"@,
        r@.args[8] == "inflight_catch_up"@,
        r@.args[9] == "inflight_trigger_count"@,
        r@.args[10] == "inflight_source"@,
        r@.args[11] == "inflight_resource_id"@,
        r@.args[12] == "inflight_scope"@,
        r@.args[13] == "inflight_lease_key"@,
        r@.args[14] == "inflight_lease_expires_at"@,
        r@.args[15] == "inflight_token"@,
{
}

/// A claim is renewed under its own key and token, and its new end lies its
/// length after now.
pub proof fn law_call_renew(
    keys: &CoordinatedKeys,
    lease: &ExecutionLease,
    ttl_millis: u64,
    now_millis: u64,
    r: ScriptCall,
)
    requires
        call_ensures(renew_claim_lease, (keys, lease, ttl_millis, now_millis), r),
    ensures
        r.script == CoordinatedScript::RenewLease,
        r@.keys == seq![
            lease.lease_key@,
            keys.execution_key_prefix@ + lease.resource_id@ + ":occurrences"@,
            keys.state_key_prefix@ + lease.job_id@,
            keys.state_key_prefix@ + lease.job_id@ + ":inflight"@,
        ],
        r@.args.len() == 4,
        r@.args[0] == lease.token@,
        r@.args[1] == text::decimal(ttl_millis as nat),
        now_millis + ttl_millis <= u64::MAX ==> r@.args[2] == text::decimal(
            (now_millis + ttl_millis) as nat,
        ),
        now_millis + ttl_millis > u64::MAX ==> r@.args[2] == text::decimal(u64::MAX as nat),
        keys::named_scope(r@.args[3]) == lease.scope,
{
    keys::law_scope_reads_back(lease.scope);
}

/// A claim is completed under its own key and token, with the end of the run,
/// that of a success, and the error; what there is none of is empty.
pub proof fn law_call_complete(
    keys: &CoordinatedKeys,
    job_id: &str,
    lease: &ExecutionLease,
    completion: &CoordinatedCompletion,
    r: ScriptCall,
)
    requires
        call_ensures(complete_claim, (keys, job_id, lease, completion), r),
    ensures
        r.script == CoordinatedScript::Complete,
        r@.keys == seq![
            keys.state_key_prefix@ + job_id@,
            lease.lease_key@,
            keys.execution_key_prefix@ + lease.resource_id@ + ":occurrences"@,
            keys.state_key_prefix@ + job_id@ + ":inflight"@,
        ],
        r@.args.len() == 14,
        r@.args[0] == lease.token@,
        r@.args[1] == "version"@,
        r@.args[2] == "state"@,
        r@.args[3] == timestamp::rfc3339(completion.last_run_at@),
        completion.last_success_at matches Some(instant) ==> r@.args[4] == timestamp::rfc3339(
            instant@,
        ),
        completion.last_success_at is None ==> r@.args[4] == ""@,
        completion.last_error matches Some(message) ==> r@.args[5] == message@,
        completion.last_error is None ==> r@.args[5] == ""@,
        r@.args[6] == "inflight_token"@,
        r@.args[7] == "inflight_scope"@,
        r@.args[8] == "inflight_scheduled_at"@,
        r@.args[9] == "inflight_catch_up"@,
        r@.args[10] == "inflight_trigger_count"@,
        r@.args[11] == "inflight_source"@,
        r@.args[12] == "inflight_resource_id"@,
        r@.args[13] == "inflight_lease_key"@,
{
}

/// A claim is there exactly where the server answered with a new version; it has
/// that version, is not paused, and is leased for its occurrence or, whatever
/// that is, for its resource.
pub proof fn law_call_claim_outcome(
    keys: &CoordinatedKeys,
    job_id: &str,
    resource_id: &str,
    trigger: CoordinatedPendingTrigger,
    next_state: &JobState,
    token: &str,
    scope: ExecutionGuardScope,
    reply: ValkeyCommandOutcome<i64>,
    r: Result<Option<CoordinatedClaim>, ValkeyStoreError>,
)
    requires
        call_ensures(
            claim_outcome,
            (keys, job_id, resource_id, trigger, next_state, token, scope, reply),
            r,
        ),
    ensures
        r is Err <==> reply is Degraded,
        r is Err ==> r->Err_0 is Unavailable,
        reply matches ValkeyCommandOutcome::Available(version) ==> {
            &&& r->Ok_0 is Some <==> version > 0
            &&& r->Ok_0 matches Some(claim) ==> {
                &&& claim.state.revision == version
                &&& claim.state.state == *next_state
                &&& !claim.state.paused
                &&& !claim.replayed
                &&& claim.trigger == trigger
                &&& claim.lease.token@ == token@
                &&& claim.lease.job_id@ == job_id@
                &&& claim.lease.resource_id@ == resource_id@
                &&& claim.lease.scope == scope
                &&& scope == ExecutionGuardScope::Occurrence ==> claim.lease@.slot.scheduled_at
                    == Some(trigger.scheduled_at@) && claim.lease.lease_key@
                    == keys.execution_key_prefix@ + resource_id@ + ":occurrence:"@
                    + timestamp::rfc3339(trigger.scheduled_at@)
                &&& scope == ExecutionGuardScope::Resource ==> claim.lease@.slot.scheduled_at
                    is None && claim.lease.lease_key@ == keys.execution_key_prefix@ + resource_id@
                    + ":resource"@
            }
        },
{
    if let Ok(Some(claim)) = r {
        assert(claim.lease@.slot.job_id == claim.lease.job_id@);
        assert(claim.lease@.token == claim.lease.token@);
    }
}

/// A claim that was left behind is read from its nine texts, each in its place.
pub proof fn law_call_claim_values(
    job_id: &str,
    resource_id: &str,
    values: &Vec<String>,
    state: JobState,
    replayed: bool,
    revision: nat,
    count: nat,
    r: Result<CoordinatedClaim, ValkeyStoreError>,
)
    requires
        call_ensures(
            claim_from_script_values,
            (job_id, resource_id, values, state, replayed),
            r,
        ),
        values@.len() == 9,
    ensures
        r is Ok <==> timestamp::parsed_instant(values@[2]@) is Ok,
        r is Err ==> r->Err_0 is Codec,
        r matches Ok(claim) ==> {
            &&& claim.state.state == state
            &&& !claim.state.paused
            &&& claim.replayed == replayed
            &&& values@[0]@ == text::decimal(revision) && revision <= u64::MAX
                ==> claim.state.revision == revision
            &&& values@[4]@ == text::decimal(count) && count <= u32::MAX
                ==> claim.trigger.trigger_count == count
            &&& claim.trigger.scheduled_at@ == timestamp::parsed_instant(values@[2]@)->Ok_0
            &&& claim.trigger.catch_up <==> values@[3]@ == "true"@
            &&& claim.trigger.source == crate::model::job::TriggerSource::Manual <==> values@[5]@
                == "manual"@
            &&& claim.lease.scope == ExecutionGuardScope::Resource <==> values@[6]@ == "resource"@
            &&& claim.lease.lease_key@ == values@[7]@
            &&& claim.lease.token@ == values@[8]@
            &&& claim.lease.job_id@ == job_id@
            &&& claim.lease.resource_id@ == resource_id@
            &&& claim.lease@.slot.scheduled_at == Some(claim.trigger.scheduled_at@)
        },
{
    let views = text::texts(values@);
    assert(views.len() == 9);
    assert(forall|i: int| 0 <= i < 9 ==> #[trigger] views[i] == values@[i]@);
    assert(views[0] == values@[0]@ && views[2] == values@[2]@ && views[3] == values@[3]@
        && views[4] == values@[4]@ && views[5] == values@[5]@ && views[6] == values@[6]@
        && views[7] == values@[7]@ && views[8] == values@[8]@);
    text::law_decimal_reads_back(revision);
    text::law_decimal_reads_back(count);
    if let Ok(claim) = r {
        assert(claim.lease@.slot.job_id == claim.lease.job_id@);
        assert(claim.lease@.token == claim.lease.token@);
    }
}

/// Texts describe a claim exactly where there are nine of them.
pub proof fn law_call_complete_values(values: Option<Vec<String>>, r: Option<Vec<String>>)
    requires
        call_ensures(complete_values, (values,), r),
    ensures
        r is Some <==> values is Some && values->0@.len() == 9,
        r is Some ==> r == values,
{
}

} // verus!
