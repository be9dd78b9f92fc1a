use chrono::{TimeZone, Utc};
use redis::{ErrorKind, RedisError, ServerErrorKind};
use scheduler::text_map::TextMap;
use scheduler::timestamp::{from_rfc3339, to_rfc3339};
use scheduler::valkey_coordinated_store::codec::{
    parse_runtime_state, parse_utc_rfc3339, runtime_fields, state_payload,
};
use scheduler::valkey_coordinated_store::inflight_commands::{
    claim_from_script_values, claim_outcome, claim_trigger, complete_claim, complete_values,
    reclaim_inflight, renew_claim_lease, ClaimTerms,
};
use scheduler::valkey_coordinated_store::keys::{
    parse_scope, parse_trigger_source, scope_to_str, trigger_source_to_str, CoordinatedKeys,
    DEFAULT_EXECUTION_KEY_PREFIX, DEFAULT_STATE_KEY_PREFIX,
};
use scheduler::valkey_coordinated_store::scripts::{
    available, flag_text, was_applied, CoordinatedScript,
};
use scheduler::valkey_coordinated_store::state_commands::{
    save_runtime_state, set_pause, LoadReply, LoadRequest, StateLoad,
};
use scheduler::valkey_execution_support::{
    expires_at_millis, next_token, now_millis, occurrence_index_key, occurrence_lease_key,
    resource_lock_key, token_at, ttl_millis,
};
use scheduler::valkey_guard::{
    acquire_outcome, classify_redis_error, lease_key, release_result, renewal_outcome,
    DEFAULT_KEY_PREFIX,
};
use scheduler::valkey_runtime::{
    is_connection_issue, CommandAttempts, RedisErrorClass, RedisErrorSigns, RetryStep,
    ValkeyCommandOutcome, ValkeyHealth, ValkeyRuntimeEvent,
};
use scheduler::valkey_store::{
    classify_guard_error, classify_store_error, deleted_keys, legacy_state_key, load_step,
    state_key, LoadStep, LEGACY_DEFAULT_KEY_PREFIX,
};
use scheduler::{
    CoordinatedCompletion, CoordinatedPendingTrigger, CoordinatedRuntimeState, Duration,
    ExecutionGuardAcquire, ExecutionGuardErrorKind, ExecutionGuardRenewal, ExecutionGuardScope,
    ExecutionLease, ExecutionSlot, JobState, StoreErrorKind, TriggerSource, UtcTime,
    ValkeyExecutionGuardError, ValkeyLeaseConfig, ValkeyRecoveryConfig, ValkeyStoreError,
};

fn at(year: i32, month: u32, day: u32, hour: u32, minute: u32, second: u32) -> UtcTime {
    let instant = Utc.with_ymd_and_hms(year, month, day, hour, minute, second).unwrap();
    UtcTime::from_unix_nanos(instant.timestamp() as i128 * 1_000_000_000).unwrap()
}

fn signs_of(error: &RedisError) -> RedisErrorSigns {
    RedisErrorSigns {
        connection_dropped: error.is_connection_dropped(),
        connection_refused: error.is_connection_refusal(),
        timed_out: error.is_timeout(),
        class: match error.kind() {
            ErrorKind::Io => RedisErrorClass::Io,
            ErrorKind::ClusterConnectionNotFound => RedisErrorClass::ClusterConnectionNotFound,
            ErrorKind::Server(ServerErrorKind::BusyLoading) => RedisErrorClass::BusyLoading,
            ErrorKind::Server(ServerErrorKind::ClusterDown) => RedisErrorClass::ClusterDown,
            ErrorKind::Server(ServerErrorKind::MasterDown) => RedisErrorClass::MasterDown,
            ErrorKind::Server(ServerErrorKind::TryAgain) => RedisErrorClass::TryAgain,
            _ => RedisErrorClass::Other,
        },
    }
}

fn redis_failure(error: RedisError) -> ValkeyStoreError {
    ValkeyStoreError::Redis { signs: signs_of(&error), message: error.to_string() }
}

#[test]
fn generated_tokens_are_not_empty() {
    let mut counter: u64 = 1;
    assert_ne!(next_token(&mut counter, "lease"), "");
    assert_ne!(next_token(&mut counter, "lease"), "");
}

#[test]
fn lease_key_uses_default_prefix_and_occurrence_time() {
    let slot = ExecutionSlot::new("job-1", at(2026, 4, 3, 1, 2, 3));

    assert_eq!(
        lease_key(DEFAULT_KEY_PREFIX, &slot),
        "scheduler:valkey:execution-lease:job-1:2026-04-03T01:02:03.000000000Z"
    );
}

#[test]
fn state_key_uses_custom_prefix() {
    assert_eq!(state_key("custom:", "job-1"), "custom:job-1");
    assert_eq!(
        state_key(scheduler::valkey_store::DEFAULT_KEY_PREFIX, "job-2"),
        "scheduler:valkey:job-state:job-2"
    );
}

#[test]
fn legacy_default_prefix_is_stable() {
    assert_eq!(state_key(LEGACY_DEFAULT_KEY_PREFIX, "job-3"), "scheduler:job-state:job-3");
}

#[test]
fn io_errors_are_classified_as_connection_issues() {
    let error =
        redis_failure(RedisError::from(std::io::Error::from(std::io::ErrorKind::BrokenPipe)));

    assert!(error.is_connection_issue());
}

#[test]
fn timeout_errors_are_classified_as_connection_issues() {
    let error =
        redis_failure(RedisError::from(std::io::Error::from(std::io::ErrorKind::TimedOut)));

    assert!(error.is_connection_issue());
}

#[test]
fn codec_errors_are_not_classified_as_connection_issues() {
    let message = serde_json::from_str::<serde_json::Value>("{").unwrap_err().to_string();
    let error = ValkeyStoreError::Codec { message };

    assert!(!error.is_connection_issue());
}

fn quiet_signs(class: RedisErrorClass) -> RedisErrorSigns {
    RedisErrorSigns {
        connection_dropped: false,
        connection_refused: false,
        timed_out: false,
        class,
    }
}

#[test]
fn errors_of_the_server_are_told_apart() {
    assert!(is_connection_issue(&quiet_signs(RedisErrorClass::BusyLoading)));
    assert!(is_connection_issue(&quiet_signs(RedisErrorClass::ClusterDown)));
    assert!(is_connection_issue(&quiet_signs(RedisErrorClass::MasterDown)));
    assert!(is_connection_issue(&quiet_signs(RedisErrorClass::TryAgain)));
    assert!(is_connection_issue(&quiet_signs(RedisErrorClass::ClusterConnectionNotFound)));
    assert!(!is_connection_issue(&quiet_signs(RedisErrorClass::Other)));
    assert_eq!(
        classify_redis_error(&quiet_signs(RedisErrorClass::Io)),
        ExecutionGuardErrorKind::Connection
    );
    assert_eq!(
        classify_redis_error(&quiet_signs(RedisErrorClass::Other)),
        ExecutionGuardErrorKind::Unknown
    );
}

#[test]
fn failures_of_a_store_have_kinds() {
    let codec = ValkeyStoreError::Codec { message: "bad".to_string() };
    let other = ValkeyStoreError::Redis {
        signs: quiet_signs(RedisErrorClass::Other),
        message: "no".to_string(),
    };
    assert_eq!(classify_store_error(&codec), StoreErrorKind::Data);
    assert_eq!(classify_store_error(&ValkeyStoreError::Unavailable), StoreErrorKind::Connection);
    assert_eq!(classify_store_error(&other), StoreErrorKind::Unknown);
    assert_eq!(classify_guard_error(&codec), ExecutionGuardErrorKind::Data);
    assert_eq!(
        classify_guard_error(&ValkeyStoreError::Unavailable),
        ExecutionGuardErrorKind::Connection
    );
    assert_eq!(classify_guard_error(&other), ExecutionGuardErrorKind::Unknown);
    assert_eq!(codec.to_string(), "bad");
    assert_eq!(other.to_string(), "no");
    assert_eq!(ValkeyStoreError::Unavailable.to_string(), "valkey is unavailable");
}

#[test]
fn the_legacy_key_belongs_to_the_default_prefix() {
    assert_eq!(
        legacy_state_key(scheduler::valkey_store::DEFAULT_KEY_PREFIX, "job"),
        Some("scheduler:job-state:job".to_string())
    );
    assert_eq!(legacy_state_key("custom:", "job"), None);
}

#[test]
fn keys_of_resources_and_occurrences() {
    assert_eq!(resource_lock_key("p:", "db"), "p:db:resource");
    assert_eq!(occurrence_index_key("p:", "db"), "p:db:occurrences");
    assert_eq!(
        occurrence_lease_key("p:", "db", at(2026, 4, 3, 1, 2, 3)),
        "p:db:occurrence:2026-04-03T01:02:03.000000000Z"
    );
    assert_eq!(lease_key("p:", &ExecutionSlot::for_resource("job", "db")), "p:db:resource");
    assert_eq!(
        scheduler::valkey_execution_support::lease_key(
            "p:",
            &ExecutionSlot::for_occurrence("job", "db", at(2026, 4, 3, 1, 2, 3))
        ),
        "p:db:occurrence:2026-04-03T01:02:03.000000000Z"
    );
}

#[test]
fn two_occurrences_have_two_keys() {
    let first = ExecutionSlot::new("job", at(2026, 4, 3, 1, 2, 3));
    let second = ExecutionSlot::new("job", at(2026, 4, 3, 1, 2, 4));
    assert_ne!(lease_key("p:", &first), lease_key("p:", &second));
}

#[test]
fn tokens_name_the_moment_and_the_number() {
    assert_eq!(token_at("lease", 12_345, 7), "lease-12345-7");
    let mut counter: u64 = 41;
    let token = next_token(&mut counter, "coord");
    assert!(token.starts_with("coord-"));
    assert!(token.ends_with("-41"));
    assert_ne!(next_token(&mut counter, "coord"), token);
    assert_eq!(counter, 43);
    counter = u64::MAX;
    assert!(next_token(&mut counter, "coord").ends_with("-18446744073709551615"));
    assert_eq!(counter, 0);
}

#[test]
fn lengths_of_leases_in_milliseconds() {
    assert_eq!(ttl_millis(Duration::from_millis(1_500)), 1_500);
    assert_eq!(ttl_millis(Duration::from_secs(u64::MAX)), u64::MAX);
    assert_eq!(expires_at_millis(10, 5), 15);
    assert_eq!(expires_at_millis(10, u64::MAX), u64::MAX);
    assert!(now_millis() > 1_700_000_000_000);
}

#[test]
fn instants_are_read_back_from_their_texts() {
    let instant = UtcTime::from_unix_nanos(1_775_178_123_000_000_456).unwrap();
    let text = to_rfc3339(instant);
    assert_eq!(text, "2026-04-03T01:02:03.000000456Z");
    assert_eq!(from_rfc3339(&text), Ok(instant));
    assert_eq!(from_rfc3339("2026-04-03T03:02:03.000000456+02:00"), Ok(instant));
    assert!(from_rfc3339("yesterday").is_err());
    assert!(matches!(
        parse_utc_rfc3339("yesterday"),
        Err(ValkeyStoreError::Codec { message }) if !message.is_empty()
    ));
}

fn lease_config(ttl: u64, renew: u64) -> ValkeyLeaseConfig {
    ValkeyLeaseConfig {
        ttl: Duration::from_millis(ttl),
        renew_interval: Duration::from_millis(renew),
    }
}

#[test]
fn lease_configurations_are_checked_in_order() {
    let message = |config: ValkeyLeaseConfig| config.validate().unwrap_err().to_string();
    assert_eq!(message(lease_config(0, 0)), "execution guard ttl must be greater than zero");
    assert_eq!(
        message(lease_config(10, 0)),
        "execution guard renew_interval must be greater than zero"
    );
    assert_eq!(
        message(lease_config(10, 10)),
        "execution guard renew_interval must be less than ttl"
    );
    let endless = ValkeyLeaseConfig {
        ttl: Duration::from_secs(u64::MAX),
        renew_interval: Duration::from_secs(1),
    };
    assert_eq!(
        message(endless),
        "execution guard ttl is too large to encode in milliseconds"
    );
    let error = endless.ttl_millis().unwrap_err();
    assert_eq!(error.to_string(), "out of range integral type conversion attempted");
    assert_eq!(error.kind(), ExecutionGuardErrorKind::Data);
    assert!(lease_config(30, 10).validate().is_ok());
    assert_eq!(lease_config(30, 10).ttl_millis().unwrap(), 30);
    let error = lease_config(0, 1).validate().unwrap_err();
    assert_eq!(error.kind(), ExecutionGuardErrorKind::Data);
}

#[test]
fn a_guard_that_cannot_be_reached_gives_nothing() {
    let slot = ExecutionSlot::new("job", at(2026, 4, 3, 1, 2, 3));
    assert_eq!(
        acquire_outcome(slot.clone(), "t", "k", ValkeyCommandOutcome::Degraded),
        ExecutionGuardAcquire::Contended
    );
    assert_eq!(
        acquire_outcome(slot.clone(), "t", "k", ValkeyCommandOutcome::Available(false)),
        ExecutionGuardAcquire::Contended
    );
    assert_eq!(
        acquire_outcome(slot.clone(), "t", "k", ValkeyCommandOutcome::Available(true)),
        ExecutionGuardAcquire::Acquired(ExecutionLease::for_slot(slot, "t", "k"))
    );
    assert_eq!(renewal_outcome(ValkeyCommandOutcome::Degraded), ExecutionGuardRenewal::Lost);
    assert_eq!(renewal_outcome(ValkeyCommandOutcome::Available(0)), ExecutionGuardRenewal::Lost);
    assert_eq!(
        renewal_outcome(ValkeyCommandOutcome::Available(1)),
        ExecutionGuardRenewal::Renewed
    );
}

#[test]
fn commands_are_tried_again_with_longer_waits() {
    let config = ValkeyRecoveryConfig {
        retry_attempts: 5,
        initial_backoff: Duration::from_millis(25),
        max_backoff: Duration::from_millis(80),
        probe_interval: Duration::from_millis(250),
    };
    let mut attempts = CommandAttempts::start(config);
    let mut waits = Vec::new();
    loop {
        let (next, step) = attempts.on_unreachable();
        match step {
            RetryStep::WaitAndRetry(wait) => waits.push(wait.as_millis()),
            RetryStep::GiveUp => break,
        }
        attempts = next;
    }
    assert_eq!(waits, vec![25, 50, 80, 80]);
}

#[test]
fn a_command_is_tried_at_least_once() {
    let config =
        ValkeyRecoveryConfig { retry_attempts: 0, ..ValkeyRecoveryConfig::default() };
    let (_, step) = CommandAttempts::start(config).on_unreachable();
    assert_eq!(step, RetryStep::GiveUp);
    assert_eq!(ValkeyRecoveryConfig::default().retry_attempts, 3);
    assert_eq!(ValkeyRecoveryConfig::default().initial_backoff.as_millis(), 25);
    assert_eq!(ValkeyRecoveryConfig::default().max_backoff.as_millis(), 250);
}

#[test]
fn health_is_told_when_it_changes() {
    let mut health = ValkeyHealth::new();
    health.on_answer();
    health.on_give_up("down".to_string());
    health.on_give_up("still down".to_string());
    health.on_answer();
    assert_eq!(
        health.drain_events(),
        vec![
            ValkeyRuntimeEvent::Degraded { error: "down".to_string() },
            ValkeyRuntimeEvent::Recovered,
        ]
    );
    assert!(health.drain_events().is_empty());
}

fn keys() -> CoordinatedKeys {
    CoordinatedKeys::new(DEFAULT_STATE_KEY_PREFIX, DEFAULT_EXECUTION_KEY_PREFIX)
}

#[test]
fn keys_of_the_shared_state() {
    let keys = keys();
    assert_eq!(keys.state_key("job"), "scheduler:valkey:job-state:job");
    assert_eq!(keys.legacy_state_key("job"), Some("scheduler:job-state:job".to_string()));
    assert_eq!(keys.inflight_index_key("job"), "scheduler:valkey:job-state:job:inflight");
    assert_eq!(keys.resource_lock_key("db"), "scheduler:valkey:execution-lease:db:resource");
    assert_eq!(
        keys.occurrence_index_key("db"),
        "scheduler:valkey:execution-lease:db:occurrences"
    );
    assert_eq!(CoordinatedKeys::new("s:", "e:").legacy_state_key("job"), None);
}

#[test]
fn scopes_and_sources_are_read_back_from_their_names() {
    assert_eq!(scope_to_str(ExecutionGuardScope::Occurrence), "occurrence");
    assert_eq!(scope_to_str(ExecutionGuardScope::Resource), "resource");
    assert_eq!(parse_scope("resource"), ExecutionGuardScope::Resource);
    assert_eq!(parse_scope("occurrence"), ExecutionGuardScope::Occurrence);
    assert_eq!(parse_scope("anything"), ExecutionGuardScope::Occurrence);
    assert_eq!(trigger_source_to_str(TriggerSource::Manual), "manual");
    assert_eq!(trigger_source_to_str(TriggerSource::Scheduled), "scheduled");
    assert_eq!(parse_trigger_source("manual"), TriggerSource::Manual);
    assert_eq!(parse_trigger_source("scheduled"), TriggerSource::Scheduled);
    assert_eq!(parse_trigger_source(""), TriggerSource::Scheduled);
}

#[test]
fn fields_hold_the_version_and_the_pause() {
    let mut fields: TextMap<String> = TextMap::new();
    assert_eq!(state_payload(&fields), "{}");
    let empty = parse_runtime_state(&fields, JobState::new("job", None));
    assert_eq!(empty.revision, 0);
    assert!(!empty.paused);

    fields.insert("version", "17".to_string());
    fields.insert("paused", "TRUE".to_string());
    fields.insert("state", "{\"job_id\":\"job\"}".to_string());
    let read = parse_runtime_state(&fields, JobState::new("job", None));
    assert_eq!(read.revision, 17);
    assert!(read.paused);
    assert_eq!(state_payload(&fields), "{\"job_id\":\"job\"}");

    fields.insert("version", "seventeen".to_string());
    fields.insert("paused", "0".to_string());
    let read = parse_runtime_state(&fields, JobState::new("job", None));
    assert_eq!(read.revision, 0);
    assert!(!read.paused);

    assert_eq!(
        runtime_fields(17, "{}".to_string(), true),
        vec!["version", "17", "state", "{}", "paused", "1"]
    );
    assert_eq!(flag_text(true), "1");
    assert_eq!(flag_text(false), "0");
}

#[test]
fn fields_that_are_there_are_the_state() {
    let stored = CoordinatedRuntimeState {
        state: JobState::new("job", None),
        revision: 4,
        paused: true,
    };
    let (load, request) = StateLoad::start(&keys(), "job", JobState::new("job", None));
    assert!(
        matches!(request, LoadRequest::Type { key } if key == "scheduler:valkey:job-state:job")
    );
    let (load, request) = load.on_reply(LoadReply::Type("hash".to_string()));
    assert!(matches!(request, LoadRequest::Hash { .. }));
    let (_, request) = load.on_reply(LoadReply::Hash(Some(stored.clone())));
    assert!(matches!(request, LoadRequest::Done { runtime } if runtime == stored));
}

#[test]
fn a_legacy_text_is_moved() {
    let old = JobState::new("job", Some(at(2026, 4, 3, 1, 2, 3)));
    let (load, _) = StateLoad::start(&keys(), "job", JobState::new("job", None));
    let (load, request) = load.on_reply(LoadReply::Type("none".to_string()));
    assert!(matches!(request, LoadRequest::Type { key } if key == "scheduler:job-state:job"));
    let (load, request) = load.on_reply(LoadReply::Type("string".to_string()));
    assert!(matches!(request, LoadRequest::Text { key } if key == "scheduler:job-state:job"));
    let (load, request) = load.on_reply(LoadReply::Text(Some(old.clone())));
    assert!(matches!(
        request,
        LoadRequest::Write { key, runtime }
            if key == "scheduler:valkey:job-state:job"
                && runtime.state == old
                && runtime.revision == 0
                && !runtime.paused
    ));
    let (load, request) = load.on_reply(LoadReply::Written);
    assert!(matches!(request, LoadRequest::Delete { key } if key == "scheduler:job-state:job"));
    let (_, request) = load.on_reply(LoadReply::Deleted);
    assert!(matches!(request, LoadRequest::Done { runtime } if runtime.state == old));
}

#[test]
fn a_text_is_rewritten_and_nothing_becomes_the_initial_state() {
    let old = JobState::new("job", Some(at(2026, 4, 3, 1, 2, 3)));
    let (load, _) = StateLoad::start(&keys(), "job", JobState::new("job", None));
    let (load, request) = load.on_reply(LoadReply::Type("string".to_string()));
    assert!(matches!(request, LoadRequest::Text { .. }));
    let (load, _) = load.on_reply(LoadReply::Text(Some(old.clone())));
    let (_, request) = load.on_reply(LoadReply::Written);
    assert!(matches!(request, LoadRequest::Done { runtime } if runtime.state == old));

    let initial = JobState::new("job", Some(at(2026, 4, 3, 1, 2, 4)));
    let own = CoordinatedKeys::new("s:", "e:");
    let (load, _) = StateLoad::start(&own, "job", initial.clone());
    let (load, request) = load.on_reply(LoadReply::Type("none".to_string()));
    assert!(matches!(
        request,
        LoadRequest::Write { key, runtime } if key == "s:job" && runtime.state == initial
    ));
    let (_, request) = load.on_reply(LoadReply::Written);
    assert!(matches!(
        request,
        LoadRequest::Done { runtime } if runtime.state == initial && runtime.revision == 0
    ));
}

fn pending() -> CoordinatedPendingTrigger {
    CoordinatedPendingTrigger {
        scheduled_at: at(2026, 4, 3, 1, 2, 3),
        catch_up: true,
        trigger_count: 6,
        source: TriggerSource::Manual,
    }
}

fn terms() -> ClaimTerms {
    ClaimTerms { token: "coord-1-1".to_string(), ttl_millis: 30_000, now_millis: 1_000 }
}

#[test]
fn calls_carry_their_keys_and_arguments() {
    let own = CoordinatedKeys::new("s:", "e:");
    let call = save_runtime_state(&own, "job", 3, "{}".to_string(), 99);
    assert_eq!(call.script, CoordinatedScript::SaveState);
    assert_eq!(call.keys, vec!["s:job", "s:job:inflight"]);
    assert_eq!(call.args, vec!["version", "3", "inflight_token", "state", "{}", "99"]);

    assert_eq!(set_pause(&own, "job", true).script, CoordinatedScript::Pause);
    assert_eq!(set_pause(&own, "job", false).script, CoordinatedScript::Resume);
    assert_eq!(set_pause(&own, "job", false).args, vec!["paused"]);

    let call = reclaim_inflight(&own, "job", "db", &terms());
    assert_eq!(call.script, CoordinatedScript::ReclaimInflight);
    assert_eq!(call.keys, vec!["s:job", "e:db:resource", "e:db:occurrences", "s:job:inflight"]);
    assert_eq!(
        call.args[..7],
        ["state", "version", "paused", "1000", "coord-1-1", "30000", "31000"]
    );
    assert_eq!(call.args.len(), 16);

    let call = claim_trigger(
        &own,
        "job",
        "db",
        3,
        &pending(),
        "{}".to_string(),
        &terms(),
        ExecutionGuardScope::Resource,
    );
    assert_eq!(call.script, CoordinatedScript::ClaimTrigger);
    assert_eq!(call.keys[2], "e:db:occurrence:2026-04-03T01:02:03.000000000Z");
    assert_eq!(
        call.args,
        vec![
            "version",
            "paused",
            "1000",
            "3",
            "coord-1-1",
            "30000",
            "31000",
            "state",
            "{}",
            "2026-04-03T01:02:03.000000000Z",
            "1",
            "6",
            "manual",
            "db",
            "resource",
        ]
    );
}

fn claimed_lease() -> ExecutionLease {
    ExecutionLease::new(
        "job",
        "db",
        ExecutionGuardScope::Occurrence,
        Some(at(2026, 4, 3, 1, 2, 3)),
        "coord-1-1",
        "e:db:occurrence",
    )
}

#[test]
fn renewals_and_completions_name_the_lease() {
    let own = CoordinatedKeys::new("s:", "e:");
    let call = renew_claim_lease(&own, &claimed_lease(), 30_000, 1_000);
    assert_eq!(call.script, CoordinatedScript::RenewLease);
    assert_eq!(
        call.keys,
        vec!["e:db:occurrence", "e:db:occurrences", "s:job", "s:job:inflight"]
    );
    assert_eq!(call.args, vec!["coord-1-1", "30000", "31000", "occurrence"]);

    let completion = CoordinatedCompletion {
        last_run_at: at(2026, 4, 3, 1, 2, 3),
        last_success_at: None,
        last_error: Some("boom".to_string()),
    };
    let call = complete_claim(&own, "job", &claimed_lease(), &completion);
    assert_eq!(call.script, CoordinatedScript::Complete);
    assert_eq!(
        call.args[..6],
        ["coord-1-1", "version", "state", "2026-04-03T01:02:03.000000000Z", "", "boom"]
    );
    assert_eq!(call.args.len(), 14);
}

#[test]
fn a_claim_is_given_with_a_new_version_only() {
    let own = CoordinatedKeys::new("s:", "e:");
    let state = JobState::new("job", None);
    let ask = |reply: ValkeyCommandOutcome<i64>| {
        claim_outcome(
            &own,
            "job",
            "db",
            pending(),
            &state,
            "coord-1-1",
            ExecutionGuardScope::Resource,
            reply,
        )
    };
    assert!(matches!(
        ask(ValkeyCommandOutcome::Degraded),
        Err(ValkeyStoreError::Unavailable)
    ));
    assert!(matches!(ask(ValkeyCommandOutcome::Available(0)), Ok(None)));
    assert!(matches!(ask(ValkeyCommandOutcome::Available(-1)), Ok(None)));
    let claim = ask(ValkeyCommandOutcome::Available(5)).unwrap().unwrap();
    assert_eq!(claim.state.revision, 5);
    assert_eq!(claim.state.state, state);
    assert!(!claim.replayed);
    assert_eq!(claim.lease.lease_key, "e:db:resource");
    assert_eq!(claim.lease.scheduled_at, None);
    assert_eq!(claim.lease.token, "coord-1-1");
}

fn values() -> Vec<String> {
    vec![
        "8".to_string(),
        "{}".to_string(),
        "2026-04-03T01:02:03.000000000Z".to_string(),
        "true".to_string(),
        "6".to_string(),
        "manual".to_string(),
        "resource".to_string(),
        "e:db:resource".to_string(),
        "coord-1-1".to_string(),
    ]
}

#[test]
fn a_claim_that_was_left_behind_is_described() {
    let state = JobState::new("job", None);
    let claim = claim_from_script_values("job", "db", &values(), state.clone(), true).unwrap();
    assert_eq!(claim.state.revision, 8);
    assert_eq!(claim.state.state, state);
    assert_eq!(claim.trigger, pending());
    assert_eq!(claim.lease.scope, ExecutionGuardScope::Resource);
    assert_eq!(claim.lease.scheduled_at, Some(at(2026, 4, 3, 1, 2, 3)));
    assert_eq!(claim.lease.lease_key, "e:db:resource");
    assert_eq!(claim.lease.token, "coord-1-1");
    assert!(claim.replayed);

    let mut odd = values();
    odd[0] = "?".to_string();
    odd[3] = "1".to_string();
    odd[4] = "99999999999".to_string();
    let claim = claim_from_script_values("job", "db", &odd, state.clone(), true).unwrap();
    assert_eq!(claim.state.revision, 0);
    assert!(!claim.trigger.catch_up);
    assert_eq!(claim.trigger.trigger_count, 0);

    let mut broken = values();
    broken[2] = "later".to_string();
    assert!(matches!(
        claim_from_script_values("job", "db", &broken, state, true),
        Err(ValkeyStoreError::Codec { .. })
    ));
}

#[test]
fn descriptions_of_another_length_count_as_none() {
    assert!(complete_values(None).is_none());
    assert!(complete_values(Some(vec!["8".to_string()])).is_none());
    assert_eq!(complete_values(Some(values())), Some(values()));
}

#[test]
fn answers_of_scripts() {
    assert!(matches!(was_applied(ValkeyCommandOutcome::Available(1)), Ok(true)));
    assert!(matches!(was_applied(ValkeyCommandOutcome::Available(0)), Ok(false)));
    assert!(matches!(
        was_applied(ValkeyCommandOutcome::Degraded),
        Err(ValkeyStoreError::Unavailable)
    ));
    assert!(matches!(available(ValkeyCommandOutcome::Available(3)), Ok(3)));
    assert!(available(ValkeyCommandOutcome::<u8>::Degraded).is_err());
}

#[test]
fn failures_of_a_guard_are_classified() {
    let failure = |class: RedisErrorClass| ValkeyExecutionGuardError::Redis {
        signs: quiet_signs(class),
        message: "no answer".to_string(),
    };
    assert_eq!(failure(RedisErrorClass::Io).kind(), ExecutionGuardErrorKind::Connection);
    assert_eq!(failure(RedisErrorClass::Other).kind(), ExecutionGuardErrorKind::Unknown);
    assert_eq!(failure(RedisErrorClass::Io).to_string(), "no answer");
}

#[test]
fn tokens_of_two_numbers_differ_at_any_moments() {
    assert_ne!(token_at("lease", 12, 3), token_at("lease", 1, 23));
    assert_ne!(token_at("lease", 12, 3), token_at("lease", 12, 4));
    assert_ne!(token_at("lease", 12, 3), token_at("lease", 9, 4));
    assert_ne!(token_at("lease", 12, 3), token_at("lease", 13, 3));
}

#[test]
fn the_legacy_key_is_read_only_where_the_first_is_absent() {
    let prefix = scheduler::valkey_store::DEFAULT_KEY_PREFIX;
    assert_eq!(
        load_step(prefix, "job", Some("text".to_string())),
        LoadStep::Found("text".to_string())
    );
    assert_eq!(
        load_step(prefix, "job", None),
        LoadStep::ReadLegacy("scheduler:job-state:job".to_string())
    );
    assert_eq!(load_step("own:", "job", None), LoadStep::Absent);
    assert_eq!(
        deleted_keys(prefix, "job"),
        vec!["scheduler:valkey:job-state:job".to_string(), "scheduler:job-state:job".to_string()]
    );
    assert_eq!(deleted_keys("own:", "job"), vec!["own:job".to_string()]);
}

#[test]
fn a_release_that_was_given_up_failed() {
    assert!(release_result(ValkeyCommandOutcome::Available(1)).is_ok());
    assert!(release_result(ValkeyCommandOutcome::Available(0)).is_ok());
    let error = release_result(ValkeyCommandOutcome::Degraded).unwrap_err();
    assert_eq!(error.kind(), ExecutionGuardErrorKind::Connection);
    assert_eq!(error.to_string(), "valkey is unavailable");
}
