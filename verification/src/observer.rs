//! What a scheduler tells about its work, and how that reads in a log.
use chrono::{DateTime, Utc};
use vstd::prelude::*;
use crate::execution_guard::ExecutionGuardScope;
use crate::model::state::RunStatus;
use crate::model::time_window::RunSkipReason;
use crate::store::StoreOperation;
use crate::text::{self, decimal_text};
use crate::time::{self, UtcTime, MAX_SECOND, MIN_SECOND, NANOS_PER_SEC};

verus! {

#[derive(Debug, Clone, Copy, PartialEq, Eq, Structural)]
pub enum StateLoadSource {
    New,
    Restored,
    Repaired,
}

#[derive(Debug, Clone, Copy, PartialEq, Eq, Structural)]
pub enum SchedulerStopReason {
    Cancelled,
    Shutdown,
    Terminal,
    ChannelClosed,
}

/// Whom a pause concerns: one scheduler, or all that share the state.
#[derive(Debug, Clone, Copy, PartialEq, Eq, Structural)]
pub enum PauseScope {
    Local,
    Shared,
}

#[allow(inconsistent_fields)]
#[derive(Debug, Clone, PartialEq, Eq)]
pub enum SchedulerEvent {
    StateLoaded {
        job_id: String,
        trigger_count: u32,
        next_run_at: Option<UtcTime>,
        source: StateLoadSource,
    },
    StateRepaired {
        job_id: String,
        trigger_count: u32,
        previous_next_run_at: Option<UtcTime>,
        repaired_next_run_at: Option<UtcTime>,
    },
    TriggerEmitted { job_id: String, scheduled_at: UtcTime, catch_up: bool, trigger_count: u32 },
    RunSkipped {
        job_id: String,
        scheduled_at: UtcTime,
        catch_up: bool,
        trigger_count: u32,
        reason: RunSkipReason,
    },
    RunCompleted {
        job_id: String,
        scheduled_at: UtcTime,
        catch_up: bool,
        trigger_count: u32,
        status: RunStatus,
        error: Option<String>,
    },
    ExecutionGuardAcquired {
        job_id: String,
        resource_id: String,
        scope: ExecutionGuardScope,
        lease_key: String,
        scheduled_at: Option<UtcTime>,
        catch_up: bool,
        trigger_count: u32,
    },
    ExecutionGuardContended {
        job_id: String,
        resource_id: String,
        scope: ExecutionGuardScope,
        scheduled_at: Option<UtcTime>,
        catch_up: bool,
        trigger_count: u32,
    },
    ExecutionGuardRenewed {
        job_id: String,
        resource_id: String,
        scope: ExecutionGuardScope,
        lease_key: String,
        scheduled_at: Option<UtcTime>,
        catch_up: bool,
        trigger_count: u32,
        renewal_count: u32,
    },
    ExecutionGuardRenewFailed {
        job_id: String,
        resource_id: String,
        scope: ExecutionGuardScope,
        lease_key: String,
        scheduled_at: Option<UtcTime>,
        catch_up: bool,
        trigger_count: u32,
        renewal_count: u32,
        failed_renewal_count: u32,
        error: String,
    },
    ExecutionGuardLost {
        job_id: String,
        resource_id: String,
        scope: ExecutionGuardScope,
        lease_key: String,
        scheduled_at: Option<UtcTime>,
        catch_up: bool,
        trigger_count: u32,
        renewal_count: u32,
        failed_renewal_count: u32,
    },
    ExecutionGuardReleased {
        job_id: String,
        resource_id: String,
        scope: ExecutionGuardScope,
        lease_key: String,
        scheduled_at: Option<UtcTime>,
        catch_up: bool,
        trigger_count: u32,
    },
    ExecutionGuardReleaseFailed {
        job_id: String,
        resource_id: String,
        scope: ExecutionGuardScope,
        lease_key: String,
        scheduled_at: Option<UtcTime>,
        catch_up: bool,
        trigger_count: u32,
        error: String,
    },
    StoreDegraded { job_id: String, operation: StoreOperation, error: String },
    StoreRecovering { job_id: String, operation: StoreOperation },
    StoreRecovered { job_id: String, operation: StoreOperation },
    StoreRecoveryFailed { job_id: String, operation: StoreOperation, error: String },
    StoreRecoveryConflict { job_id: String, operation: StoreOperation, error: String },
    TerminalStateDeleted { job_id: String, trigger_count: u32 },
    SchedulerPaused { job_id: String, trigger_count: u32, scope: PauseScope },
    SchedulerResumed { job_id: String, trigger_count: u32, scope: PauseScope },
    SchedulerStopped { job_id: String, trigger_count: u32, reason: SchedulerStopReason },
}

/// An instant in the form `2026-04-03 01:02:03 UTC`.
pub uninterp spec fn instant_display(nanos: int) -> Seq<char>;

/// An instant in the form `2026-04-03T01:02:03Z`.
pub uninterp spec fn instant_debug(nanos: int) -> Seq<char>;

/// A text in quotation marks, with what is special in it escaped.
pub uninterp spec fn quoted(text: Seq<char>) -> Seq<char>;

/// Calls `<chrono::DateTime<Utc> as Display>::fmt`. The text is a function of
/// the instant.
#[verifier::external_body]
fn display_of(second: i64, nanos: u32) -> (r: String)
    requires
        MIN_SECOND <= second <= MAX_SECOND,
        nanos < NANOS_PER_SEC,
    ensures
        r@ == instant_display(second * NANOS_PER_SEC + nanos),
{
    DateTime::<Utc>::from_timestamp(second, nanos).unwrap().to_string()
}

/// Calls `<chrono::DateTime<Utc> as Debug>::fmt`. The text is a function of
/// the instant.
#[verifier::external_body]
fn debug_of(second: i64, nanos: u32) -> (r: String)
    requires
        MIN_SECOND <= second <= MAX_SECOND,
        nanos < NANOS_PER_SEC,
    ensures
        r@ == instant_debug(second * NANOS_PER_SEC + nanos),
{
    format!("{:?}", DateTime::<Utc>::from_timestamp(second, nanos).unwrap())
}

/// Calls `<str as Debug>::fmt`. The result is a function of the text.
#[verifier::external_body]
fn quote(text: &str) -> (r: String)
    ensures
        r@ == quoted(text@),
{
    format!("{:?}", text)
}

/// How much a line of a log matters.
#[derive(Debug, Clone, Copy, PartialEq, Eq, Structural)]
pub enum LogLevel {
    Debug,
    Info,
    Warn,
}

/// A line of a log.
#[derive(Debug, PartialEq, Eq)]
pub struct LogLine {
    pub level: LogLevel,
    pub text: String,
}

/// A line with one more field at its end.
pub open spec fn with_field(line: Seq<char>, name: Seq<char>, value: Seq<char>) -> Seq<char> {
    line + " "@ + name + "="@ + value
}

pub open spec fn bool_text(value: bool) -> Seq<char> {
    if value {
        "true"@
    } else {
        "false"@
    }
}

pub open spec fn optional_instant_text(instant: Option<int>) -> Seq<char> {
    match instant {
        Some(nanos) => "Some("@ + instant_debug(nanos) + ")"@,
        None => "None"@,
    }
}

pub open spec fn optional_error_text(error: Option<Seq<char>>) -> Seq<char> {
    match error {
        Some(text) => "Some("@ + quoted(text) + ")"@,
        None => "None"@,
    }
}

pub open spec fn scope_text(scope: ExecutionGuardScope) -> Seq<char> {
    match scope {
        ExecutionGuardScope::Occurrence => "Occurrence"@,
        ExecutionGuardScope::Resource => "Resource"@,
    }
}

pub open spec fn operation_text(operation: StoreOperation) -> Seq<char> {
    match operation {
        StoreOperation::Load => "Load"@,
        StoreOperation::Save => "Save"@,
        StoreOperation::Delete => "Delete"@,
    }
}

pub open spec fn source_text(source: StateLoadSource) -> Seq<char> {
    match source {
        StateLoadSource::New => "New"@,
        StateLoadSource::Restored => "Restored"@,
        StateLoadSource::Repaired => "Repaired"@,
    }
}

pub open spec fn status_text(status: RunStatus) -> Seq<char> {
    match status {
        RunStatus::Success => "Success"@,
        RunStatus::Failed => "Failed"@,
    }
}

pub open spec fn reason_text(reason: SchedulerStopReason) -> Seq<char> {
    match reason {
        SchedulerStopReason::Cancelled => "Cancelled"@,
        SchedulerStopReason::Shutdown => "Shutdown"@,
        SchedulerStopReason::Terminal => "Terminal"@,
        SchedulerStopReason::ChannelClosed => "ChannelClosed"@,
    }
}

pub open spec fn pause_scope_text(scope: PauseScope) -> Seq<char> {
    match scope {
        PauseScope::Local => "Local"@,
        PauseScope::Shared => "Shared"@,
    }
}

/// The fields that name an occurrence: when it was due, and which trigger it
/// is.
pub open spec fn occurrence_fields(
    line: Seq<char>,
    scheduled_at: Seq<char>,
    catch_up: bool,
    trigger_count: u32,
) -> Seq<char> {
    with_field(
        with_field(
            with_field(line, "scheduled_at"@, scheduled_at),
            "catch_up"@,
            bool_text(catch_up),
        ),
        "trigger_count"@,
        text::decimal(trigger_count as nat),
    )
}

/// The fields that name a lease and the occurrence that it is for.
pub open spec fn lease_fields(
    headline: Seq<char>,
    job_id: Seq<char>,
    resource_id: Seq<char>,
    scope: ExecutionGuardScope,
    lease_key: Seq<char>,
    scheduled_at: Option<int>,
    catch_up: bool,
    trigger_count: u32,
) -> Seq<char> {
    occurrence_fields(
        with_field(
            with_field(
                with_field(
                    with_field(headline, "job_id"@, job_id),
                    "resource_id"@,
                    resource_id,
                ),
                "scope"@,
                scope_text(scope),
            ),
            "lease_key"@,
            lease_key,
        ),
        optional_instant_text(scheduled_at),
        catch_up,
        trigger_count,
    )
}

/// The fields that name a job and how often it was triggered.
pub open spec fn count_fields(
    headline: Seq<char>,
    job_id: Seq<char>,
    trigger_count: u32,
) -> Seq<char> {
    with_field(
        with_field(headline, "job_id"@, job_id),
        "trigger_count"@,
        text::decimal(trigger_count as nat),
    )
}

/// The fields that name a job and what was asked of its store.
pub open spec fn store_fields(
    headline: Seq<char>,
    job_id: Seq<char>,
    operation: StoreOperation,
) -> Seq<char> {
    with_field(
        with_field(headline, "job_id"@, job_id),
        "operation"@,
        operation_text(operation),
    )
}

pub open spec fn renewal_fields(line: Seq<char>, renewal_count: u32) -> Seq<char> {
    with_field(line, "renewal_count"@, text::decimal(renewal_count as nat))
}

pub open spec fn failed_fields(
    line: Seq<char>,
    renewal_count: u32,
    failed_renewal_count: u32,
) -> Seq<char> {
    with_field(
        renewal_fields(line, renewal_count),
        "failed_renewal_count"@,
        text::decimal(failed_renewal_count as nat),
    )
}

/// How much an event matters: repairs, failures and lost leases are warnings,
/// the life of the scheduler is information, and single runs are detail.
pub open spec fn event_level(event: SchedulerEvent) -> LogLevel {
    match event {
        SchedulerEvent::StateLoaded { .. } => LogLevel::Info,
        SchedulerEvent::StateRepaired { .. } => LogLevel::Warn,
        SchedulerEvent::ExecutionGuardRenewFailed { .. } => LogLevel::Warn,
        SchedulerEvent::ExecutionGuardLost { .. } => LogLevel::Warn,
        SchedulerEvent::ExecutionGuardReleaseFailed { .. } => LogLevel::Warn,
        SchedulerEvent::StoreDegraded { .. } => LogLevel::Warn,
        SchedulerEvent::StoreRecovering { .. } => LogLevel::Info,
        SchedulerEvent::StoreRecovered { .. } => LogLevel::Info,
        SchedulerEvent::StoreRecoveryFailed { .. } => LogLevel::Warn,
        SchedulerEvent::StoreRecoveryConflict { .. } => LogLevel::Warn,
        SchedulerEvent::TerminalStateDeleted { .. } => LogLevel::Info,
        SchedulerEvent::SchedulerPaused { .. } => LogLevel::Info,
        SchedulerEvent::SchedulerResumed { .. } => LogLevel::Info,
        SchedulerEvent::SchedulerStopped { .. } => LogLevel::Info,
        _ => LogLevel::Debug,
    }
}

/// How an event reads in a log.
pub open spec fn event_text(event: SchedulerEvent) -> Seq<char> {
    match event {
        SchedulerEvent::StateLoaded { job_id, trigger_count, next_run_at, source } => with_field(
            with_field(
                with_field(
                    with_field("scheduler state loaded"@, "job_id"@, job_id@),
                    "source"@,
                    source_text(source),
                ),
                "trigger_count"@,
                text::decimal(trigger_count as nat),
            ),
            "next_run_at"@,
            optional_instant_text(time::instant_view(next_run_at)),
        ),
        SchedulerEvent::StateRepaired {
            job_id,
            trigger_count,
            previous_next_run_at,
            repaired_next_run_at,
        } => with_field(
            with_field(
                count_fields("scheduler repaired state"@, job_id@, trigger_count),
                "previous_next_run_at"@,
                optional_instant_text(time::instant_view(previous_next_run_at)),
            ),
            "repaired_next_run_at"@,
            optional_instant_text(time::instant_view(repaired_next_run_at)),
        ),
        SchedulerEvent::TriggerEmitted {
            job_id,
            scheduled_at,
            catch_up,
            trigger_count,
        } => occurrence_fields(
            with_field("scheduler trigger emitted"@, "job_id"@, job_id@),
            instant_display(scheduled_at@),
            catch_up,
            trigger_count,
        ),
        SchedulerEvent::RunSkipped {
            job_id,
            scheduled_at,
            catch_up,
            trigger_count,
            reason,
        } => with_field(
            occurrence_fields(
                with_field("scheduler run skipped"@, "job_id"@, job_id@),
                instant_display(scheduled_at@),
                catch_up,
                trigger_count,
            ),
            "reason"@,
            match reason {
                RunSkipReason::OutsideTimeWindow => "outside_time_window"@,
            },
        ),
        SchedulerEvent::RunCompleted {
            job_id,
            scheduled_at,
            catch_up,
            trigger_count,
            status,
            error,
        } => with_field(
            with_field(
                occurrence_fields(
                    with_field("scheduler run completed"@, "job_id"@, job_id@),
                    instant_display(scheduled_at@),
                    catch_up,
                    trigger_count,
                ),
                "status"@,
                status_text(status),
            ),
            "error"@,
            optional_error_text(crate::model::schedule::text_view(error)),
        ),
        SchedulerEvent::ExecutionGuardAcquired {
            job_id,
            resource_id,
            scope,
            lease_key,
            scheduled_at,
            catch_up,
            trigger_count,
        } => lease_fields(
            "scheduler execution guard acquired"@,
            job_id@,
            resource_id@,
            scope,
            lease_key@,
            time::instant_view(scheduled_at),
            catch_up,
            trigger_count,
        ),
        SchedulerEvent::ExecutionGuardContended {
            job_id,
            resource_id,
            scope,
            scheduled_at,
            catch_up,
            trigger_count,
        } => occurrence_fields(
            with_field(
                with_field(
                    with_field("scheduler execution guard contended"@, "job_id"@, job_id@),
                    "resource_id"@,
                    resource_id@,
                ),
                "scope"@,
                scope_text(scope),
            ),
            optional_instant_text(time::instant_view(scheduled_at)),
            catch_up,
            trigger_count,
        ),
        SchedulerEvent::ExecutionGuardRenewed {
            job_id,
            resource_id,
            scope,
            lease_key,
            scheduled_at,
            catch_up,
            trigger_count,
            renewal_count,
        } => renewal_fields(
            lease_fields(
                "scheduler execution guard renewed"@,
                job_id@,
                resource_id@,
                scope,
                lease_key@,
                time::instant_view(scheduled_at),
                catch_up,
                trigger_count,
            ),
            renewal_count,
        ),
        SchedulerEvent::ExecutionGuardRenewFailed {
            job_id,
            resource_id,
            scope,
            lease_key,
            scheduled_at,
            catch_up,
            trigger_count,
            renewal_count,
            failed_renewal_count,
            error,
        } => with_field(
            failed_fields(
                lease_fields(
                    "scheduler execution guard renew failed"@,
                    job_id@,
                    resource_id@,
                    scope,
                    lease_key@,
                    time::instant_view(scheduled_at),
                    catch_up,
                    trigger_count,
                ),
                renewal_count,
                failed_renewal_count,
            ),
            "error"@,
            error@,
        ),
        SchedulerEvent::ExecutionGuardLost {
            job_id,
            resource_id,
            scope,
            lease_key,
            scheduled_at,
            catch_up,
            trigger_count,
            renewal_count,
            failed_renewal_count,
        } => failed_fields(
            lease_fields(
                "scheduler execution guard lost"@,
                job_id@,
                resource_id@,
                scope,
                lease_key@,
                time::instant_view(scheduled_at),
                catch_up,
                trigger_count,
            ),
            renewal_count,
            failed_renewal_count,
        ),
        SchedulerEvent::ExecutionGuardReleased {
            job_id,
            resource_id,
            scope,
            lease_key,
            scheduled_at,
            catch_up,
            trigger_count,
        } => lease_fields(
            "scheduler execution guard released"@,
            job_id@,
            resource_id@,
            scope,
            lease_key@,
            time::instant_view(scheduled_at),
            catch_up,
            trigger_count,
        ),
        SchedulerEvent::ExecutionGuardReleaseFailed {
            job_id,
            resource_id,
            scope,
            lease_key,
            scheduled_at,
            catch_up,
            trigger_count,
            error,
        } => with_field(
            lease_fields(
                "scheduler execution guard release failed"@,
                job_id@,
                resource_id@,
                scope,
                lease_key@,
                time::instant_view(scheduled_at),
                catch_up,
                trigger_count,
            ),
            "error"@,
            error@,
        ),
        SchedulerEvent::StoreDegraded { job_id, operation, error } => with_field(
            store_fields("scheduler store degraded"@, job_id@, operation),
            "error"@,
            error@,
        ),
        SchedulerEvent::StoreRecovering { job_id, operation } => store_fields(
            "scheduler store recovering"@,
            job_id@,
            operation,
        ),
        SchedulerEvent::StoreRecovered { job_id, operation } => store_fields(
            "scheduler store recovered"@,
            job_id@,
            operation,
        ),
        SchedulerEvent::StoreRecoveryFailed { job_id, operation, error } => with_field(
            store_fields("scheduler store recovery failed"@, job_id@, operation),
            "error"@,
            error@,
        ),
        SchedulerEvent::StoreRecoveryConflict { job_id, operation, error } => with_field(
            store_fields("scheduler store recovery conflict"@, job_id@, operation),
            "error"@,
            error@,
        ),
        SchedulerEvent::TerminalStateDeleted { job_id, trigger_count } => count_fields(
            "scheduler deleted terminal state"@,
            job_id@,
            trigger_count,
        ),
        SchedulerEvent::SchedulerPaused { job_id, trigger_count, scope } => with_field(
            count_fields("scheduler paused"@, job_id@, trigger_count),
            "scope"@,
            pause_scope_text(scope),
        ),
        SchedulerEvent::SchedulerResumed { job_id, trigger_count, scope } => with_field(
            count_fields("scheduler resumed"@, job_id@, trigger_count),
            "scope"@,
            pause_scope_text(scope),
        ),
        SchedulerEvent::SchedulerStopped { job_id, trigger_count, reason } => with_field(
            count_fields("scheduler stopped"@, job_id@, trigger_count),
            "reason"@,
            reason_text(reason),
        ),
    }
}

fn add_field(line: &mut String, name: &str, value: &str)
    ensures
        final(line)@ == with_field(old(line)@, name@, value@),
{
    line.append(" ");
    line.append(name);
    line.append("=");
    line.append(value);
}

fn add_number(line: &mut String, name: &str, value: u32)
    ensures
        final(line)@ == with_field(old(line)@, name@, text::decimal(value as nat)),
{
    let number = decimal_text(value as u128);
    add_field(line, name, number.as_str());
}

fn show_bool(value: bool) -> (r: &'static str)
    ensures
        r@ == bool_text(value),
{
    if value {
        "true"
    } else {
        "false"
    }
}

fn show_instant(instant: UtcTime) -> (r: String)
    ensures
        r@ == instant_display(instant@),
{
    let second: i64 = instant.unix_second();
    let nanos: u32 = instant.subsec_nanos();
    display_of(second, nanos)
}

fn show_optional_instant(instant: Option<UtcTime>) -> (r: String)
    ensures
        r@ == optional_instant_text(time::instant_view(instant)),
{
    match instant {
        Some(value) => {
            let second: i64 = value.unix_second();
            let nanos: u32 = value.subsec_nanos();
            let shown = debug_of(second, nanos);
            text::join3("Some(", shown.as_str(), ")")
        },
        None => "None".to_owned(),
    }
}

fn show_optional_error(error: &Option<String>) -> (r: String)
    ensures
        r@ == optional_error_text(crate::model::schedule::text_view(*error)),
{
    match error {
        Some(value) => {
            let shown = quote(value.as_str());
            text::join3("Some(", shown.as_str(), ")")
        },
        None => "None".to_owned(),
    }
}

fn show_scope(scope: ExecutionGuardScope) -> (r: &'static str)
    ensures
        r@ == scope_text(scope),
{
    match scope {
        ExecutionGuardScope::Occurrence => "Occurrence",
        ExecutionGuardScope::Resource => "Resource",
    }
}

fn show_operation(operation: StoreOperation) -> (r: &'static str)
    ensures
        r@ == operation_text(operation),
{
    match operation {
        StoreOperation::Load => "Load",
        StoreOperation::Save => "Save",
        StoreOperation::Delete => "Delete",
    }
}

fn show_source(source: StateLoadSource) -> (r: &'static str)
    ensures
        r@ == source_text(source),
{
    match source {
        StateLoadSource::New => "New",
        StateLoadSource::Restored => "Restored",
        StateLoadSource::Repaired => "Repaired",
    }
}

fn show_status(status: RunStatus) -> (r: &'static str)
    ensures
        r@ == status_text(status),
{
    match status {
        RunStatus::Success => "Success",
        RunStatus::Failed => "Failed",
    }
}

fn show_reason(reason: SchedulerStopReason) -> (r: &'static str)
    ensures
        r@ == reason_text(reason),
{
    match reason {
        SchedulerStopReason::Cancelled => "Cancelled",
        SchedulerStopReason::Shutdown => "Shutdown",
        SchedulerStopReason::Terminal => "Terminal",
        SchedulerStopReason::ChannelClosed => "ChannelClosed",
    }
}

fn show_pause_scope(scope: PauseScope) -> (r: &'static str)
    ensures
        r@ == pause_scope_text(scope),
{
    match scope {
        PauseScope::Local => "Local",
        PauseScope::Shared => "Shared",
    }
}

fn add_occurrence(line: &mut String, scheduled_at: &str, catch_up: bool, trigger_count: u32)
    ensures
        final(line)@ == occurrence_fields(old(line)@, scheduled_at@, catch_up, trigger_count),
{
    add_field(line, "scheduled_at", scheduled_at);
    add_field(line, "catch_up", show_bool(catch_up));
    add_number(line, "trigger_count", trigger_count);
}

fn lease_line(
    headline: &str,
    job_id: &String,
    resource_id: &String,
    scope: ExecutionGuardScope,
    lease_key: &String,
    scheduled_at: Option<UtcTime>,
    catch_up: bool,
    trigger_count: u32,
) -> (r: String)
    ensures
        r@ == lease_fields(
            headline@,
            job_id@,
            resource_id@,
            scope,
            lease_key@,
            time::instant_view(scheduled_at),
            catch_up,
            trigger_count,
        ),
{
    let mut line = headline.to_owned();
    add_field(&mut line, "job_id", job_id.as_str());
    add_field(&mut line, "resource_id", resource_id.as_str());
    add_field(&mut line, "scope", show_scope(scope));
    add_field(&mut line, "lease_key", lease_key.as_str());
    let shown = show_optional_instant(scheduled_at);
    add_occurrence(&mut line, shown.as_str(), catch_up, trigger_count);
    line
}

fn count_line(headline: &str, job_id: &String, trigger_count: u32) -> (r: String)
    ensures
        r@ == count_fields(headline@, job_id@, trigger_count),
{
    let mut line = headline.to_owned();
    add_field(&mut line, "job_id", job_id.as_str());
    add_number(&mut line, "trigger_count", trigger_count);
    line
}

fn store_line(headline: &str, job_id: &String, operation: StoreOperation) -> (r: String)
    ensures
        r@ == store_fields(headline@, job_id@, operation),
{
    let mut line = headline.to_owned();
    add_field(&mut line, "job_id", job_id.as_str());
    add_field(&mut line, "operation", show_operation(operation));
    line
}

fn level_of(event: &SchedulerEvent) -> (r: LogLevel)
    ensures
        r == event_level(*event),
{
    match event {
        SchedulerEvent::StateLoaded { .. } => LogLevel::Info,
        SchedulerEvent::StateRepaired { .. } => LogLevel::Warn,
        SchedulerEvent::ExecutionGuardRenewFailed { .. } => LogLevel::Warn,
        SchedulerEvent::ExecutionGuardLost { .. } => LogLevel::Warn,
        SchedulerEvent::ExecutionGuardReleaseFailed { .. } => LogLevel::Warn,
        SchedulerEvent::StoreDegraded { .. } => LogLevel::Warn,
        SchedulerEvent::StoreRecovering { .. } => LogLevel::Info,
        SchedulerEvent::StoreRecovered { .. } => LogLevel::Info,
        SchedulerEvent::StoreRecoveryFailed { .. } => LogLevel::Warn,
        SchedulerEvent::StoreRecoveryConflict { .. } => LogLevel::Warn,
        SchedulerEvent::TerminalStateDeleted { .. } => LogLevel::Info,
        SchedulerEvent::SchedulerPaused { .. } => LogLevel::Info,
        SchedulerEvent::SchedulerResumed { .. } => LogLevel::Info,
        SchedulerEvent::SchedulerStopped { .. } => LogLevel::Info,
        _ => LogLevel::Debug,
    }
}

/// An observer that does nothing.
#[derive(Debug, Clone, Copy)]
pub struct NoopObserver;

impl Default for NoopObserver {
    fn default() -> (r: Self)
        ensures
            r == NoopObserver,
    {
        NoopObserver
    }
}

/// An observer that turns events into lines of a log.
#[derive(Debug, Clone, Copy)]
pub struct LogObserver;

impl Default for LogObserver {
    fn default() -> (r: Self)
        ensures
            r == LogObserver,
    {
        LogObserver
    }
}

impl LogObserver {
    /// The line that an event is logged as.
    #[verifier::rlimit(40)]
    pub fn line(&self, event: &SchedulerEvent) -> (r: LogLine)
        ensures
            r.level == event_level(*event),
            r.text@ == event_text(*event),
    {
        let text = match event {
            SchedulerEvent::StateLoaded { job_id, trigger_count, next_run_at, source } => {
                let mut line = "scheduler state loaded".to_owned();
                add_field(&mut line, "job_id", job_id.as_str());
                add_field(&mut line, "source", show_source(*source));
                add_number(&mut line, "trigger_count", *trigger_count);
                let shown = show_optional_instant(*next_run_at);
                add_field(&mut line, "next_run_at", shown.as_str());
                line
            },
            SchedulerEvent::StateRepaired {
                job_id,
                trigger_count,
                previous_next_run_at,
                repaired_next_run_at,
            } => {
                let mut line = count_line("scheduler repaired state", job_id, *trigger_count);
                let previous = show_optional_instant(*previous_next_run_at);
                let repaired = show_optional_instant(*repaired_next_run_at);
                add_field(&mut line, "previous_next_run_at", previous.as_str());
                add_field(&mut line, "repaired_next_run_at", repaired.as_str());
                line
            },
            SchedulerEvent::TriggerEmitted { job_id, scheduled_at, catch_up, trigger_count } => {
                let mut line = "scheduler trigger emitted".to_owned();
                add_field(&mut line, "job_id", job_id.as_str());
                let shown = show_instant(*scheduled_at);
                add_occurrence(&mut line, shown.as_str(), *catch_up, *trigger_count);
                line
            },
            SchedulerEvent::RunSkipped {
                job_id,
                scheduled_at,
                catch_up,
                trigger_count,
                reason,
            } => {
                let mut line = "scheduler run skipped".to_owned();
                add_field(&mut line, "job_id", job_id.as_str());
                let shown = show_instant(*scheduled_at);
                add_occurrence(&mut line, shown.as_str(), *catch_up, *trigger_count);
                add_field(&mut line, "reason", (*reason).as_str());
                line
            },
            SchedulerEvent::RunCompleted {
                job_id,
                scheduled_at,
                catch_up,
                trigger_count,
                status,
                error,
            } => {
                let mut line = "scheduler run completed".to_owned();
                add_field(&mut line, "job_id", job_id.as_str());
                let shown = show_instant(*scheduled_at);
                add_occurrence(&mut line, shown.as_str(), *catch_up, *trigger_count);
                add_field(&mut line, "status", show_status(*status));
                let shown_error = show_optional_error(error);
                add_field(&mut line, "error", shown_error.as_str());
                line
            },
            SchedulerEvent::ExecutionGuardAcquired {
                job_id,
                resource_id,
                scope,
                lease_key,
                scheduled_at,
                catch_up,
                trigger_count,
            } => lease_line(
                "scheduler execution guard acquired",
                job_id,
                resource_id,
                *scope,
                lease_key,
                *scheduled_at,
                *catch_up,
                *trigger_count,
            ),
            SchedulerEvent::ExecutionGuardContended {
                job_id,
                resource_id,
                scope,
                scheduled_at,
                catch_up,
                trigger_count,
            } => {
                let mut line = "scheduler execution guard contended".to_owned();
                add_field(&mut line, "job_id", job_id.as_str());
                add_field(&mut line, "resource_id", resource_id.as_str());
                add_field(&mut line, "scope", show_scope(*scope));
                let shown = show_optional_instant(*scheduled_at);
                add_occurrence(&mut line, shown.as_str(), *catch_up, *trigger_count);
                line
            },
            SchedulerEvent::ExecutionGuardRenewed {
                job_id,
                resource_id,
                scope,
                lease_key,
                scheduled_at,
                catch_up,
                trigger_count,
                renewal_count,
            } => {
                let mut line = lease_line(
                    "scheduler execution guard renewed",
                    job_id,
                    resource_id,
                    *scope,
                    lease_key,
                    *scheduled_at,
                    *catch_up,
                    *trigger_count,
                );
                add_number(&mut line, "renewal_count", *renewal_count);
                line
            },
            SchedulerEvent::ExecutionGuardRenewFailed {
                job_id,
                resource_id,
                scope,
                lease_key,
                scheduled_at,
                catch_up,
                trigger_count,
                renewal_count,
                failed_renewal_count,
                error,
            } => {
                let mut line = lease_line(
                    "scheduler execution guard renew failed",
                    job_id,
                    resource_id,
                    *scope,
                    lease_key,
                    *scheduled_at,
                    *catch_up,
                    *trigger_count,
                );
                add_number(&mut line, "renewal_count", *renewal_count);
                add_number(&mut line, "failed_renewal_count", *failed_renewal_count);
                add_field(&mut line, "error", error.as_str());
                line
            },
            SchedulerEvent::ExecutionGuardLost {
                job_id,
                resource_id,
                scope,
                lease_key,
                scheduled_at,
                catch_up,
                trigger_count,
                renewal_count,
                failed_renewal_count,
            } => {
                let mut line = lease_line(
                    "scheduler execution guard lost",
                    job_id,
                    resource_id,
                    *scope,
                    lease_key,
                    *scheduled_at,
                    *catch_up,
                    *trigger_count,
                );
                add_number(&mut line, "renewal_count", *renewal_count);
                add_number(&mut line, "failed_renewal_count", *failed_renewal_count);
                line
            },
            SchedulerEvent::ExecutionGuardReleased {
                job_id,
                resource_id,
                scope,
                lease_key,
                scheduled_at,
                catch_up,
                trigger_count,
            } => lease_line(
                "scheduler execution guard released",
                job_id,
                resource_id,
                *scope,
                lease_key,
                *scheduled_at,
                *catch_up,
                *trigger_count,
            ),
            SchedulerEvent::ExecutionGuardReleaseFailed {
                job_id,
                resource_id,
                scope,
                lease_key,
                scheduled_at,
                catch_up,
                trigger_count,
                error,
            } => {
                let mut line = lease_line(
                    "scheduler execution guard release failed",
                    job_id,
                    resource_id,
                    *scope,
                    lease_key,
                    *scheduled_at,
                    *catch_up,
                    *trigger_count,
                );
                add_field(&mut line, "error", error.as_str());
                line
            },
            SchedulerEvent::StoreDegraded { job_id, operation, error } => {
                let mut line = store_line("scheduler store degraded", job_id, *operation);
                add_field(&mut line, "error", error.as_str());
                line
            },
            SchedulerEvent::StoreRecovering { job_id, operation } => store_line(
                "scheduler store recovering",
                job_id,
                *operation,
            ),
            SchedulerEvent::StoreRecovered { job_id, operation } => store_line(
                "scheduler store recovered",
                job_id,
                *operation,
            ),
            SchedulerEvent::StoreRecoveryFailed { job_id, operation, error } => {
                let mut line = store_line("scheduler store recovery failed", job_id, *operation);
                add_field(&mut line, "error", error.as_str());
                line
            },
            SchedulerEvent::StoreRecoveryConflict { job_id, operation, error } => {
                let mut line = store_line("scheduler store recovery conflict", job_id, *operation);
                add_field(&mut line, "error", error.as_str());
                line
            },
            SchedulerEvent::TerminalStateDeleted { job_id, trigger_count } => count_line(
                "scheduler deleted terminal state",
                job_id,
                *trigger_count,
            ),
            SchedulerEvent::SchedulerPaused { job_id, trigger_count, scope } => {
                let mut line = count_line("scheduler paused", job_id, *trigger_count);
                add_field(&mut line, "scope", show_pause_scope(*scope));
                line
            },
            SchedulerEvent::SchedulerResumed { job_id, trigger_count, scope } => {
                let mut line = count_line("scheduler resumed", job_id, *trigger_count);
                add_field(&mut line, "scope", show_pause_scope(*scope));
                line
            },
            SchedulerEvent::SchedulerStopped { job_id, trigger_count, reason } => {
                let mut line = count_line("scheduler stopped", job_id, *trigger_count);
                add_field(&mut line, "reason", show_reason(*reason));
                line
            },
        };
        LogLine { level: level_of(event), text }
    }
}

/// How much each event matters in a log.
pub proof fn law_call_level(observer: &LogObserver, event: &SchedulerEvent, r: LogLine)
    requires
        call_ensures(LogObserver::line, (observer, event), r),
    ensures
        event is StateRepaired || event is ExecutionGuardRenewFailed || event is ExecutionGuardLost
            || event is ExecutionGuardReleaseFailed || event is StoreDegraded || event
            is StoreRecoveryFailed || event is StoreRecoveryConflict ==> r.level == LogLevel::Warn,
        event is StateLoaded || event is StoreRecovering || event is StoreRecovered || event
            is TerminalStateDeleted || event is SchedulerPaused || event is SchedulerResumed
            || event is SchedulerStopped ==> r.level == LogLevel::Info,
        event is TriggerEmitted || event is RunSkipped || event is RunCompleted || event
            is ExecutionGuardAcquired || event is ExecutionGuardContended || event
            is ExecutionGuardRenewed || event is ExecutionGuardReleased ==> r.level
            == LogLevel::Debug,
{
}

/// How states, triggers and runs read in a log.
#[verifier::rlimit(40)]
pub proof fn law_call_line_of_run(observer: &LogObserver, event: &SchedulerEvent, r: LogLine)
    requires
        call_ensures(LogObserver::line, (observer, event), r),
    ensures
        *event matches SchedulerEvent::StateLoaded { job_id, trigger_count, next_run_at, source } ==> r.text@
            == "scheduler state loaded"@
            + " "@ + "job_id"@ + "="@ + job_id@
            + " "@ + "source"@ + "="@ + (match source { StateLoadSource::New => "New"@, StateLoadSource::Restored => "Restored"@, StateLoadSource::Repaired => "Repaired"@ })
            + " "@ + "trigger_count"@ + "="@ + text::decimal(trigger_count as nat)
            + " "@ + "next_run_at"@ + "="@ + (match next_run_at { Some(instant) => "Some("@ + instant_debug(instant@) + ")"@, None => "None"@ }),
        *event matches SchedulerEvent::StateRepaired { job_id, trigger_count, previous_next_run_at, repaired_next_run_at } ==> r.text@
            == "scheduler repaired state"@
            + " "@ + "job_id"@ + "="@ + job_id@
            + " "@ + "trigger_count"@ + "="@ + text::decimal(trigger_count as nat)
            + " "@ + "previous_next_run_at"@ + "="@ + (match previous_next_run_at { Some(instant) => "Some("@ + instant_debug(instant@) + ")"@, None => "None"@ })
            + " "@ + "repaired_next_run_at"@ + "="@ + (match repaired_next_run_at { Some(instant) => "Some("@ + instant_debug(instant@) + ")"@, None => "None"@ }),
        *event matches SchedulerEvent::TriggerEmitted { job_id, scheduled_at, catch_up, trigger_count } ==> r.text@
            == "scheduler trigger emitted"@
            + " "@ + "job_id"@ + "="@ + job_id@
            + " "@ + "scheduled_at"@ + "="@ + instant_display(scheduled_at@)
            + " "@ + "catch_up"@ + "="@ + (if catch_up { "true"@ } else { "false"@ })
            + " "@ + "trigger_count"@ + "="@ + text::decimal(trigger_count as nat),
        *event matches SchedulerEvent::RunSkipped { job_id, scheduled_at, catch_up, trigger_count, reason } ==> r.text@
            == "scheduler run skipped"@
            + " "@ + "job_id"@ + "="@ + job_id@
            + " "@ + "scheduled_at"@ + "="@ + instant_display(scheduled_at@)
            + " "@ + "catch_up"@ + "="@ + (if catch_up { "true"@ } else { "false"@ })
            + " "@ + "trigger_count"@ + "="@ + text::decimal(trigger_count as nat)
            + " "@ + "reason"@ + "="@ + "outside_time_window"@,
        *event matches SchedulerEvent::RunCompleted { job_id, scheduled_at, catch_up, trigger_count, status, error } ==> r.text@
            == "scheduler run completed"@
            + " "@ + "job_id"@ + "="@ + job_id@
            + " "@ + "scheduled_at"@ + "="@ + instant_display(scheduled_at@)
            + " "@ + "catch_up"@ + "="@ + (if catch_up { "true"@ } else { "false"@ })
            + " "@ + "trigger_count"@ + "="@ + text::decimal(trigger_count as nat)
            + " "@ + "status"@ + "="@ + (match status { RunStatus::Success => "Success"@, RunStatus::Failed => "Failed"@ })
            + " "@ + "error"@ + "="@ + (match error { Some(message) => "Some("@ + quoted(message@) + ")"@, None => "None"@ }),
{
}

/// How a lease that is given, refused and released reads in a log.
#[verifier::rlimit(40)]
pub proof fn law_call_line_of_lease(observer: &LogObserver, event: &SchedulerEvent, r: LogLine)
    requires
        call_ensures(LogObserver::line, (observer, event), r),
    ensures
        *event matches SchedulerEvent::ExecutionGuardAcquired { job_id, resource_id, scope, lease_key, scheduled_at, catch_up, trigger_count } ==> r.text@
            == "scheduler execution guard acquired"@
            + " "@ + "job_id"@ + "="@ + job_id@
            + " "@ + "resource_id"@ + "="@ + resource_id@
            + " "@ + "scope"@ + "="@ + (match scope { ExecutionGuardScope::Occurrence => "Occurrence"@, ExecutionGuardScope::Resource => "Resource"@ })
            + " "@ + "lease_key"@ + "="@ + lease_key@
            + " "@ + "scheduled_at"@ + "="@ + (match scheduled_at { Some(instant) => "Some("@ + instant_debug(instant@) + ")"@, None => "None"@ })
            + " "@ + "catch_up"@ + "="@ + (if catch_up { "true"@ } else { "false"@ })
            + " "@ + "trigger_count"@ + "="@ + text::decimal(trigger_count as nat),
        *event matches SchedulerEvent::ExecutionGuardContended { job_id, resource_id, scope, scheduled_at, catch_up, trigger_count } ==> r.text@
            == "scheduler execution guard contended"@
            + " "@ + "job_id"@ + "="@ + job_id@
            + " "@ + "resource_id"@ + "="@ + resource_id@
            + " "@ + "scope"@ + "="@ + (match scope { ExecutionGuardScope::Occurrence => "Occurrence"@, ExecutionGuardScope::Resource => "Resource"@ })
            + " "@ + "scheduled_at"@ + "="@ + (match scheduled_at { Some(instant) => "Some("@ + instant_debug(instant@) + ")"@, None => "None"@ })
            + " "@ + "catch_up"@ + "="@ + (if catch_up { "true"@ } else { "false"@ })
            + " "@ + "trigger_count"@ + "="@ + text::decimal(trigger_count as nat),
        *event matches SchedulerEvent::ExecutionGuardReleased { job_id, resource_id, scope, lease_key, scheduled_at, catch_up, trigger_count } ==> r.text@
            == "scheduler execution guard released"@
            + " "@ + "job_id"@ + "="@ + job_id@
            + " "@ + "resource_id"@ + "="@ + resource_id@
            + " "@ + "scope"@ + "="@ + (match scope { ExecutionGuardScope::Occurrence => "Occurrence"@, ExecutionGuardScope::Resource => "Resource"@ })
            + " "@ + "lease_key"@ + "="@ + lease_key@
            + " "@ + "scheduled_at"@ + "="@ + (match scheduled_at { Some(instant) => "Some("@ + instant_debug(instant@) + ")"@, None => "None"@ })
            + " "@ + "catch_up"@ + "="@ + (if catch_up { "true"@ } else { "false"@ })
            + " "@ + "trigger_count"@ + "="@ + text::decimal(trigger_count as nat),
        *event matches SchedulerEvent::ExecutionGuardReleaseFailed { job_id, resource_id, scope, lease_key, scheduled_at, catch_up, trigger_count, error } ==> r.text@
            == "scheduler execution guard release failed"@
            + " "@ + "job_id"@ + "="@ + job_id@
            + " "@ + "resource_id"@ + "="@ + resource_id@
            + " "@ + "scope"@ + "="@ + (match scope { ExecutionGuardScope::Occurrence => "Occurrence"@, ExecutionGuardScope::Resource => "Resource"@ })
            + " "@ + "lease_key"@ + "="@ + lease_key@
            + " "@ + "scheduled_at"@ + "="@ + (match scheduled_at { Some(instant) => "Some("@ + instant_debug(instant@) + ")"@, None => "None"@ })
            + " "@ + "catch_up"@ + "="@ + (if catch_up { "true"@ } else { "false"@ })
            + " "@ + "trigger_count"@ + "="@ + text::decimal(trigger_count as nat)
            + " "@ + "error"@ + "="@ + error@,
{
}

/// How the renewals of a lease read in a log.
#[verifier::rlimit(40)]
pub proof fn law_call_line_of_renewal(observer: &LogObserver, event: &SchedulerEvent, r: LogLine)
    requires
        call_ensures(LogObserver::line, (observer, event), r),
    ensures
        *event matches SchedulerEvent::ExecutionGuardRenewed { job_id, resource_id, scope, lease_key, scheduled_at, catch_up, trigger_count, renewal_count } ==> r.text@
            == "scheduler execution guard renewed"@
            + " "@ + "job_id"@ + "="@ + job_id@
            + " "@ + "resource_id"@ + "="@ + resource_id@
            + " "@ + "scope"@ + "="@ + (match scope { ExecutionGuardScope::Occurrence => "Occurrence"@, ExecutionGuardScope::Resource => "Resource"@ })
            + " "@ + "lease_key"@ + "="@ + lease_key@
            + " "@ + "scheduled_at"@ + "="@ + (match scheduled_at { Some(instant) => "Some("@ + instant_debug(instant@) + ")"@, None => "None"@ })
            + " "@ + "catch_up"@ + "="@ + (if catch_up { "true"@ } else { "false"@ })
            + " "@ + "trigger_count"@ + "="@ + text::decimal(trigger_count as nat)
            + " "@ + "renewal_count"@ + "="@ + text::decimal(renewal_count as nat),
        *event matches SchedulerEvent::ExecutionGuardRenewFailed { job_id, resource_id, scope, lease_key, scheduled_at, catch_up, trigger_count, renewal_count, failed_renewal_count, error } ==> r.text@
            == "scheduler execution guard renew failed"@
            + " "@ + "job_id"@ + "="@ + job_id@
            + " "@ + "resource_id"@ + "="@ + resource_id@
            + " "@ + "scope"@ + "="@ + (match scope { ExecutionGuardScope::Occurrence => "Occurrence"@, ExecutionGuardScope::Resource => "Resource"@ })
            + " "@ + "lease_key"@ + "="@ + lease_key@
            + " "@ + "scheduled_at"@ + "="@ + (match scheduled_at { Some(instant) => "Some("@ + instant_debug(instant@) + ")"@, None => "None"@ })
            + " "@ + "catch_up"@ + "="@ + (if catch_up { "true"@ } else { "false"@ })
            + " "@ + "trigger_count"@ + "="@ + text::decimal(trigger_count as nat)
            + " "@ + "renewal_count"@ + "="@ + text::decimal(renewal_count as nat)
            + " "@ + "failed_renewal_count"@ + "="@ + text::decimal(failed_renewal_count as nat)
            + " "@ + "error"@ + "="@ + error@,
        *event matches SchedulerEvent::ExecutionGuardLost { job_id, resource_id, scope, lease_key, scheduled_at, catch_up, trigger_count, renewal_count, failed_renewal_count } ==> r.text@
            == "scheduler execution guard lost"@
            + " "@ + "job_id"@ + "="@ + job_id@
            + " "@ + "resource_id"@ + "="@ + resource_id@
            + " "@ + "scope"@ + "="@ + (match scope { ExecutionGuardScope::Occurrence => "Occurrence"@, ExecutionGuardScope::Resource => "Resource"@ })
            + " "@ + "lease_key"@ + "="@ + lease_key@
            + " "@ + "scheduled_at"@ + "="@ + (match scheduled_at { Some(instant) => "Some("@ + instant_debug(instant@) + ")"@, None => "None"@ })
            + " "@ + "catch_up"@ + "="@ + (if catch_up { "true"@ } else { "false"@ })
            + " "@ + "trigger_count"@ + "="@ + text::decimal(trigger_count as nat)
            + " "@ + "renewal_count"@ + "="@ + text::decimal(renewal_count as nat)
            + " "@ + "failed_renewal_count"@ + "="@ + text::decimal(failed_renewal_count as nat),
{
}

/// How the store and the life of a scheduler read in a log.
#[verifier::rlimit(40)]
pub proof fn law_call_line_of_store(observer: &LogObserver, event: &SchedulerEvent, r: LogLine)
    requires
        call_ensures(LogObserver::line, (observer, event), r),
    ensures
        *event matches SchedulerEvent::StoreDegraded { job_id, operation, error } ==> r.text@
            == "scheduler store degraded"@
            + " "@ + "job_id"@ + "="@ + job_id@
            + " "@ + "operation"@ + "="@ + (match operation { StoreOperation::Load => "Load"@, StoreOperation::Save => "Save"@, StoreOperation::Delete => "Delete"@ })
            + " "@ + "error"@ + "="@ + error@,
        *event matches SchedulerEvent::StoreRecovering { job_id, operation } ==> r.text@
            == "scheduler store recovering"@
            + " "@ + "job_id"@ + "="@ + job_id@
            + " "@ + "operation"@ + "="@ + (match operation { StoreOperation::Load => "Load"@, StoreOperation::Save => "Save"@, StoreOperation::Delete => "Delete"@ }),
        *event matches SchedulerEvent::StoreRecovered { job_id, operation } ==> r.text@
            == "scheduler store recovered"@
            + " "@ + "job_id"@ + "="@ + job_id@
            + " "@ + "operation"@ + "="@ + (match operation { StoreOperation::Load => "Load"@, StoreOperation::Save => "Save"@, StoreOperation::Delete => "Delete"@ }),
        *event matches SchedulerEvent::StoreRecoveryFailed { job_id, operation, error } ==> r.text@
            == "scheduler store recovery failed"@
            + " "@ + "job_id"@ + "="@ + job_id@
            + " "@ + "operation"@ + "="@ + (match operation { StoreOperation::Load => "Load"@, StoreOperation::Save => "Save"@, StoreOperation::Delete => "Delete"@ })
            + " "@ + "error"@ + "="@ + error@,
        *event matches SchedulerEvent::StoreRecoveryConflict { job_id, operation, error } ==> r.text@
            == "scheduler store recovery conflict"@
            + " "@ + "job_id"@ + "="@ + job_id@
            + " "@ + "operation"@ + "="@ + (match operation { StoreOperation::Load => "Load"@, StoreOperation::Save => "Save"@, StoreOperation::Delete => "Delete"@ })
            + " "@ + "error"@ + "="@ + error@,
        *event matches SchedulerEvent::TerminalStateDeleted { job_id, trigger_count } ==> r.text@
            == "scheduler deleted terminal state"@
            + " "@ + "job_id"@ + "="@ + job_id@
            + " "@ + "trigger_count"@ + "="@ + text::decimal(trigger_count as nat),
        *event matches SchedulerEvent::SchedulerPaused { job_id, trigger_count, scope } ==> r.text@
            == "scheduler paused"@
            + " "@ + "job_id"@ + "="@ + job_id@
            + " "@ + "trigger_count"@ + "="@ + text::decimal(trigger_count as nat)
            + " "@ + "scope"@ + "="@ + (match scope { PauseScope::Local => "Local"@, PauseScope::Shared => "Shared"@ }),
        *event matches SchedulerEvent::SchedulerResumed { job_id, trigger_count, scope } ==> r.text@
            == "scheduler resumed"@
            + " "@ + "job_id"@ + "="@ + job_id@
            + " "@ + "trigger_count"@ + "="@ + text::decimal(trigger_count as nat)
            + " "@ + "scope"@ + "="@ + (match scope { PauseScope::Local => "Local"@, PauseScope::Shared => "Shared"@ }),
        *event matches SchedulerEvent::SchedulerStopped { job_id, trigger_count, reason } ==> r.text@
            == "scheduler stopped"@
            + " "@ + "job_id"@ + "="@ + job_id@
            + " "@ + "trigger_count"@ + "="@ + text::decimal(trigger_count as nat)
            + " "@ + "reason"@ + "="@ + (match reason { SchedulerStopReason::Cancelled => "Cancelled"@, SchedulerStopReason::Shutdown => "Shutdown"@, SchedulerStopReason::Terminal => "Terminal"@, SchedulerStopReason::ChannelClosed => "ChannelClosed"@ }),
{
}

} // verus!
