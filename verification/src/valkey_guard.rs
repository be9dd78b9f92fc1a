//! Leases that are kept in Valkey.
use vstd::prelude::*;
use crate::error::{ExecutionGuardError, ExecutionGuardErrorKind};
use crate::execution_guard::{
    ExecutionGuardAcquire, ExecutionGuardRenewal, ExecutionGuardScope, ExecutionLease,
    ExecutionSlot, LeaseView, SlotView,
};
use crate::text::join3;
use crate::time::Duration;
use crate::timestamp::{self, to_rfc3339};
use crate::valkey_execution_support::{self, resource_lock_key};
use crate::valkey_runtime::{
    self, is_connection_issue, RedisErrorSigns, ValkeyCommandOutcome,
};

verus! {

/// The prefix of the keys of leases, unless another one is configured.
pub const DEFAULT_KEY_PREFIX: &'static str = "scheduler:valkey:execution-lease:";

/// How long a lease lasts, and how often it is renewed.
#[derive(Debug, Clone, Copy, PartialEq, Eq)]
pub struct ValkeyLeaseConfig {
    pub ttl: Duration,
    pub renew_interval: Duration,
}

/// What is wrong with the configuration of leases.
#[derive(Debug)]
pub struct LeaseConfigError {
    message: &'static str,
}

impl View for LeaseConfigError {
    type V = Seq<char>;

    closed spec fn view(&self) -> Seq<char> {
        self.message@
    }
}

impl LeaseConfigError {
    /// The text shown to people.
    pub fn to_string(&self) -> (r: String)
        ensures
            r@ == self@,
    {
        self.message.to_owned()
    }
}

/// Why a guard failed.
#[derive(Debug)]
pub enum ValkeyExecutionGuardError {
    /// The client library failed.
    Redis { signs: RedisErrorSigns, message: String },
    Config(LeaseConfigError),
    /// The length of a lease does not fit into milliseconds.
    DurationOutOfRange,
    /// The server could not be reached in time.
    Unavailable,
}

impl ValkeyExecutionGuardError {
    /// The text shown to people.
    pub fn to_string(&self) -> (r: String)
        ensures
            r@ == match *self {
                ValkeyExecutionGuardError::Redis { signs, message } => message@,
                ValkeyExecutionGuardError::Config(error) => error@,
                ValkeyExecutionGuardError::DurationOutOfRange =>
                    "out of range integral type conversion attempted"@,
                ValkeyExecutionGuardError::Unavailable => "valkey is unavailable"@,
            },
    {
        match self {
            ValkeyExecutionGuardError::Redis { signs: _, message } => message.clone(),
            ValkeyExecutionGuardError::Config(error) => error.to_string(),
            ValkeyExecutionGuardError::DurationOutOfRange => {
                "out of range integral type conversion attempted".to_owned()
            },
            ValkeyExecutionGuardError::Unavailable => "valkey is unavailable".to_owned(),
        }
    }

    /// What the failure is to a scheduler: an error of the client library goes
    /// by what it shows, a server out of reach is a matter of the connection,
    /// and everything else is wrong data.
    pub fn kind(&self) -> (r: ExecutionGuardErrorKind)
        ensures
            r == match *self {
                ValkeyExecutionGuardError::Redis { signs, message } => {
                    if valkey_runtime::connection_issue(signs) {
                        ExecutionGuardErrorKind::Connection
                    } else {
                        ExecutionGuardErrorKind::Unknown
                    }
                },
                ValkeyExecutionGuardError::Unavailable => ExecutionGuardErrorKind::Connection,
                _ => ExecutionGuardErrorKind::Data,
            },
    {
        match self {
            ValkeyExecutionGuardError::Redis { signs, message: _ } => classify_redis_error(signs),
            ValkeyExecutionGuardError::Unavailable => ExecutionGuardErrorKind::Connection,
            ValkeyExecutionGuardError::Config(_)
            | ValkeyExecutionGuardError::DurationOutOfRange => ExecutionGuardErrorKind::Data,
        }
    }
}

/// What is wrong with leases of a length `ttl` that are renewed every
/// `renew_interval`; `None` is a valid configuration.
pub open spec fn config_error(ttl: int, renew_interval: int) -> Option<Seq<char>> {
    if ttl == 0 {
        Some("execution guard ttl must be greater than zero"@)
    } else if renew_interval == 0 {
        Some("execution guard renew_interval must be greater than zero"@)
    } else if renew_interval >= ttl {
        Some("execution guard renew_interval must be less than ttl"@)
    } else if ttl / 1_000_000 > u64::MAX {
        Some("execution guard ttl is too large to encode in milliseconds"@)
    } else {
        None
    }
}

impl ValkeyLeaseConfig {
    /// The first thing that is wrong with the configuration.
    fn first_error(&self) -> (r: Option<LeaseConfigError>)
        ensures
            match r {
                Some(error) => config_error(self.ttl@, self.renew_interval@) == Some(error@),
                None => config_error(self.ttl@, self.renew_interval@) is None,
            },
    {
        if self.ttl.is_zero() {
            return Some(
                LeaseConfigError { message: "execution guard ttl must be greater than zero" },
            );
        }
        if self.renew_interval.is_zero() {
            return Some(
                LeaseConfigError {
                    message: "execution guard renew_interval must be greater than zero",
                },
            );
        }
        if !self.renew_interval.shorter_than(&self.ttl) {
            return Some(
                LeaseConfigError { message: "execution guard renew_interval must be less than ttl" },
            );
        }
        if self.ttl.as_millis() > u64::MAX as u128 {
            return Some(
                LeaseConfigError {
                    message: "execution guard ttl is too large to encode in milliseconds",
                },
            );
        }
        None
    }

    /// Rejects spans of length zero, a lease that ends before it is renewed,
    /// and a length that does not fit into milliseconds.
    pub fn validate(self) -> (r: Result<Self, ExecutionGuardError>)
        ensures
            match r {
                Ok(config) => config == self && config_error(self.ttl@, self.renew_interval@) is None,
                Err(error) => config_error(self.ttl@, self.renew_interval@) == Some(error@.1)
                    && error@.0 == ExecutionGuardErrorKind::Data,
            },
    {
        match self.first_error() {
            Some(error) => Err(
                ExecutionGuardError::new(error.message, ExecutionGuardErrorKind::Data),
            ),
            None => Ok(self),
        }
    }

    /// The length of a lease in whole milliseconds, where it fits.
    pub fn ttl_millis(&self) -> (r: Result<u64, ValkeyExecutionGuardError>)
        ensures
            match r {
                Ok(millis) => millis == self.ttl@ / 1_000_000,
                Err(error) => {
                    &&& self.ttl@ / 1_000_000 > u64::MAX
                    &&& error is DurationOutOfRange
                },
            },
    {
        let millis: u128 = self.ttl.as_millis();
        if millis <= u64::MAX as u128 {
            Ok(millis as u64)
        } else {
            Err(ValkeyExecutionGuardError::DurationOutOfRange)
        }
    }
}

/// Leases of a valid configuration are renewed before they end.
pub proof fn law_valid_config_renews_in_time(ttl: int, renew_interval: int)
    requires
        config_error(ttl, renew_interval) is None,
        ttl >= 0,
        renew_interval >= 0,
    ensures
        0 < renew_interval < ttl,
{
}

/// The key of the lease of a slot: an occurrence by its job and its time, and
/// a resource by its name.
pub open spec fn guard_key(prefix: Seq<char>, slot: SlotView) -> Seq<char> {
    match slot.scope {
        ExecutionGuardScope::Occurrence => prefix + slot.job_id + ":"@ + timestamp::rfc3339(
            slot.scheduled_at->0,
        ),
        ExecutionGuardScope::Resource => valkey_execution_support::resource_key(
            prefix,
            slot.resource_id,
        ),
    }
}

/// The key of the lease of a slot. Two occurrences of a job, in the years 0 to
/// 9999, never share a key.
pub fn lease_key(prefix: &str, slot: &ExecutionSlot) -> (r: String)
    requires
        valkey_execution_support::slot_complete(slot@),
    ensures
        r@ == guard_key(prefix@, slot@),
        slot@.scope == ExecutionGuardScope::Occurrence && timestamp::has_four_digit_year(
            slot@.scheduled_at->0,
        ) ==> forall|other: SlotView|
            other.scope == slot@.scope && other.job_id == slot@.job_id && other.scheduled_at is Some
                && other.scheduled_at != slot@.scheduled_at && timestamp::has_four_digit_year(
                other.scheduled_at->0,
            ) ==> #[trigger] guard_key(prefix@, other) != r@,
{
    match slot.scope {
        ExecutionGuardScope::Occurrence => {
            let mut key = join3(prefix, slot.job_id.as_str(), ":");
            let ghost head = key@;
            let instant = to_rfc3339(slot.scheduled_at.unwrap());
            key.append(instant.as_str());
            proof {
                assert forall|other: int| head + timestamp::rfc3339(other) == head
                    + instant@ implies #[trigger] timestamp::rfc3339(other) == instant@ by {
                    assert((head + timestamp::rfc3339(other)).skip(head.len() as int)
                        =~= timestamp::rfc3339(other));
                    assert((head + instant@).skip(head.len() as int) =~= instant@);
                }
            }
            key
        },
        ExecutionGuardScope::Resource => resource_lock_key(prefix, slot.resource_id.as_str()),
    }
}

/// What becomes of a request for a lease. It is given where the server set the
/// key; where it was set already, and where the server cannot be reached, the
/// slot counts as taken.
pub fn acquire_outcome(
    slot: ExecutionSlot,
    token: &str,
    lease_key: &str,
    reply: ValkeyCommandOutcome<bool>,
) -> (r: ExecutionGuardAcquire)
    ensures
        reply == ValkeyCommandOutcome::Available(true) ==> (r matches ExecutionGuardAcquire::Acquired(
            lease,
        ) && lease@ == (LeaseView { slot: slot@, token: token@, lease_key: lease_key@ })),
        reply != ValkeyCommandOutcome::Available(true) ==> r is Contended,
{
    match reply {
        ValkeyCommandOutcome::Available(was_set) => {
            if was_set {
                ExecutionGuardAcquire::Acquired(ExecutionLease::for_slot(slot, token, lease_key))
            } else {
                ExecutionGuardAcquire::Contended
            }
        },
        ValkeyCommandOutcome::Degraded => ExecutionGuardAcquire::Contended,
    }
}

/// What becomes of a renewal: the lease goes on only where the server found
/// and extended it.
pub fn renewal_outcome(reply: ValkeyCommandOutcome<i64>) -> (r: ExecutionGuardRenewal)
    ensures
        r == if reply == ValkeyCommandOutcome::Available(1i64) {
            ExecutionGuardRenewal::Renewed
        } else {
            ExecutionGuardRenewal::Lost
        },
{
    match reply {
        ValkeyCommandOutcome::Available(renewed) => {
            if renewed == 1 {
                ExecutionGuardRenewal::Renewed
            } else {
                ExecutionGuardRenewal::Lost
            }
        },
        ValkeyCommandOutcome::Degraded => ExecutionGuardRenewal::Lost,
    }
}

/// What becomes of a release: it failed where the server cannot be reached, and
/// is done otherwise, also where the lease was gone already.
pub fn release_result(
    reply: ValkeyCommandOutcome<i64>,
) -> (r: Result<(), ValkeyExecutionGuardError>)
    ensures
        match reply {
            ValkeyCommandOutcome::Available(_) => r is Ok,
            ValkeyCommandOutcome::Degraded => r matches Err(error) && error is Unavailable,
        },
{
    match reply {
        ValkeyCommandOutcome::Available(_) => Ok(()),
        ValkeyCommandOutcome::Degraded => Err(ValkeyExecutionGuardError::Unavailable),
    }
}

/// What an error of the client library is to a guard.
pub fn classify_redis_error(signs: &RedisErrorSigns) -> (r: ExecutionGuardErrorKind)
    ensures
        r == if valkey_runtime::connection_issue(*signs) {
            ExecutionGuardErrorKind::Connection
        } else {
            ExecutionGuardErrorKind::Unknown
        },
{
    if is_connection_issue(signs) {
        ExecutionGuardErrorKind::Connection
    } else {
        ExecutionGuardErrorKind::Unknown
    }
}

/// A configuration holds exactly where a lease is renewed before it ends and its
/// length fits into milliseconds; the first thing that is wrong is told, as
/// wrong data.
pub proof fn law_call_validate(
    config: ValkeyLeaseConfig,
    r: Result<ValkeyLeaseConfig, ExecutionGuardError>,
)
    requires
        call_ensures(ValkeyLeaseConfig::validate, (config,), r),
        config.ttl@ >= 0,
        config.renew_interval@ >= 0,
    ensures
        r is Ok <==> 0 < config.renew_interval@ < config.ttl@ && config.ttl@ / 1_000_000
            <= 0xffff_ffff_ffff_ffff,
        r is Ok ==> r->Ok_0 == config,
        r is Err ==> r->Err_0@.0 == ExecutionGuardErrorKind::Data,
        config.ttl@ == 0 ==> r->Err_0@.1 == "execution guard ttl must be greater than zero"@,
        config.ttl@ > 0 && config.renew_interval@ == 0 ==> r->Err_0@.1
            == "execution guard renew_interval must be greater than zero"@,
        config.renew_interval@ >= config.ttl@ > 0 ==> r->Err_0@.1
            == "execution guard renew_interval must be less than ttl"@,
        0 < config.renew_interval@ < config.ttl@ && config.ttl@ / 1_000_000
            > 0xffff_ffff_ffff_ffff ==> r->Err_0@.1
            == "execution guard ttl is too large to encode in milliseconds"@,
{
}

/// An occurrence is leased by its job and its time, whatever its resource, and
/// a resource by its name, whatever the job.
pub proof fn law_call_lease_key(prefix: &str, slot: &ExecutionSlot, r: String)
    requires
        call_ensures(lease_key, (prefix, slot), r),
    ensures
        slot.scope == ExecutionGuardScope::Occurrence && slot@.scheduled_at is Some ==> r@
            == prefix@ + slot.job_id@ + ":"@ + timestamp::rfc3339(slot@.scheduled_at->0),
        slot.scope == ExecutionGuardScope::Resource ==> r@ == prefix@ + slot.resource_id@
            + ":resource"@,
{
}

/// A slot is given exactly where the server set its key, and then as it was
/// asked for; a server out of reach gives none.
pub proof fn law_call_acquire(
    slot: ExecutionSlot,
    token: &str,
    lease_key: &str,
    reply: ValkeyCommandOutcome<bool>,
    r: ExecutionGuardAcquire,
)
    requires
        call_ensures(acquire_outcome, (slot, token, lease_key, reply), r),
    ensures
        r is Acquired <==> reply == ValkeyCommandOutcome::Available(true),
        r matches ExecutionGuardAcquire::Acquired(lease) ==> {
            &&& lease.job_id@ == slot.job_id@
            &&& lease.resource_id@ == slot.resource_id@
            &&& lease.scope == slot.scope
            &&& lease@.slot.scheduled_at == slot@.scheduled_at
            &&& lease.token@ == token@
            &&& lease.lease_key@ == lease_key@
        },
{
    if let ExecutionGuardAcquire::Acquired(lease) = r {
        assert(lease@.slot.job_id == lease.job_id@ && slot@.job_id == slot.job_id@);
    }
}

/// A lease goes on exactly where the server extended one; what it answers
/// otherwise, and that it does not answer, both count as lost. A release fails
/// only where the server does not answer.
pub proof fn law_call_renew_and_release(
    reply: ValkeyCommandOutcome<i64>,
    renewed: ExecutionGuardRenewal,
    released: Result<(), ValkeyExecutionGuardError>,
)
    requires
        call_ensures(renewal_outcome, (reply,), renewed),
        call_ensures(release_result, (reply,), released),
    ensures
        renewed == ExecutionGuardRenewal::Renewed <==> reply == ValkeyCommandOutcome::Available(
            1i64,
        ),
        released is Err <==> reply == ValkeyCommandOutcome::<i64>::Degraded,
        released is Err ==> released->Err_0 is Unavailable,
{
}

/// What an error is to a guard: one of the client library a matter of the
/// connection where it shows that, and unknown otherwise.
pub proof fn law_call_kind(error: &ValkeyExecutionGuardError, r: ExecutionGuardErrorKind)
    requires
        call_ensures(ValkeyExecutionGuardError::kind, (error,), r),
    ensures
        *error is Unavailable ==> r == ExecutionGuardErrorKind::Connection,
        *error is Config || *error is DurationOutOfRange ==> r == ExecutionGuardErrorKind::Data,
        *error matches ValkeyExecutionGuardError::Redis { signs, message } ==> {
            &&& r != ExecutionGuardErrorKind::Data
            &&& r == ExecutionGuardErrorKind::Connection <==> signs.connection_dropped
                || signs.connection_refused || signs.timed_out || signs.class
                != valkey_runtime::RedisErrorClass::Other
        },
{
}

/// Leases have a prefix of their own.
pub proof fn law_default_prefix()
    ensures
        DEFAULT_KEY_PREFIX@ == "scheduler:valkey:execution-lease:"@,
{
}

} // verus!
