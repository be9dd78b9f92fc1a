//! States of jobs that are kept in Valkey, one key for each job.
use vstd::prelude::*;
use crate::error::{ExecutionGuardErrorKind, StoreErrorKind};
use crate::store::ResilientStoreError;
use crate::text::{self, join2, same_text};
use crate::valkey_runtime::{self, is_connection_issue, RedisErrorSigns};

verus! {

/// The prefix of the keys of states, unless another one is configured.
pub const DEFAULT_KEY_PREFIX: &'static str = "scheduler:valkey:job-state:";

/// The prefix that the keys of states once had.
pub const LEGACY_DEFAULT_KEY_PREFIX: &'static str = "scheduler:job-state:";

/// The key of the state of a job.
pub fn state_key(prefix: &str, job_id: &str) -> (r: String)
    ensures
        r@ == prefix@ + job_id@,
{
    join2(prefix, job_id)
}

/// The key that the state of a job once had, where the prefix is the one that
/// states have by default.
pub fn legacy_state_key(prefix: &str, job_id: &str) -> (r: Option<String>)
    ensures
        match r {
            Some(key) => prefix@ == DEFAULT_KEY_PREFIX@ && key@ == LEGACY_DEFAULT_KEY_PREFIX@
                + job_id@,
            None => prefix@ != DEFAULT_KEY_PREFIX@,
        },
{
    if same_text(prefix, DEFAULT_KEY_PREFIX) {
        Some(state_key(LEGACY_DEFAULT_KEY_PREFIX, job_id))
    } else {
        None
    }
}

/// What is to be done once the key of a state was read.
#[derive(Debug, PartialEq, Eq)]
pub enum LoadStep {
    /// This is the text of the state.
    Found(String),
    /// The key that the state once had is to be read.
    ReadLegacy(String),
    /// There is no state.
    Absent,
}

/// What is to be done once the key of a state was read: the key that the state
/// once had is read only where the first one is absent.
pub fn load_step(prefix: &str, job_id: &str, first: Option<String>) -> (r: LoadStep)
    ensures
        match first {
            Some(text) => r == LoadStep::Found(text),
            None => if prefix@ == DEFAULT_KEY_PREFIX@ {
                r matches LoadStep::ReadLegacy(key) && key@ == LEGACY_DEFAULT_KEY_PREFIX@ + job_id@
            } else {
                r == LoadStep::Absent
            },
        },
{
    match first {
        Some(text) => LoadStep::Found(text),
        None => match legacy_state_key(prefix, job_id) {
            Some(key) => LoadStep::ReadLegacy(key),
            None => LoadStep::Absent,
        },
    }
}

/// The keys that are deleted with the state of a job, in this order: the one
/// that it has, and the one that it once had, if any.
pub fn deleted_keys(prefix: &str, job_id: &str) -> (r: Vec<String>)
    ensures
        text::texts(r@) == if prefix@ == DEFAULT_KEY_PREFIX@ {
            seq![prefix@ + job_id@, LEGACY_DEFAULT_KEY_PREFIX@ + job_id@]
        } else {
            seq![prefix@ + job_id@]
        },
{
    let mut keys: Vec<String> = Vec::new();
    keys.push(state_key(prefix, job_id));
    match legacy_state_key(prefix, job_id) {
        Some(key) => {
            keys.push(key);
            assert(text::texts(keys@) =~= seq![
                prefix@ + job_id@,
                LEGACY_DEFAULT_KEY_PREFIX@ + job_id@,
            ]);
        },
        None => {
            assert(text::texts(keys@) =~= seq![prefix@ + job_id@]);
        },
    }
    keys
}

/// Two jobs never share a key.
pub proof fn law_state_keys_differ(prefix: Seq<char>, first: Seq<char>, second: Seq<char>)
    requires
        first != second,
    ensures
        prefix + first != prefix + second,
{
    if prefix + first == prefix + second {
        assert((prefix + first).skip(prefix.len() as int) =~= first);
        assert((prefix + second).skip(prefix.len() as int) =~= second);
    }
}

/// A failure of a store in Valkey.
#[derive(Debug)]
pub enum ValkeyStoreError {
    /// The client library failed.
    Redis { signs: RedisErrorSigns, message: String },
    /// A state could not be written or read as text.
    Codec { message: String },
    /// The server could not be reached in time.
    Unavailable,
}

/// Whether a failure means that the server cannot be reached.
pub open spec fn store_unreachable(error: ValkeyStoreError) -> bool {
    match error {
        ValkeyStoreError::Redis { signs, message } => valkey_runtime::connection_issue(signs),
        ValkeyStoreError::Codec { message } => false,
        ValkeyStoreError::Unavailable => true,
    }
}

impl ValkeyStoreError {
    /// Whether the failure means that the server cannot be reached.
    pub fn is_connection_issue(&self) -> (r: bool)
        ensures
            r == store_unreachable(*self),
    {
        match self {
            ValkeyStoreError::Redis { signs, message: _ } => is_connection_issue(signs),
            ValkeyStoreError::Codec { message: _ } => false,
            ValkeyStoreError::Unavailable => true,
        }
    }

    /// The text shown to people.
    pub fn to_string(&self) -> (r: String)
        ensures
            r@ == match *self {
                ValkeyStoreError::Redis { signs, message } => message@,
                ValkeyStoreError::Codec { message } => message@,
                ValkeyStoreError::Unavailable => "valkey is unavailable"@,
            },
    {
        match self {
            ValkeyStoreError::Redis { signs: _, message } => message.clone(),
            ValkeyStoreError::Codec { message } => message.clone(),
            ValkeyStoreError::Unavailable => "valkey is unavailable".to_owned(),
        }
    }
}

impl ResilientStoreError for ValkeyStoreError {
    fn is_connection_issue(&self) -> (r: bool)
        ensures
            r == store_unreachable(*self),
    {
        self.is_connection_issue()
    }
}

/// What a failure is to a store: data that cannot be read, a server that
/// cannot be reached, or something else.
pub fn classify_store_error(error: &ValkeyStoreError) -> (r: StoreErrorKind)
    ensures
        r == if *error is Codec {
            StoreErrorKind::Data
        } else if store_unreachable(*error) {
            StoreErrorKind::Connection
        } else {
            StoreErrorKind::Unknown
        },
{
    match error {
        ValkeyStoreError::Codec { message: _ } => StoreErrorKind::Data,
        _ => {
            if error.is_connection_issue() {
                StoreErrorKind::Connection
            } else {
                StoreErrorKind::Unknown
            }
        },
    }
}

/// What a failure is to a guard.
pub fn classify_guard_error(error: &ValkeyStoreError) -> (r: ExecutionGuardErrorKind)
    ensures
        r == if *error is Codec {
            ExecutionGuardErrorKind::Data
        } else if store_unreachable(*error) {
            ExecutionGuardErrorKind::Connection
        } else {
            ExecutionGuardErrorKind::Unknown
        },
{
    match error {
        ValkeyStoreError::Codec { message: _ } => ExecutionGuardErrorKind::Data,
        _ => {
            if error.is_connection_issue() {
                ExecutionGuardErrorKind::Connection
            } else {
                ExecutionGuardErrorKind::Unknown
            }
        },
    }
}

/// The key that a state once had is read only where the key that it has is
/// absent, and only under the prefix that states have by default.
pub proof fn law_call_load_step(prefix: &str, job_id: &str, first: Option<String>, r: LoadStep)
    requires
        call_ensures(load_step, (prefix, job_id, first), r),
    ensures
        first matches Some(text) ==> r == LoadStep::Found(text),
        first is None && prefix@ == "scheduler:valkey:job-state:"@ ==> r is ReadLegacy
            && r->ReadLegacy_0@ == "scheduler:job-state:"@ + job_id@,
        first is None && prefix@ != "scheduler:valkey:job-state:"@ ==> r is Absent,
{
}

/// A state is deleted under the key that it has and then under the one that it
/// once had, where it had one.
pub proof fn law_call_deleted_keys(prefix: &str, job_id: &str, r: Vec<String>)
    requires
        call_ensures(deleted_keys, (prefix, job_id), r),
    ensures
        r@.len() > 0,
        r@[0]@ == prefix@ + job_id@,
        prefix@ == "scheduler:valkey:job-state:"@ ==> r@.len() == 2 && r@[1]@
            == "scheduler:job-state:"@ + job_id@,
        prefix@ != "scheduler:valkey:job-state:"@ ==> r@.len() == 1,
{
    let views = text::texts(r@);
    assert(views.len() == r@.len());
    assert(views[0] == r@[0]@);
    if r@.len() == 2 {
        assert(views[1] == r@[1]@);
    }
}

/// A failure to write or read a text is wrong data. Any other failure is a
/// matter of the connection where it shows that the server cannot be reached,
/// and unknown otherwise; guard and store agree on it.
pub proof fn law_call_classify(
    error: &ValkeyStoreError,
    store: StoreErrorKind,
    guard: ExecutionGuardErrorKind,
    unreachable: bool,
)
    requires
        call_ensures(classify_store_error, (error,), store),
        call_ensures(classify_guard_error, (error,), guard),
        call_ensures(ValkeyStoreError::is_connection_issue, (error,), unreachable),
    ensures
        store == StoreErrorKind::Data <==> *error is Codec,
        store == StoreErrorKind::Connection <==> unreachable,
        guard == ExecutionGuardErrorKind::Data <==> store == StoreErrorKind::Data,
        guard == ExecutionGuardErrorKind::Connection <==> store == StoreErrorKind::Connection,
        *error is Unavailable ==> unreachable,
        *error is Codec ==> !unreachable,
        *error matches ValkeyStoreError::Redis { signs, message } ==> (unreachable
            <==> signs.connection_dropped || signs.connection_refused || signs.timed_out
            || signs.class != valkey_runtime::RedisErrorClass::Other),
{
}

} // verus!
