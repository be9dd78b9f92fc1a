//! Calls of the scripts that change the shared state in one step.
use vstd::prelude::*;
use crate::text;
use crate::valkey_runtime::ValkeyCommandOutcome;
use crate::valkey_store::ValkeyStoreError;

verus! {

#[derive(Debug, Clone, Copy, PartialEq, Eq, Structural)]
pub enum CoordinatedScript {
    SaveState,
    ReclaimInflight,
    ClaimTrigger,
    RenewLease,
    Complete,
    Pause,
    Resume,
}

/// What a [`ScriptCall`] says.
pub struct CallView {
    pub script: CoordinatedScript,
    pub keys: Seq<Seq<char>>,
    pub args: Seq<Seq<char>>,
}

/// A call of a script: the keys that it works on and its arguments, as they are
/// sent.
#[derive(Debug)]
pub struct ScriptCall {
    pub script: CoordinatedScript,
    pub keys: Vec<String>,
    pub args: Vec<String>,
}

impl View for ScriptCall {
    type V = CallView;

    open spec fn view(&self) -> CallView {
        CallView {
            script: self.script,
            keys: text::texts(self.keys@),
            args: text::texts(self.args@),
        }
    }
}

/// A truth value as it is sent.
pub open spec fn flag_name(flag: bool) -> Seq<char> {
    if flag {
        "1"@
    } else {
        "0"@
    }
}

pub fn flag_text(flag: bool) -> (r: String)
    ensures
        r@ == flag_name(flag),
{
    if flag {
        "1".to_owned()
    } else {
        "0".to_owned()
    }
}

/// The answer of the server, or the failure to reach it.
pub fn available<T>(outcome: ValkeyCommandOutcome<T>) -> (r: Result<T, ValkeyStoreError>)
    ensures
        r == match outcome {
            ValkeyCommandOutcome::Available(value) => Ok(value),
            ValkeyCommandOutcome::Degraded => Err(ValkeyStoreError::Unavailable),
        },
{
    match outcome {
        ValkeyCommandOutcome::Available(value) => Ok(value),
        ValkeyCommandOutcome::Degraded => Err(ValkeyStoreError::Unavailable),
    }
}

/// Whether a script changed what it was called for: it answers with 1 where it
/// did. A server that cannot be reached is a failure, and never a change.
pub fn was_applied(outcome: ValkeyCommandOutcome<i64>) -> (r: Result<bool, ValkeyStoreError>)
    ensures
        r == match outcome {
            ValkeyCommandOutcome::Available(answer) => Ok(answer == 1),
            ValkeyCommandOutcome::Degraded => Err(ValkeyStoreError::Unavailable),
        },
{
    match outcome {
        ValkeyCommandOutcome::Available(answer) => Ok(answer == 1),
        ValkeyCommandOutcome::Degraded => Err(ValkeyStoreError::Unavailable),
    }
}

/// A script changed something exactly where it answers with one; a server that
/// does not answer is a failure.
pub proof fn law_call_applied(
    outcome: ValkeyCommandOutcome<i64>,
    applied: Result<bool, ValkeyStoreError>,
    answer: Result<i64, ValkeyStoreError>,
)
    requires
        call_ensures(was_applied, (outcome,), applied),
        call_ensures(available::<i64>, (outcome,), answer),
    ensures
        applied is Err <==> outcome is Degraded,
        applied == Ok::<bool, ValkeyStoreError>(true) <==> outcome
            == ValkeyCommandOutcome::Available(1i64),
        answer is Err <==> outcome is Degraded,
        answer matches Ok(value) ==> outcome == ValkeyCommandOutcome::Available(value),
        applied is Err ==> applied->Err_0 is Unavailable && answer->Err_0 is Unavailable,
{
}

/// A truth value is sent as one or zero.
pub proof fn law_call_flag(flag: bool, r: String)
    requires
        call_ensures(flag_text, (flag,), r),
    ensures
        flag ==> r@ == "1"@,
        !flag ==> r@ == "0"@,
{
}

} // verus!
