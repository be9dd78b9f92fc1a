//! Loading, saving and pausing the shared state of a job.
use vstd::prelude::*;
use crate::coordinated_store::CoordinatedRuntimeState;
use crate::model::state::JobState;
use crate::text::{self, decimal_text, same_text};
use crate::valkey_coordinated_store::keys::{
    CoordinatedKeys, KeysView, FIELD_INFLIGHT_TOKEN, FIELD_PAUSED, FIELD_STATE, FIELD_VERSION,
};
use crate::valkey_coordinated_store::scripts::{CallView, CoordinatedScript, ScriptCall};

verus! {

/// The call that saves a state if the version is still the expected one.
pub open spec fn save_call(
    keys: KeysView,
    job_id: Seq<char>,
    revision: nat,
    payload: Seq<char>,
    now_millis: nat,
) -> CallView {
    CallView {
        script: CoordinatedScript::SaveState,
        keys: seq![keys.state_key(job_id), keys.inflight_key(job_id)],
        args: seq![
            FIELD_VERSION@,
            text::decimal(revision),
            FIELD_INFLIGHT_TOKEN@,
            FIELD_STATE@,
            payload,
            text::decimal(now_millis),
        ],
    }
}

/// Asks to save a state, written as `payload`, if its version is still
/// `revision`.
pub fn save_runtime_state(
    keys: &CoordinatedKeys,
    job_id: &str,
    revision: u64,
    payload: String,
    now_millis: u64,
) -> (r: ScriptCall)
    ensures
        r@ == save_call(keys@, job_id@, revision as nat, payload@, now_millis as nat),
{
    let mut call_keys: Vec<String> = Vec::new();
    call_keys.push(keys.state_key(job_id));
    call_keys.push(keys.inflight_index_key(job_id));
    let mut args: Vec<String> = Vec::new();
    args.push(FIELD_VERSION.to_owned());
    args.push(decimal_text(revision as u128));
    args.push(FIELD_INFLIGHT_TOKEN.to_owned());
    args.push(FIELD_STATE.to_owned());
    args.push(payload);
    args.push(decimal_text(now_millis as u128));
    let call = ScriptCall { script: CoordinatedScript::SaveState, keys: call_keys, args };
    proof {
        let expected = save_call(keys@, job_id@, revision as nat, payload@, now_millis as nat);
        assert(call@.keys =~= expected.keys);
        assert(call@.args =~= expected.args);
    }
    call
}

/// The call that pauses a job, or resumes it.
pub open spec fn pause_call(keys: KeysView, job_id: Seq<char>, paused: bool) -> CallView {
    CallView {
        script: if paused {
            CoordinatedScript::Pause
        } else {
            CoordinatedScript::Resume
        },
        keys: seq![keys.state_key(job_id)],
        args: seq![FIELD_PAUSED@],
    }
}

/// Asks to pause a job, or to resume it.
pub fn set_pause(keys: &CoordinatedKeys, job_id: &str, paused: bool) -> (r: ScriptCall)
    ensures
        r@ == pause_call(keys@, job_id@, paused),
{
    let mut call_keys: Vec<String> = Vec::new();
    call_keys.push(keys.state_key(job_id));
    let mut args: Vec<String> = Vec::new();
    args.push(FIELD_PAUSED.to_owned());
    let script = if paused {
        CoordinatedScript::Pause
    } else {
        CoordinatedScript::Resume
    };
    let call = ScriptCall { script, keys: call_keys, args };
    proof {
        let expected = pause_call(keys@, job_id@, paused);
        assert(call@.keys =~= expected.keys);
        assert(call@.args =~= expected.args);
    }
    call
}

/// What is asked of the server next while a state is loaded.
#[derive(Debug)]
pub enum LoadRequest {
    /// The type of a key.
    Type { key: String },
    /// The fields of a key.
    Hash { key: String },
    /// The text of a key.
    Text { key: String },
    /// Puts fields in place of whatever a key holds.
    Write { key: String, runtime: CoordinatedRuntimeState },
    Delete { key: String },
    /// Nothing more: this is the state.
    Done { runtime: CoordinatedRuntimeState },
}

/// What a [`LoadRequest`] says.
pub enum RequestView {
    Type(Seq<char>),
    Hash(Seq<char>),
    Text(Seq<char>),
    Write(Seq<char>, CoordinatedRuntimeState),
    Delete(Seq<char>),
    Done(CoordinatedRuntimeState),
}

impl View for LoadRequest {
    type V = RequestView;

    open spec fn view(&self) -> RequestView {
        match self {
            LoadRequest::Type { key } => RequestView::Type(key@),
            LoadRequest::Hash { key } => RequestView::Hash(key@),
            LoadRequest::Text { key } => RequestView::Text(key@),
            LoadRequest::Write { key, runtime } => RequestView::Write(key@, *runtime),
            LoadRequest::Delete { key } => RequestView::Delete(key@),
            LoadRequest::Done { runtime } => RequestView::Done(*runtime),
        }
    }
}

/// The answer to a [`LoadRequest`]. Fields and texts are handed over as what
/// they hold, and as nothing where the key holds nothing.
#[derive(Debug)]
pub enum LoadReply {
    Type(String),
    Hash(Option<CoordinatedRuntimeState>),
    Text(Option<JobState>),
    Written,
    Deleted,
}

/// Where the loading of a state stands.
#[derive(Debug)]
pub enum LoadPhase {
    TypeOfKey,
    HashOfKey,
    TextOfKey,
    /// The text of the key is being rewritten as fields.
    Migrating(CoordinatedRuntimeState),
    TypeOfLegacyKey,
    TextOfLegacyKey,
    /// The text of the legacy key is being written as fields.
    MigratingLegacy(CoordinatedRuntimeState),
    DroppingLegacy(CoordinatedRuntimeState),
    WritingInitial,
    Finished,
}

/// The loading of a shared state. Fields are taken as they are; a text, under
/// the key or under the legacy key, is rewritten as fields; where there is
/// nothing, the initial state is written.
#[derive(Debug)]
pub struct StateLoad {
    key: String,
    legacy_key: Option<String>,
    initial_state: JobState,
    phase: LoadPhase,
}

/// What a [`StateLoad`] says.
pub struct LoadView {
    pub key: Seq<char>,
    pub legacy_key: Option<Seq<char>>,
    pub initial_state: JobState,
    pub phase: LoadPhase,
}

impl View for StateLoad {
    type V = LoadView;

    closed spec fn view(&self) -> LoadView {
        LoadView {
            key: self.key@,
            legacy_key: match self.legacy_key {
                Some(key) => Some(key@),
                None => None,
            },
            initial_state: self.initial_state,
            phase: self.phase,
        }
    }
}

/// A state in its first version, not paused.
pub open spec fn first_version(state: JobState) -> CoordinatedRuntimeState {
    CoordinatedRuntimeState { state, revision: 0, paused: false }
}

/// Whether a reply answers what a phase waits for.
pub open spec fn answers(phase: LoadPhase, reply: LoadReply) -> bool {
    match phase {
        LoadPhase::TypeOfKey | LoadPhase::TypeOfLegacyKey => reply is Type,
        LoadPhase::HashOfKey => reply is Hash,
        LoadPhase::TextOfKey | LoadPhase::TextOfLegacyKey => reply is Text,
        LoadPhase::Migrating(_) | LoadPhase::MigratingLegacy(_)
        | LoadPhase::WritingInitial => reply is Written,
        LoadPhase::DroppingLegacy(_) => reply is Deleted,
        LoadPhase::Finished => false,
    }
}

/// The first thing that is asked for: the type of the key.
pub open spec fn load_started(
    keys: KeysView,
    job_id: Seq<char>,
    initial_state: JobState,
) -> (LoadView, RequestView) {
    (
        LoadView {
            key: keys.state_key(job_id),
            legacy_key: keys.legacy_key(job_id),
            initial_state,
            phase: LoadPhase::TypeOfKey,
        },
        RequestView::Type(keys.state_key(job_id)),
    )
}

/// The key held nothing of use: on to the legacy key, if there is one, and to
/// the initial state otherwise.
pub open spec fn nothing_under_key(load: LoadView) -> (LoadPhase, RequestView) {
    match load.legacy_key {
        Some(key) => (LoadPhase::TypeOfLegacyKey, RequestView::Type(key)),
        None => nothing_stored(load),
    }
}

/// Nothing is stored: the initial state is written.
pub open spec fn nothing_stored(load: LoadView) -> (LoadPhase, RequestView) {
    (
        LoadPhase::WritingInitial,
        RequestView::Write(load.key, first_version(load.initial_state)),
    )
}

/// What follows from an answer: where the loading then stands, and what is
/// asked for next.
pub open spec fn load_step(load: LoadView, reply: LoadReply) -> (LoadPhase, RequestView) {
    match (load.phase, reply) {
        (LoadPhase::TypeOfKey, LoadReply::Type(name)) => if name@ == "hash"@ {
            (LoadPhase::HashOfKey, RequestView::Hash(load.key))
        } else if name@ == "string"@ {
            (LoadPhase::TextOfKey, RequestView::Text(load.key))
        } else {
            nothing_under_key(load)
        },
        (LoadPhase::HashOfKey, LoadReply::Hash(Some(runtime))) => (
            LoadPhase::Finished,
            RequestView::Done(runtime),
        ),
        (LoadPhase::HashOfKey, _) => nothing_under_key(load),
        (LoadPhase::TextOfKey, LoadReply::Text(Some(state))) => (
            LoadPhase::Migrating(first_version(state)),
            RequestView::Write(load.key, first_version(state)),
        ),
        (LoadPhase::TextOfKey, _) => nothing_under_key(load),
        (LoadPhase::Migrating(runtime), _) => (LoadPhase::Finished, RequestView::Done(runtime)),
        (LoadPhase::TypeOfLegacyKey, LoadReply::Type(name)) => if name@ == "string"@ {
            (LoadPhase::TextOfLegacyKey, RequestView::Text(load.legacy_key->0))
        } else {
            nothing_stored(load)
        },
        (LoadPhase::TextOfLegacyKey, LoadReply::Text(Some(state))) => (
            LoadPhase::MigratingLegacy(first_version(state)),
            RequestView::Write(load.key, first_version(state)),
        ),
        (LoadPhase::MigratingLegacy(runtime), _) => (
            LoadPhase::DroppingLegacy(runtime),
            RequestView::Delete(load.legacy_key->0),
        ),
        (LoadPhase::DroppingLegacy(runtime), _) => (
            LoadPhase::Finished,
            RequestView::Done(runtime),
        ),
        (LoadPhase::WritingInitial, _) => (
            LoadPhase::Finished,
            RequestView::Done(first_version(load.initial_state)),
        ),
        _ => nothing_stored(load),
    }
}

/// Whether the legacy key is known where it is being read.
pub open spec fn legacy_key_known(load: LoadView) -> bool {
    match load.phase {
        LoadPhase::TypeOfLegacyKey | LoadPhase::TextOfLegacyKey
        | LoadPhase::MigratingLegacy(_) => load.legacy_key is Some,
        _ => true,
    }
}

impl StateLoad {
    #[verifier::type_invariant]
    spec fn consistent(self) -> bool {
        legacy_key_known(self@)
    }

    /// Starts to load the state of a job.
    pub fn start(keys: &CoordinatedKeys, job_id: &str, initial_state: JobState) -> (r: (Self, LoadRequest))
        ensures
            (r.0@, r.1@) == load_started(keys@, job_id@, initial_state),
    {
        let key = keys.state_key(job_id);
        let legacy_key = keys.legacy_state_key(job_id);
        let request = LoadRequest::Type { key: key.clone() };
        (StateLoad { key, legacy_key, initial_state, phase: LoadPhase::TypeOfKey }, request)
    }

    /// Takes in an answer.
    pub fn on_reply(self, reply: LoadReply) -> (r: (Self, LoadRequest))
        requires
            answers(self@.phase, reply),
        ensures
            r.0@ == (LoadView { phase: load_step(self@, reply).0, ..self@ }),
            r.1@ == load_step(self@, reply).1,
    {
        proof {
            use_type_invariant(&self);
        }
        let StateLoad { key, legacy_key, initial_state, phase } = self;
        let (phase, request) = match (phase, reply) {
            (LoadPhase::TypeOfKey, LoadReply::Type(name)) => {
                if same_text(name.as_str(), "hash") {
                    (LoadPhase::HashOfKey, LoadRequest::Hash { key: key.clone() })
                } else if same_text(name.as_str(), "string") {
                    (LoadPhase::TextOfKey, LoadRequest::Text { key: key.clone() })
                } else {
                    Self::past_key(&key, &legacy_key, &initial_state)
                }
            },
            (LoadPhase::HashOfKey, LoadReply::Hash(Some(runtime))) => (
                LoadPhase::Finished,
                LoadRequest::Done { runtime },
            ),
            (LoadPhase::HashOfKey, _) => Self::past_key(&key, &legacy_key, &initial_state),
            (LoadPhase::TextOfKey, LoadReply::Text(Some(state))) => {
                let runtime = CoordinatedRuntimeState { state, revision: 0, paused: false };
                (
                    LoadPhase::Migrating(runtime.clone()),
                    LoadRequest::Write { key: key.clone(), runtime },
                )
            },
            (LoadPhase::TextOfKey, _) => Self::past_key(&key, &legacy_key, &initial_state),
            (LoadPhase::Migrating(runtime), _) => (
                LoadPhase::Finished,
                LoadRequest::Done { runtime },
            ),
            (LoadPhase::TypeOfLegacyKey, LoadReply::Type(name)) => {
                if same_text(name.as_str(), "string") {
                    let wanted = match &legacy_key {
                        Some(value) => value.clone(),
                        None => key.clone(),
                    };
                    (LoadPhase::TextOfLegacyKey, LoadRequest::Text { key: wanted })
                } else {
                    Self::past_all(&key, &initial_state)
                }
            },
            (LoadPhase::TextOfLegacyKey, LoadReply::Text(Some(state))) => {
                let runtime = CoordinatedRuntimeState { state, revision: 0, paused: false };
                (
                    LoadPhase::MigratingLegacy(runtime.clone()),
                    LoadRequest::Write { key: key.clone(), runtime },
                )
            },
            (LoadPhase::MigratingLegacy(runtime), _) => {
                let dropped = match &legacy_key {
                    Some(value) => value.clone(),
                    None => key.clone(),
                };
                (LoadPhase::DroppingLegacy(runtime), LoadRequest::Delete { key: dropped })
            },
            (LoadPhase::DroppingLegacy(runtime), _) => (
                LoadPhase::Finished,
                LoadRequest::Done { runtime },
            ),
            (LoadPhase::WritingInitial, _) => {
                let runtime = CoordinatedRuntimeState {
                    state: initial_state.clone(),
                    revision: 0,
                    paused: false,
                };
                (LoadPhase::Finished, LoadRequest::Done { runtime })
            },
            _ => Self::past_all(&key, &initial_state),
        };
        (StateLoad { key, legacy_key, initial_state, phase }, request)
    }

    fn past_key(
        key: &String,
        legacy_key: &Option<String>,
        initial_state: &JobState,
    ) -> (r: (LoadPhase, LoadRequest))
        ensures
            forall|load: LoadView|
                load.key == key@ && load.initial_state == *initial_state && load.legacy_key == (
                match *legacy_key {
                    Some(value) => Some(value@),
                    None => None,
                }) ==> (r.0, r.1@) == #[trigger] nothing_under_key(load),
            r.0 is TypeOfLegacyKey ==> *legacy_key is Some,
            r.0 is TypeOfLegacyKey || r.0 is WritingInitial,
    {
        match legacy_key {
            Some(value) => (LoadPhase::TypeOfLegacyKey, LoadRequest::Type { key: value.clone() }),
            None => Self::past_all(key, initial_state),
        }
    }

    fn past_all(key: &String, initial_state: &JobState) -> (r: (LoadPhase, LoadRequest))
        ensures
            r.0 is WritingInitial,
            r.1@ == RequestView::Write(key@, first_version(*initial_state)),
    {
        let runtime = CoordinatedRuntimeState {
            state: initial_state.clone(),
            revision: 0,
            paused: false,
        };
        (LoadPhase::WritingInitial, LoadRequest::Write { key: key.clone(), runtime })
    }
}

/// Where the loading stands after an answer.
pub open spec fn loaded_on(load: LoadView, reply: LoadReply) -> LoadView {
    LoadView { phase: load_step(load, reply).0, ..load }
}

/// Fields that are there are the state: nothing is written.
pub proof fn law_fields_are_taken(
    keys: KeysView,
    job_id: Seq<char>,
    initial_state: JobState,
    name: String,
    runtime: CoordinatedRuntimeState,
)
    requires
        name@ == "hash"@,
    ensures
        ({
            let start = load_started(keys, job_id, initial_state).0;
            let typed = loaded_on(start, LoadReply::Type(name));
            &&& load_step(start, LoadReply::Type(name)).1 == RequestView::Hash(
                keys.state_key(job_id),
            )
            &&& load_step(typed, LoadReply::Hash(Some(runtime))).1 == RequestView::Done(runtime)
        }),
{
}

/// A text under the key is rewritten as fields, in its first version and not
/// paused, and is then the state.
pub proof fn law_text_is_migrated(
    keys: KeysView,
    job_id: Seq<char>,
    initial_state: JobState,
    name: String,
    state: JobState,
)
    requires
        name@ == "string"@,
    ensures
        ({
            let start = load_started(keys, job_id, initial_state).0;
            let typed = loaded_on(start, LoadReply::Type(name));
            let read = loaded_on(typed, LoadReply::Text(Some(state)));
            &&& load_step(typed, LoadReply::Text(Some(state))).1 == RequestView::Write(
                keys.state_key(job_id),
                first_version(state),
            )
            &&& load_step(read, LoadReply::Written).1 == RequestView::Done(first_version(state))
        }),
{
    reveal_strlit("hash");
    reveal_strlit("string");
    assert("hash"@.len() != "string"@.len());
}

/// A text under the legacy key, where the key itself holds nothing, is written
/// as fields under the key before it is dropped, and is then the state.
pub proof fn law_legacy_text_is_migrated(
    keys: KeysView,
    job_id: Seq<char>,
    initial_state: JobState,
    none: String,
    name: String,
    state: JobState,
)
    requires
        keys.state == crate::valkey_coordinated_store::keys::DEFAULT_STATE_KEY_PREFIX@,
        none@ == "none"@,
        name@ == "string"@,
    ensures
        ({
            let legacy = keys.legacy_key(job_id)->0;
            let start = load_started(keys, job_id, initial_state).0;
            let typed = loaded_on(start, LoadReply::Type(none));
            let legacy_typed = loaded_on(typed, LoadReply::Type(name));
            let read = loaded_on(legacy_typed, LoadReply::Text(Some(state)));
            let written = loaded_on(read, LoadReply::Written);
            &&& load_step(start, LoadReply::Type(none)).1 == RequestView::Type(legacy)
            &&& load_step(typed, LoadReply::Type(name)).1 == RequestView::Text(legacy)
            &&& load_step(legacy_typed, LoadReply::Text(Some(state))).1 == RequestView::Write(
                keys.state_key(job_id),
                first_version(state),
            )
            &&& load_step(read, LoadReply::Written).1 == RequestView::Delete(legacy)
            &&& load_step(written, LoadReply::Deleted).1 == RequestView::Done(first_version(state))
        }),
{
    reveal_strlit("hash");
    reveal_strlit("string");
    reveal_strlit("none");
    assert("none"@.len() != "string"@.len());
    assert("none"@[0] != "hash"@[0]);
}

/// Loading ends within six answers, and the only states that it ever writes
/// are in their first version.
pub proof fn law_load_writes_first_versions(load: LoadView, reply: LoadReply)
    requires
        answers(load.phase, reply),
    ensures
        load_step(load, reply).1 matches RequestView::Write(key, runtime) ==> key == load.key
            && runtime.revision == 0 && !runtime.paused,
        steps_left(load_step(load, reply).0) < steps_left(load.phase),
        load_step(load, reply).1 is Done <==> load_step(load, reply).0 is Finished,
{
}

/// How many answers a loading still waits for at most.
pub open spec fn steps_left(phase: LoadPhase) -> nat {
    match phase {
        LoadPhase::TypeOfKey => 6,
        LoadPhase::HashOfKey | LoadPhase::TextOfKey => 5,
        LoadPhase::TypeOfLegacyKey => 4,
        LoadPhase::TextOfLegacyKey => 3,
        LoadPhase::MigratingLegacy(_) => 2,
        LoadPhase::Migrating(_) | LoadPhase::DroppingLegacy(_) | LoadPhase::WritingInitial => 1,
        LoadPhase::Finished => 0,
    }
}

/// A state is saved under the version that is expected, and a job is paused and
/// resumed by its own scripts.
pub proof fn law_call_save_and_pause(
    keys: &CoordinatedKeys,
    job_id: &str,
    revision: u64,
    payload: String,
    now_millis: u64,
    paused: bool,
    save: ScriptCall,
    pause: ScriptCall,
)
    requires
        call_ensures(save_runtime_state, (keys, job_id, revision, payload, now_millis), save),
        call_ensures(set_pause, (keys, job_id, paused), pause),
    ensures
        save.script == CoordinatedScript::SaveState,
        save@.keys == seq![
            keys.state_key_prefix@ + job_id@,
            keys.state_key_prefix@ + job_id@ + ":inflight"@,
        ],
        save@.args == seq![
            "version"@,
            text::decimal(revision as nat),
            "inflight_token"@,
            "state"@,
            payload@,
            text::decimal(now_millis as nat),
        ],
        paused ==> pause.script == CoordinatedScript::Pause,
        !paused ==> pause.script == CoordinatedScript::Resume,
        pause@.keys == seq![keys.state_key_prefix@ + job_id@],
        pause@.args == seq!["paused"@],
{
}

/// Loading starts with the type of the key, and keeps its keys and its initial
/// state from then on.
pub proof fn law_call_load_start(
    keys: &CoordinatedKeys,
    job_id: &str,
    initial: JobState,
    r: (StateLoad, LoadRequest),
)
    requires
        call_ensures(StateLoad::start, (keys, job_id, initial), r),
    ensures
        r.0@.phase is TypeOfKey,
        r.0@.key == keys.state_key_prefix@ + job_id@,
        r.0@.initial_state == initial,
        r.0@.legacy_key is Some <==> keys.state_key_prefix@ == "scheduler:valkey:job-state:"@,
        r.0@.legacy_key is Some ==> r.0@.legacy_key->0 == "scheduler:job-state:"@ + job_id@,
        r.1@ == RequestView::Type(keys.state_key_prefix@ + job_id@),
{
}

/// The type of the key decides how it is read. A key of another type, and one
/// that turns out to hold nothing, is passed over: for the legacy key where
/// there is one, and for the initial state otherwise.
pub proof fn law_call_load_key(load: StateLoad, reply: LoadReply, r: (StateLoad, LoadRequest))
    requires
        call_ensures(StateLoad::on_reply, (load, reply), r),
        answers(load@.phase, reply),
        load@.phase is TypeOfKey || load@.phase is HashOfKey || load@.phase is TextOfKey,
    ensures
        reply matches LoadReply::Type(name) ==> {
            &&& name@ == "hash"@ ==> r.1@ == RequestView::Hash(load@.key) && r.0@.phase is HashOfKey
            &&& name@ == "string"@ ==> r.1@ == RequestView::Text(load@.key) && r.0@.phase
                is TextOfKey
        },
        reply matches LoadReply::Hash(Some(found)) ==> r.1@ == RequestView::Done(found),
        reply matches LoadReply::Text(Some(state)) ==> {
            &&& r.1@ matches RequestView::Write(key, written)
            &&& key == load@.key
            &&& written.state == state
            &&& written.revision == 0
            &&& !written.paused
            &&& r.0@.phase == LoadPhase::Migrating(written)
        },
        reply == LoadReply::Hash(None) || reply == LoadReply::Text(None) || (reply is Type
            && reply->Type_0@ != "hash"@ && reply->Type_0@ != "string"@) ==> {
            &&& load@.legacy_key matches Some(key) ==> r.1@ == RequestView::Type(key) && r.0@.phase
                is TypeOfLegacyKey
            &&& load@.legacy_key is None ==> {
                &&& r.1@ matches RequestView::Write(key, written)
                &&& key == load@.key
                &&& written.state == load@.initial_state
                &&& written.revision == 0
                &&& !written.paused
                &&& r.0@.phase is WritingInitial
            }
        },
        r.0@.key == load@.key,
        r.0@.legacy_key == load@.legacy_key,
        r.0@.initial_state == load@.initial_state,
{
    reveal_strlit("hash");
    reveal_strlit("string");
    assert("hash"@.len() != "string"@.len());
}

/// The legacy key is read only as a text. What it holds is written under the key
/// before it is dropped; where it holds nothing, the initial state is written.
pub proof fn law_call_load_legacy(load: StateLoad, reply: LoadReply, r: (StateLoad, LoadRequest))
    requires
        call_ensures(StateLoad::on_reply, (load, reply), r),
        answers(load@.phase, reply),
        load@.phase is TypeOfLegacyKey || load@.phase is TextOfLegacyKey || load@.phase
            is MigratingLegacy,
    ensures
        reply matches LoadReply::Type(name) ==> name@ == "string"@ ==> r.1@ == RequestView::Text(
            load@.legacy_key->0,
        ) && r.0@.phase is TextOfLegacyKey,
        reply matches LoadReply::Text(Some(state)) ==> {
            &&& r.1@ matches RequestView::Write(key, written)
            &&& key == load@.key
            &&& written.state == state
            &&& written.revision == 0
            &&& !written.paused
            &&& r.0@.phase == LoadPhase::MigratingLegacy(written)
        },
        load@.phase matches LoadPhase::MigratingLegacy(written) ==> r.1@ == RequestView::Delete(
            load@.legacy_key->0,
        ) && r.0@.phase == LoadPhase::DroppingLegacy(written),
        reply == LoadReply::Text(None) || (reply is Type && reply->Type_0@ != "string"@) ==> {
            &&& r.1@ matches RequestView::Write(key, written)
            &&& key == load@.key
            &&& written.state == load@.initial_state
            &&& written.revision == 0
            &&& !written.paused
            &&& r.0@.phase is WritingInitial
        },
        r.0@.key == load@.key,
        r.0@.legacy_key == load@.legacy_key,
        r.0@.initial_state == load@.initial_state,
{
}

/// What was written is the state, once nothing is left to be done: a text that
/// was migrated, or the initial state in its first version.
pub proof fn law_call_load_end(load: StateLoad, reply: LoadReply, r: (StateLoad, LoadRequest))
    requires
        call_ensures(StateLoad::on_reply, (load, reply), r),
        answers(load@.phase, reply),
    ensures
        load@.phase matches LoadPhase::Migrating(written) ==> r.1@ == RequestView::Done(written),
        load@.phase matches LoadPhase::DroppingLegacy(written) ==> r.1@ == RequestView::Done(
            written,
        ),
        load@.phase is WritingInitial ==> {
            &&& r.1@ matches RequestView::Done(written)
            &&& written.state == load@.initial_state
            &&& written.revision == 0
            &&& !written.paused
        },
{
}

} // verus!
