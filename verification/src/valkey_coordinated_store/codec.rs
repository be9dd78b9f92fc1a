//! How the shared state is written in fields of text.
use vstd::prelude::*;
use crate::coordinated_store::CoordinatedRuntimeState;
use crate::model::state::JobState;
use crate::text::{self, decimal_text, is_word_ignoring_case, parse_unsigned, same_text};
use crate::text_map::TextMap;
use crate::time::UtcTime;
use crate::timestamp::{self, from_rfc3339};
use crate::valkey_coordinated_store::keys::{FIELD_PAUSED, FIELD_STATE, FIELD_VERSION};
use crate::valkey_store::ValkeyStoreError;

verus! {

/// The text of a field, if the field is there.
pub open spec fn field(fields: Map<Seq<char>, String>, name: Seq<char>) -> Option<Seq<char>> {
    if fields.contains_key(name) {
        Some(fields[name]@)
    } else {
        None
    }
}

/// The number that a field holds; zero where it is missing or no number.
pub open spec fn number_or_zero(raw: Option<Seq<char>>, max: nat) -> nat {
    match raw {
        Some(value) => match text::unsigned_value(value, max) {
            Some(number) => number,
            None => 0,
        },
        None => 0,
    }
}

/// Whether a text says yes: `1`, or `true` in letters of any case.
pub open spec fn says_yes(raw: Seq<char>) -> bool {
    raw == "1"@ || raw.map_values(|c: char| text::ascii_lower(c)) == "true"@
}

/// Whether a field says that a job is paused; it is not where it is missing.
pub open spec fn says_paused(raw: Option<Seq<char>>) -> bool {
    match raw {
        Some(value) => says_yes(value),
        None => false,
    }
}

/// The text that the state of a job is to be read from: an empty object where
/// the field is missing.
pub fn state_payload(fields: &TextMap<String>) -> (r: String)
    ensures
        r@ == match field(fields@, FIELD_STATE@) {
            Some(payload) => payload,
            None => "{}"@,
        },
{
    match fields.get(FIELD_STATE) {
        Some(payload) => payload.clone(),
        None => "{}".to_owned(),
    }
}

/// The shared state that fields hold, with the state of the job as it was read
/// from its text.
pub fn parse_runtime_state(
    fields: &TextMap<String>,
    state: JobState,
) -> (r: CoordinatedRuntimeState)
    ensures
        r.state == state,
        r.revision == number_or_zero(field(fields@, FIELD_VERSION@), u64::MAX as nat),
        r.paused == says_paused(field(fields@, FIELD_PAUSED@)),
{
    let revision: u64 = match fields.get(FIELD_VERSION) {
        Some(value) => number_or(value.as_str(), u64::MAX),
        None => 0,
    };
    let paused = match fields.get(FIELD_PAUSED) {
        Some(value) => same_text(value.as_str(), "1") || is_word_ignoring_case(
            value.as_str(),
            "true",
        ),
        None => false,
    };
    CoordinatedRuntimeState { state, revision, paused }
}

/// The number that a text holds; zero where it holds none.
pub fn number_or(raw: &str, max: u64) -> (r: u64)
    ensures
        r == number_or_zero(Some(raw@), max as nat),
        r <= max,
{
    match parse_unsigned(raw, max) {
        Some(value) => value,
        None => 0,
    }
}

/// Reads an instant from an RFC 3339 text.
pub fn parse_utc_rfc3339(raw: &str) -> (r: Result<UtcTime, ValkeyStoreError>)
    ensures
        match r {
            Ok(instant) => timestamp::parsed_instant(raw@) == Ok::<int, Seq<char>>(instant@),
            Err(error) => error is Codec && timestamp::parsed_instant(raw@) == Err::<
                int,
                Seq<char>,
            >(error->Codec_message@),
        },
        forall|instant: int|
            timestamp::has_four_digit_year(instant) && raw@ == #[trigger] timestamp::rfc3339(
                instant,
            ) ==> r is Ok && r->Ok_0@ == instant,
{
    match from_rfc3339(raw) {
        Ok(instant) => Ok(instant),
        Err(message) => Err(ValkeyStoreError::Codec { message }),
    }
}

/// The fields of a shared state, each name followed by its text, with the
/// state of the job written as `payload`.
pub open spec fn field_texts(
    revision: nat,
    payload: Seq<char>,
    paused: bool,
) -> Seq<Seq<char>> {
    seq![
        FIELD_VERSION@,
        text::decimal(revision),
        FIELD_STATE@,
        payload,
        FIELD_PAUSED@,
        if paused {
            "1"@
        } else {
            "0"@
        },
    ]
}

/// Writes a shared state in fields.
pub fn runtime_fields(revision: u64, payload: String, paused: bool) -> (r: Vec<String>)
    ensures
        text::texts(r@) == field_texts(revision as nat, payload@, paused),
{
    let mut fields: Vec<String> = Vec::new();
    fields.push(FIELD_VERSION.to_owned());
    fields.push(decimal_text(revision as u128));
    fields.push(FIELD_STATE.to_owned());
    fields.push(payload);
    fields.push(FIELD_PAUSED.to_owned());
    fields.push(
        if paused {
            "1".to_owned()
        } else {
            "0".to_owned()
        },
    );
    assert(text::texts(fields@) =~= field_texts(revision as nat, payload@, paused));
    fields
}

/// What is written of a shared state is read back: the number of its version
/// and whether it is paused.
pub proof fn law_runtime_fields_read_back(revision: nat, paused: bool)
    requires
        revision <= u64::MAX,
    ensures
        number_or_zero(Some(field_texts(revision, ""@, paused)[1]), u64::MAX as nat) == revision,
        says_paused(Some(field_texts(revision, ""@, paused)[5])) == paused,
{
    text::law_decimal_reads_back(revision);
    reveal_strlit("1");
    reveal_strlit("0");
    reveal_strlit("true");
    if !paused {
        let no = "0"@;
        assert(no[0] != "1"@[0]);
        assert(no.map_values(|c: char| text::ascii_lower(c)).len() == 1);
        assert("true"@.len() == 4);
    }
}

/// Fields are read as the version that they number, zero where they number
/// none, and as paused where they say so, not where they are silent.
pub proof fn law_call_parse(
    fields: &TextMap<String>,
    state: JobState,
    r: CoordinatedRuntimeState,
    revision: nat,
)
    requires
        call_ensures(parse_runtime_state, (fields, state), r),
    ensures
        r.state == state,
        !fields@.contains_key("version"@) ==> r.revision == 0,
        fields@.contains_key("version"@) && revision <= u64::MAX && fields@["version"@]@
            == text::decimal(revision) ==> r.revision == revision,
        !fields@.contains_key("paused"@) ==> !r.paused,
        fields@.contains_key("paused"@) && fields@["paused"@]@ == "1"@ ==> r.paused,
        fields@.contains_key("paused"@) && fields@["paused"@]@ == "0"@ ==> !r.paused,
        fields@.contains_key("paused"@) && fields@["paused"@]@ == "true"@ ==> r.paused,
{
    text::law_decimal_reads_back(revision);
    law_runtime_fields_read_back(0, false);
    let word = "true"@;
    assert(word.map_values(|c: char| text::ascii_lower(c)) =~= word) by {
        reveal_strlit("true");
    }
}

/// A state is read from its field, and from an empty object where that is
/// missing.
pub proof fn law_call_payload(fields: &TextMap<String>, r: String)
    requires
        call_ensures(state_payload, (fields,), r),
    ensures
        fields@.contains_key("state"@) ==> r@ == fields@["state"@]@,
        !fields@.contains_key("state"@) ==> r@ == "{}"@,
{
}

/// The fields of a shared state as they are written.
pub proof fn law_call_fields(revision: u64, payload: String, paused: bool, r: Vec<String>)
    requires
        call_ensures(runtime_fields, (revision, payload, paused), r),
    ensures
        r@.len() == 6,
        r@[0]@ == "version"@,
        r@[1]@ == text::decimal(revision as nat),
        r@[2]@ == "state"@,
        r@[3]@ == payload@,
        r@[4]@ == "paused"@,
        paused ==> r@[5]@ == "1"@,
        !paused ==> r@[5]@ == "0"@,
{
    let views = text::texts(r@);
    assert(views.len() == r@.len());
    assert(forall|i: int| 0 <= i < r@.len() ==> #[trigger] views[i] == r@[i]@);
    assert(views[0] == r@[0]@ && views[1] == r@[1]@ && views[2] == r@[2]@ && views[3] == r@[3]@
        && views[4] == r@[4]@ && views[5] == r@[5]@);
}

} // verus!
