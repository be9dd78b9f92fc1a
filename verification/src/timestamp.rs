//! Instants as RFC 3339 texts, the form in which they are shared.
use chrono::{DateTime, SecondsFormat, Utc};
use vstd::prelude::*;
use crate::time::{self, UtcTime, MAX_SECOND, MIN_SECOND, NANOS_PER_SEC};

verus! {

/// The first second of the year 0.
pub const FIRST_FOUR_DIGIT_SECOND: i64 = -62_167_219_200;

/// The last second of the year 9999.
pub const LAST_FOUR_DIGIT_SECOND: i64 = 253_402_300_799;

/// Whether an instant lies in the years 0 to 9999.
pub open spec fn has_four_digit_year(instant: int) -> bool {
    FIRST_FOUR_DIGIT_SECOND <= instant / NANOS_PER_SEC as int <= LAST_FOUR_DIGIT_SECOND
}

/// An instant in the form `2026-04-03T01:02:03.000000000Z`.
pub uninterp spec fn rfc3339(nanos: int) -> Seq<char>;

/// What an RFC 3339 text says: the second and the nanoseconds past it, or what
/// is wrong with it. In a leap second the nanoseconds go past a second.
pub uninterp spec fn rfc3339_value(text: Seq<char>) -> Result<(int, int), Seq<char>>;

/// A second, and the nanoseconds past it.
#[derive(Debug, Clone, Copy, PartialEq, Eq, Structural)]
pub struct SecondAndNanos {
    pub second: i64,
    pub nanos: u32,
}

/// Calls `chrono::DateTime::to_rfc3339_opts` with nine digits of a second and
/// `Z`. The text is a function of the instant, and two instants of the years 0
/// to 9999 never have the same text.
#[verifier::external_body]
fn format_second(second: i64, nanos: u32) -> (r: String)
    requires
        MIN_SECOND <= second <= MAX_SECOND,
        nanos < NANOS_PER_SEC,
    ensures
        r@ == rfc3339(second * NANOS_PER_SEC + nanos),
        forall|other: int|
            has_four_digit_year(second * NANOS_PER_SEC + nanos) && has_four_digit_year(other) && r@
                == #[trigger] rfc3339(other) ==> other == second * NANOS_PER_SEC + nanos,
{
    let instant = DateTime::<Utc>::from_timestamp(second, nanos).unwrap();
    instant.to_rfc3339_opts(SecondsFormat::Nanos, true)
}

/// Calls `chrono::DateTime::parse_from_rfc3339`. The outcome is a function of
/// the text, inside the calendar, and with fewer than two seconds of
/// nanoseconds. A text that was written for an instant of the years 0 to 9999
/// gives that instant back; the years outside have texts with a sign, of which
/// nothing is said.
#[verifier::external_body]
fn parse_second(text: &str) -> (r: Result<SecondAndNanos, String>)
    ensures
        match r {
            Ok(value) => {
                &&& rfc3339_value(text@) == Ok::<(int, int), Seq<char>>(
                    (value.second as int, value.nanos as int),
                )
                &&& MIN_SECOND <= value.second <= MAX_SECOND
                &&& value.nanos < 2 * NANOS_PER_SEC
            },
            Err(message) => rfc3339_value(text@) == Err::<(int, int), Seq<char>>(message@),
        },
        forall|instant: int|
            has_four_digit_year(instant) && text@ == #[trigger] rfc3339(instant) ==> r is Ok
                && r->Ok_0.second * NANOS_PER_SEC + r->Ok_0.nanos == instant,
{
    match DateTime::parse_from_rfc3339(text) {
        Ok(instant) => Ok(
            SecondAndNanos {
                second: instant.timestamp(),
                nanos: instant.timestamp_subsec_nanos(),
            },
        ),
        Err(error) => Err(error.to_string()),
    }
}

/// The instant of an RFC 3339 text, or what is wrong with it.
pub open spec fn parsed_instant(text: Seq<char>) -> Result<int, Seq<char>> {
    match rfc3339_value(text) {
        Ok(value) => if time::in_calendar(value.0 * NANOS_PER_SEC + value.1) {
            Ok(value.0 * NANOS_PER_SEC + value.1)
        } else {
            Err("instant out of range"@)
        },
        Err(message) => Err(message),
    }
}

/// Writes an instant as an RFC 3339 text. Instants of the years 0 to 9999 have
/// texts of their own.
pub fn to_rfc3339(instant: UtcTime) -> (r: String)
    ensures
        r@ == rfc3339(instant@),
        forall|other: int|
            has_four_digit_year(instant@) && has_four_digit_year(other) && r@ == #[trigger] rfc3339(
                other,
            ) ==> other == instant@,
{
    let second: i64 = instant.unix_second();
    let nanos: u32 = instant.subsec_nanos();
    format_second(second, nanos)
}

/// Reads an instant from an RFC 3339 text. What was written for an instant of
/// the years 0 to 9999 is read back as that instant. The calendar of the library
/// has no leap seconds: one in a text is read as the second after it.
pub fn from_rfc3339(text: &str) -> (r: Result<UtcTime, String>)
    ensures
        match r {
            Ok(instant) => parsed_instant(text@) == Ok::<int, Seq<char>>(instant@),
            Err(message) => parsed_instant(text@) == Err::<int, Seq<char>>(message@),
        },
        forall|instant: int|
            #![trigger rfc3339(instant)]
            has_four_digit_year(instant) && text@ == rfc3339(instant) ==> r is Ok && r->Ok_0@
                == instant,
{
    match parse_second(text) {
        Ok(value) => {
            match UtcTime::from_unix_nanos(value.second as i128 * NANOS_PER_SEC + value.nanos as i128) {
                Some(instant) => Ok(instant),
                None => Err("instant out of range".to_owned()),
            }
        },
        Err(message) => Err(message),
    }
}

/// Reading the text of an instant of the years 0 to 9999 gives the instant.
pub proof fn law_call_round_trip(instant: UtcTime, text: &str, r: Result<UtcTime, String>)
    requires
        text@ == rfc3339(instant@),
        call_ensures(from_rfc3339, (text,), r),
        -62_167_219_200 <= instant@ / 1_000_000_000 <= 253_402_300_799,
    ensures
        r is Ok,
        r->Ok_0@ == instant@,
{
    assert(has_four_digit_year(instant@));
}

/// A text is read as its second and the nanoseconds past it, wherever that is
/// in the calendar.
pub proof fn law_call_read(text: &str, second: int, nanos: int, r: Result<UtcTime, String>)
    requires
        call_ensures(from_rfc3339, (text,), r),
    ensures
        rfc3339_value(text@) == Ok::<(int, int), Seq<char>>((second, nanos)) && time::in_calendar(
            second * 1_000_000_000 + nanos,
        ) ==> r is Ok && r->Ok_0@ == second * 1_000_000_000 + nanos,
        rfc3339_value(text@) is Err ==> r is Err && r->Err_0@ == rfc3339_value(text@)->Err_0,
{
}

} // verus!
