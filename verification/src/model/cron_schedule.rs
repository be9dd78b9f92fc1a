//! Cron expressions of five fields: minute, hour, day of month, month and day
//! of week. The `cron` crate parses them and finds their occurrences.
use chrono::{DateTime, Utc};
use chrono_tz::Tz;
use std::str::FromStr;
use vstd::prelude::*;
use crate::error::{ErrorView, InvalidJobKind, SchedulerError};
use crate::text::{self, count_fields, decimal_text, join2, join3};
use crate::time::{UtcTime, MAX_SECOND, MIN_SECOND, NANOS_PER_SEC};
use crate::zone::{self, Timezone};

verus! {

/// What the `cron` crate objects to in an expression of six fields, seconds
/// first; `None` is an expression that it accepts.
pub uninterp spec fn cron_error(expression: Seq<char>) -> Option<Seq<char>>;

/// The second of the first occurrence of a six-field expression that the
/// `cron` crate finds after a second, both counted from the Unix epoch, on the
/// clocks of a zone. Where the clocks are set back this can be a second that
/// is already past.
pub uninterp spec fn cron_next(expression: Seq<char>, zone: Seq<char>, second: int) -> Option<int>;

/// Calls `<cron::Schedule as FromStr>::from_str`. The outcome, and the text of
/// the error, are a function of the expression.
#[verifier::external_body]
fn syntax_error(expression: &str) -> (r: Option<String>)
    ensures
        match r {
            Some(message) => cron_error(expression@) == Some(message@),
            None => cron_error(expression@) is None,
        },
{
    match cron::Schedule::from_str(expression) {
        Ok(_) => None,
        Err(error) => Some(error.to_string()),
    }
}

/// Calls `cron::Schedule::after` and takes the first occurrence. It is a
/// function of the expression, the zone and the second, and inside the
/// calendar. The call adds one second to the instant that it is given, so the
/// last second of the calendar is left out.
#[verifier::external_body]
fn next_occurrence(expression: &str, zone: &str, second: i64) -> (r: Option<i64>)
    requires
        cron_error(expression@) is None,
        zone::zone_known(zone@),
        MIN_SECOND <= second < MAX_SECOND,
    ensures
        match r {
            Some(next) => cron_next(expression@, zone@, second as int) == Some(next as int)
                && MIN_SECOND <= next <= MAX_SECOND,
            None => cron_next(expression@, zone@, second as int) is None,
        },
{
    let schedule = cron::Schedule::from_str(expression).unwrap();
    let zone: Tz = zone.parse().unwrap();
    let after = DateTime::<Utc>::from_timestamp(second, 0).unwrap().with_timezone(&zone);
    schedule.after(&after).next().map(|next| next.timestamp())
}

/// The six-field form of a five-field expression: at second zero.
pub open spec fn with_seconds(source: Seq<char>) -> Seq<char> {
    "0 "@ + source
}

/// The message for an expression with the wrong number of fields.
pub open spec fn field_count_message(expression: Seq<char>) -> Seq<char> {
    "cron expression must have exactly 5 fields (minute hour day-of-month month day-of-week), got "@
        + text::decimal(text::field_count(expression)) + ": `"@ + expression + "`"@
}

/// The message for an expression that the `cron` crate rejects.
pub open spec fn syntax_message(expression: Seq<char>, error: Seq<char>) -> Seq<char> {
    "invalid cron expression `"@ + expression + "`: "@ + error
}

/// What is wrong with a five-field expression; `None` is a valid one.
pub open spec fn expression_error(expression: Seq<char>) -> Option<ErrorView> {
    if text::field_count(expression) != 5 {
        Some(ErrorView::InvalidJob(InvalidJobKind::CronExpression, field_count_message(expression)))
    } else {
        match cron_error(with_seconds(expression)) {
            Some(error) => Some(
                ErrorView::InvalidJob(
                    InvalidJobKind::CronExpression,
                    syntax_message(expression, error),
                ),
            ),
            None => None,
        }
    }
}

/// The first occurrence after an instant. No expression reaches past the year
/// 2100, so nothing follows the last second of the calendar.
pub open spec fn cron_next_after(source: Seq<char>, instant: int, zone: Seq<char>) -> Option<int> {
    let second = instant / NANOS_PER_SEC as int;
    if second >= MAX_SECOND {
        None
    } else {
        match cron_next(with_seconds(source), zone, second) {
            Some(next) => Some(next * NANOS_PER_SEC),
            None => None,
        }
    }
}

/// A valid cron expression of five fields.
#[derive(Debug, PartialEq, Eq)]
pub struct CronSchedule {
    source: String,
}

impl View for CronSchedule {
    type V = Seq<char>;

    closed spec fn view(&self) -> Seq<char> {
        self.source@
    }
}

impl Clone for CronSchedule {
    fn clone(&self) -> (r: Self)
        ensures
            r == *self,
    {
        proof {
            use_type_invariant(self);
        }
        CronSchedule { source: self.source.clone() }
    }
}

impl FromStr for CronSchedule {
    type Err = SchedulerError;

    fn from_str(expression: &str) -> (r: Result<Self, SchedulerError>)
        ensures
            match r {
                Ok(schedule) => expression_error(expression@) is None && schedule@ == expression@,
                Err(error) => expression_error(expression@) == Some(error@),
            },
    {
        CronSchedule::parse(expression)
    }
}

impl TryFrom<&str> for CronSchedule {
    type Error = SchedulerError;

    fn try_from(expression: &str) -> (r: Result<Self, SchedulerError>)
        ensures
            match r {
                Ok(schedule) => expression_error(expression@) is None && schedule@ == expression@,
                Err(error) => expression_error(expression@) == Some(error@),
            },
    {
        CronSchedule::parse(expression)
    }
}

impl vstd::std_specs::convert::TryFromSpecImpl<&str> for CronSchedule {
    /// What a conversion gives is stated by views, in its own contract.
    open spec fn obeys_try_from_spec() -> bool {
        false
    }

    open spec fn try_from_spec(expression: &str) -> Result<Self, SchedulerError> {
        vstd::pervasive::arbitrary()
    }
}

impl CronSchedule {
    #[verifier::type_invariant]
    spec fn accepted(self) -> bool {
        expression_error(self.source@) is None
    }

    pub fn parse(expression: &str) -> (r: Result<Self, SchedulerError>)
        ensures
            match r {
                Ok(schedule) => expression_error(expression@) is None && schedule@ == expression@,
                Err(error) => expression_error(expression@) == Some(error@),
            },
    {
        match validate_field_count(expression) {
            Ok(()) => {},
            Err(error) => {
                return Err(error);
            },
        }
        let six_fields = join2("0 ", expression);
        match syntax_error(six_fields.as_str()) {
            Some(error) => {
                let mut message = join3("invalid cron expression `", expression, "`: ");
                message.append(error.as_str());
                Err(SchedulerError::invalid_cron(message.as_str()))
            },
            None => Ok(CronSchedule { source: expression.to_owned() }),
        }
    }

    pub fn as_str(&self) -> (r: &str)
        ensures
            r@ == self@,
            expression_error(r@) is None,
    {
        proof {
            use_type_invariant(self);
        }
        self.source.as_str()
    }

    /// The text shown to people: the expression as it was written.
    pub fn to_string(&self) -> (r: String)
        ensures
            r@ == self@,
    {
        self.source.as_str().to_owned()
    }

    /// The first occurrence after `after`, on the clocks of `timezone`.
    pub fn next_after(&self, after: UtcTime, timezone: &Timezone) -> (r: Option<UtcTime>)
        ensures
            crate::time::instant_view(r) == cron_next_after(self@, after@, timezone@),
    {
        let second: i64 = after.unix_second();
        if second >= MAX_SECOND {
            return None;
        }
        let six_fields = join2("0 ", self.as_str());
        match next_occurrence(six_fields.as_str(), timezone.name(), second) {
            Some(next) => {
                let instant = UtcTime::from_unix_nanos(next as i128 * NANOS_PER_SEC);
                assert(instant is Some);
                instant
            },
            None => None,
        }
    }
}

/// Rejects an expression that does not have five fields.
pub fn validate_field_count(expression: &str) -> (r: Result<(), SchedulerError>)
    ensures
        r is Ok <==> text::field_count(expression@) == 5,
        r matches Err(error) ==> error@ == ErrorView::InvalidJob(
            InvalidJobKind::CronExpression,
            field_count_message(expression@),
        ),
{
    let count: usize = count_fields(expression);
    if count == 5 {
        return Ok(());
    }
    let number = decimal_text(count as u128);
    let mut message = join3(
        "cron expression must have exactly 5 fields (minute hour day-of-month month day-of-week), got ",
        number.as_str(),
        ": `",
    );
    message.append(expression);
    message.append("`");
    Err(SchedulerError::invalid_cron(message.as_str()))
}

/// An expression is accepted exactly where it has five fields and the six-field
/// form at second zero is accepted, and it is kept as it was written. Whatever
/// is refused is an error of the expression.
pub proof fn law_call_parse(expression: &str, r: Result<CronSchedule, SchedulerError>)
    requires
        call_ensures(CronSchedule::parse, (expression,), r),
    ensures
        r is Ok <==> text::field_count(expression@) == 5 && cron_error("0 "@ + expression@) is None,
        r is Ok ==> r->Ok_0@ == expression@,
        r is Err ==> r->Err_0 is InvalidJob && r->Err_0@->InvalidJob_0
            == InvalidJobKind::CronExpression,
        text::field_count(expression@) != 5 ==> r is Err && r->Err_0@->InvalidJob_1
            == "cron expression must have exactly 5 fields (minute hour day-of-month month day-of-week), got "@
            + text::decimal(text::field_count(expression@)) + ": `"@ + expression@ + "`"@,
        text::field_count(expression@) == 5 ==> (cron_error("0 "@ + expression@) matches Some(cause)
            ==> r is Err && r->Err_0@->InvalidJob_1 == "invalid cron expression `"@ + expression@
            + "`: "@ + cause),
{
}

/// The next occurrence is that of the six-field form at second zero, after the
/// second of the given instant, on the clocks of the given zone.
pub proof fn law_call_next_after(
    schedule: &CronSchedule,
    after: UtcTime,
    timezone: &Timezone,
    r: Option<UtcTime>,
)
    requires
        call_ensures(CronSchedule::next_after, (schedule, after, timezone), r),
        after@ / 1_000_000_000 < MAX_SECOND,
    ensures
        r is Some <==> cron_next("0 "@ + schedule@, timezone@, after@ / 1_000_000_000) is Some,
        r is Some ==> r->0@ == cron_next(
            "0 "@ + schedule@,
            timezone@,
            after@ / 1_000_000_000,
        )->0 * 1_000_000_000,
{
}

} // verus!
