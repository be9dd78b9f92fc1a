//! Time as the library holds it: instants, spans, times of day and weekdays,
//! all on the calendar of `chrono`, without leap seconds.
use vstd::prelude::*;

verus! {

pub const NANOS_PER_SEC: i128 = 1_000_000_000;

pub const SECS_PER_DAY: i64 = 86_400;

pub const NANOS_PER_DAY: i128 = 86_400_000_000_000;

/// Days from 1970-01-01 to the first day of the calendar, in the year -262143.
pub const MIN_DAY: i64 = -96_465_292;

/// Days from 1970-01-01 to the last day of the calendar, in the year 262142.
pub const MAX_DAY: i64 = 95_026_236;

/// The first second of the calendar.
pub const MIN_SECOND: i64 = -8_334_601_228_800;

/// The last second of the calendar.
pub const MAX_SECOND: i64 = 8_210_266_876_799;

/// The first nanosecond of the calendar.
pub const MIN_NANOS: i128 = -8_334_601_228_800_000_000_000;

/// The last nanosecond of the calendar.
pub const MAX_NANOS: i128 = 8_210_266_876_799_999_999_999;

/// The largest span that can be added to an instant: `i64::MAX` milliseconds.
pub const MAX_SPAN_NANOS: i128 = 9_223_372_036_854_775_807_000_000;

/// Whether nanoseconds since the Unix epoch lie inside the calendar.
pub open spec fn in_calendar(nanos: int) -> bool {
    MIN_NANOS <= nanos <= MAX_NANOS
}

/// The instant `nanos + delta`, unless it leaves the calendar.
pub open spec fn checked_shift(nanos: int, delta: int) -> Option<int> {
    if in_calendar(nanos + delta) {
        Some(nanos + delta)
    } else {
        None
    }
}

/// The quotient rounded down.
pub fn floor_div(value: i128, divisor: i128) -> (r: i128)
    requires
        divisor > 0,
    ensures
        r == value as int / divisor as int,
{
    proof {
        vstd::arithmetic::div_mod::lemma_fundamental_div_mod(value as int, divisor as int);
        assert(-0x8000_0000_0000_0000_0000_0000_0000_0000 <= value as int / divisor as int
            <= 0x7fff_ffff_ffff_ffff_ffff_ffff_ffff_ffff) by (nonlinear_arith)
            requires
                divisor > 0,
        ;
    }
    value.checked_div_euclid(divisor).unwrap()
}

/// The remainder of the quotient rounded down.
pub fn floor_rem(value: i128, divisor: i128) -> (r: i128)
    requires
        divisor > 0,
    ensures
        r == value as int % divisor as int,
        0 <= r < divisor,
{
    proof {
        vstd::arithmetic::div_mod::lemma_mod_bound(value as int, divisor as int);
    }
    value.checked_rem_euclid(divisor).unwrap()
}

/// A span of time that is not negative.
#[derive(Debug, Clone, Copy, PartialEq, Eq, PartialOrd, Ord, Hash)]
pub struct Duration {
    secs: u64,
    nanos: u32,
}

impl View for Duration {
    type V = int;

    /// The span in nanoseconds.
    closed spec fn view(&self) -> int {
        self.secs * NANOS_PER_SEC + self.nanos
    }
}

impl Duration {
    #[verifier::type_invariant]
    spec fn subsecond_nanos(self) -> bool {
        self.nanos < NANOS_PER_SEC
    }

    pub fn from_secs(secs: u64) -> (r: Self)
        ensures
            r@ == secs * NANOS_PER_SEC,
    {
        Duration { secs, nanos: 0 }
    }

    pub fn from_millis(millis: u64) -> (r: Self)
        ensures
            r@ == millis * 1_000_000,
    {
        let rest: u64 = millis % 1000;
        Duration { secs: millis / 1000, nanos: rest as u32 * 1_000_000 }
    }

    /// The span of whole seconds and the nanoseconds after them; nanoseconds
    /// past a second carry over, and `None` is the span that does not fit.
    pub fn new(secs: u64, nanos: u32) -> (r: Option<Self>)
        ensures
            r is Some <==> secs + nanos as int / NANOS_PER_SEC as int <= u64::MAX,
            r matches Some(span) ==> span@ == secs * NANOS_PER_SEC + nanos,
    {
        let carry: u64 = (nanos / 1_000_000_000) as u64;
        match secs.checked_add(carry) {
            Some(total) => Some(Duration { secs: total, nanos: nanos % 1_000_000_000 }),
            None => None,
        }
    }

    /// The span of length zero.
    pub fn zero() -> (r: Self)
        ensures
            r@ == 0,
    {
        Duration { secs: 0, nanos: 0 }
    }

    pub fn is_zero(&self) -> (r: bool)
        ensures
            r == (self@ == 0),
    {
        self.secs == 0 && self.nanos == 0
    }

    /// The whole seconds of the span.
    pub fn as_secs(&self) -> (r: u64)
        ensures
            r == self@ / NANOS_PER_SEC as int,
    {
        proof {
            use_type_invariant(&*self);
        }
        self.secs
    }

    /// The nanoseconds past the whole seconds.
    pub fn subsec_nanos(&self) -> (r: u32)
        ensures
            r == self@ % NANOS_PER_SEC as int,
            r < NANOS_PER_SEC,
    {
        proof {
            use_type_invariant(&*self);
        }
        self.nanos
    }

    /// The whole span in nanoseconds.
    pub fn as_nanos(&self) -> (r: u128)
        ensures
            r == self@,
            r <= u64::MAX * NANOS_PER_SEC + 999_999_999,
    {
        proof {
            use_type_invariant(&*self);
        }
        self.secs as u128 * 1_000_000_000 + self.nanos as u128
    }

    /// The whole milliseconds of the span.
    pub fn as_millis(&self) -> (r: u128)
        ensures
            r == self@ / 1_000_000,
    {
        self.as_nanos() / 1_000_000
    }

    /// The span `count` times over, or the longest span where that is longer.
    pub fn saturating_mul(&self, count: u32) -> (r: Self)
        ensures
            self@ * count <= u64::MAX * NANOS_PER_SEC + 999_999_999 ==> r@ == self@ * count,
            self@ * count > u64::MAX * NANOS_PER_SEC + 999_999_999 ==> r@ == u64::MAX
                * NANOS_PER_SEC + 999_999_999,
    {
        let nanos: u128 = self.as_nanos();
        assert(nanos * count <= (u64::MAX * NANOS_PER_SEC + 999_999_999) * u32::MAX)
            by (nonlinear_arith)
            requires
                0 <= nanos <= u64::MAX * NANOS_PER_SEC + 999_999_999,
                0 <= count <= u32::MAX,
        ;
        let total: u128 = nanos * count as u128;
        let secs: u128 = total / 1_000_000_000;
        if secs > u64::MAX as u128 {
            Duration { secs: u64::MAX, nanos: 999_999_999 }
        } else {
            Duration { secs: secs as u64, nanos: (total % 1_000_000_000) as u32 }
        }
    }

    /// Whether the two spans are equally long.
    pub fn same_as(&self, other: &Duration) -> (r: bool)
        ensures
            r == (self@ == other@),
    {
        self.as_nanos() == other.as_nanos()
    }

    /// Whether this span is shorter than the other.
    pub fn shorter_than(&self, other: &Duration) -> (r: bool)
        ensures
            r == (self@ < other@),
    {
        self.as_nanos() < other.as_nanos()
    }
}

/// An instant of the calendar, in UTC.
#[derive(Debug, Clone, Copy, PartialEq, Eq, PartialOrd, Ord, Hash)]
pub struct UtcTime {
    nanos: i128,
}

impl View for UtcTime {
    type V = int;

    /// Nanoseconds since the Unix epoch.
    closed spec fn view(&self) -> int {
        self.nanos as int
    }
}

impl UtcTime {
    #[verifier::type_invariant]
    spec fn inside_calendar(self) -> bool {
        in_calendar(self.nanos as int)
    }

    /// The instant at so many nanoseconds since the Unix epoch, or `None`
    /// outside the calendar.
    pub fn from_unix_nanos(nanos: i128) -> (r: Option<Self>)
        ensures
            r is Some <==> in_calendar(nanos as int),
            r matches Some(instant) ==> instant@ == nanos,
    {
        if MIN_NANOS <= nanos && nanos <= MAX_NANOS {
            Some(UtcTime { nanos })
        } else {
            None
        }
    }

    /// Nanoseconds since the Unix epoch.
    pub fn unix_nanos(&self) -> (r: i128)
        ensures
            r == self@,
            in_calendar(r as int),
    {
        proof {
            use_type_invariant(&*self);
        }
        self.nanos
    }

    /// Whole seconds since the Unix epoch, rounded down.
    pub fn unix_second(&self) -> (r: i64)
        ensures
            r == self@ / NANOS_PER_SEC as int,
            MIN_SECOND <= r <= MAX_SECOND,
    {
        let nanos = self.unix_nanos();
        floor_div(nanos, NANOS_PER_SEC) as i64
    }

    /// The nanoseconds past the whole second.
    pub fn subsec_nanos(&self) -> (r: u32)
        ensures
            r == self@ % NANOS_PER_SEC as int,
            r < NANOS_PER_SEC,
    {
        let nanos = self.unix_nanos();
        floor_rem(nanos, NANOS_PER_SEC) as u32
    }

    /// The instant later by `nanos` nanoseconds (earlier for a negative
    /// number), or `None` outside the calendar.
    pub fn shifted(&self, nanos: i128) -> (r: Option<Self>)
        requires
            -MAX_SPAN_NANOS <= nanos <= MAX_SPAN_NANOS,
        ensures
            match r {
                Some(instant) => checked_shift(self@, nanos as int) == Some(instant@),
                None => checked_shift(self@, nanos as int) is None,
            },
    {
        Self::from_unix_nanos(self.unix_nanos() + nanos)
    }

    pub fn earlier_than(&self, other: &UtcTime) -> (r: bool)
        ensures
            r == (self@ < other@),
    {
        self.nanos < other.nanos
    }

    pub fn at_or_before(&self, other: &UtcTime) -> (r: bool)
        ensures
            r == (self@ <= other@),
    {
        self.nanos <= other.nanos
    }

    pub fn same_as(&self, other: &UtcTime) -> (r: bool)
        ensures
            r == (self@ == other@),
    {
        self.nanos == other.nanos
    }
}

/// The nanoseconds of an optional instant.
pub open spec fn instant_view(instant: Option<UtcTime>) -> Option<int> {
    match instant {
        Some(value) => Some(value@),
        None => None,
    }
}

/// A span as a shift of an instant: `None` where it is longer than
/// [`MAX_SPAN_NANOS`].
pub open spec fn delta_of(span: int) -> Option<int> {
    if span <= MAX_SPAN_NANOS {
        Some(span)
    } else {
        None
    }
}

/// The span as a number of nanoseconds that an instant can be shifted by.
pub fn duration_to_delta(duration: Duration) -> (r: Option<i128>)
    ensures
        match r {
            Some(delta) => delta_of(duration@) == Some(delta as int) && 0 <= delta
                <= MAX_SPAN_NANOS,
            None => delta_of(duration@) is None,
        },
{
    let nanos: u128 = duration.as_nanos();
    if nanos <= MAX_SPAN_NANOS as u128 {
        Some(nanos as i128)
    } else {
        None
    }
}

/// A time of day, on a clock without leap seconds.
#[derive(Debug, Clone, Copy, PartialEq, Eq, PartialOrd, Ord, Hash)]
pub struct TimeOfDay {
    nanos: u64,
}

impl View for TimeOfDay {
    type V = int;

    /// Nanoseconds since midnight.
    closed spec fn view(&self) -> int {
        self.nanos as int
    }
}

impl TimeOfDay {
    #[verifier::type_invariant]
    spec fn within_day(self) -> bool {
        self.nanos < NANOS_PER_DAY
    }

    /// The time of day with these hours, minutes and seconds.
    pub fn from_hms(hour: u32, minute: u32, second: u32) -> (r: Option<Self>)
        ensures
            r is Some <==> hour < 24 && minute < 60 && second < 60,
            r matches Some(time) ==> time@ == (hour * 3600 + minute * 60 + second) * NANOS_PER_SEC,
    {
        if hour < 24 && minute < 60 && second < 60 {
            let seconds: u64 = hour as u64 * 3600 + minute as u64 * 60 + second as u64;
            Some(TimeOfDay { nanos: seconds * 1_000_000_000 })
        } else {
            None
        }
    }

    /// The time of day at so many nanoseconds since midnight.
    pub fn from_nanos(nanos: u64) -> (r: Option<Self>)
        ensures
            r is Some <==> nanos < NANOS_PER_DAY,
            r matches Some(time) ==> time@ == nanos,
    {
        if nanos < 86_400_000_000_000 {
            Some(TimeOfDay { nanos })
        } else {
            None
        }
    }

    /// The start of the day.
    pub fn midnight() -> (r: Self)
        ensures
            r@ == 0,
    {
        TimeOfDay { nanos: 0 }
    }

    /// Nanoseconds since midnight.
    pub fn nanos(&self) -> (r: u64)
        ensures
            r == self@,
            r < NANOS_PER_DAY,
    {
        proof {
            use_type_invariant(&*self);
        }
        self.nanos
    }
}

/// A day of the week.
#[derive(Debug, Clone, Copy, PartialEq, Eq, Hash, Structural)]
pub enum Weekday {
    Mon,
    Tue,
    Wed,
    Thu,
    Fri,
    Sat,
    Sun,
}

/// The weekday so many days after a Monday.
pub open spec fn weekday_from_monday(days: int) -> Weekday {
    let index = days % 7;
    if index == 0 {
        Weekday::Mon
    } else if index == 1 {
        Weekday::Tue
    } else if index == 2 {
        Weekday::Wed
    } else if index == 3 {
        Weekday::Thu
    } else if index == 4 {
        Weekday::Fri
    } else if index == 5 {
        Weekday::Sat
    } else {
        Weekday::Sun
    }
}

/// The weekday of a day counted from 1970-01-01, which was a Thursday.
pub open spec fn weekday_of(day: int) -> Weekday {
    weekday_from_monday(day + 3)
}

/// The weekday of a day counted from 1970-01-01.
pub fn weekday_of_day(day: i64) -> (r: Weekday)
    requires
        MIN_DAY - 10 <= day <= MAX_DAY + 10,
    ensures
        r == weekday_of(day as int),
{
    let index: i128 = floor_rem(day as i128 + 3, 7);
    if index == 0 {
        Weekday::Mon
    } else if index == 1 {
        Weekday::Tue
    } else if index == 2 {
        Weekday::Wed
    } else if index == 3 {
        Weekday::Thu
    } else if index == 4 {
        Weekday::Fri
    } else if index == 5 {
        Weekday::Sat
    } else {
        Weekday::Sun
    }
}

/// The weekday before.
pub open spec fn weekday_before(weekday: Weekday) -> Weekday {
    match weekday {
        Weekday::Mon => Weekday::Sun,
        Weekday::Tue => Weekday::Mon,
        Weekday::Wed => Weekday::Tue,
        Weekday::Thu => Weekday::Wed,
        Weekday::Fri => Weekday::Thu,
        Weekday::Sat => Weekday::Fri,
        Weekday::Sun => Weekday::Sat,
    }
}

/// The weekday before.
pub fn previous_weekday(weekday: Weekday) -> (r: Weekday)
    ensures
        r == weekday_before(weekday),
{
    match weekday {
        Weekday::Mon => Weekday::Sun,
        Weekday::Tue => Weekday::Mon,
        Weekday::Wed => Weekday::Tue,
        Weekday::Thu => Weekday::Wed,
        Weekday::Fri => Weekday::Thu,
        Weekday::Sat => Weekday::Fri,
        Weekday::Sun => Weekday::Sat,
    }
}

/// The day before has the weekday before.
pub proof fn law_weekday_before(day: int)
    ensures
        weekday_of(day - 1) == weekday_before(weekday_of(day)),
{
}

/// The week goes round: 1970-01-01 was a Thursday, and every day has the weekday
/// of the day a week later.
pub proof fn law_week(day: int)
    ensures
        weekday_of(0) == Weekday::Thu,
        weekday_of(day) == weekday_of(day + 7),
        weekday_of(day) == Weekday::Thu <==> day % 7 == 0,
        weekday_of(day) == Weekday::Fri <==> day % 7 == 1,
        weekday_of(day) == Weekday::Sat <==> day % 7 == 2,
        weekday_of(day) == Weekday::Sun <==> day % 7 == 3,
        weekday_of(day) == Weekday::Mon <==> day % 7 == 4,
        weekday_of(day) == Weekday::Tue <==> day % 7 == 5,
        weekday_of(day) == Weekday::Wed <==> day % 7 == 6,
{
}

} // verus!
