//! Time zones, and the clocks on their walls.
//!
//! A zone is known by its IANA name. Its rules are those of `chrono_tz`, which
//! is asked for the offset at an instant and for the instants of a local time.
use chrono::{DateTime, MappedLocalTime, Offset, TimeZone};
use chrono_tz::Tz;
use vstd::prelude::*;
use crate::time::{
    floor_div, floor_rem, TimeOfDay, UtcTime, MAX_DAY, MAX_SECOND, MIN_DAY, MIN_SECOND,
    NANOS_PER_DAY, NANOS_PER_SEC, SECS_PER_DAY,
};

verus! {

/// Whether `chrono_tz` has a zone of this name.
pub uninterp spec fn zone_known(zone: Seq<char>) -> bool;

/// The seconds by which the clocks of a zone are ahead of UTC in a second
/// counted from the Unix epoch.
pub uninterp spec fn zone_offset(zone: Seq<char>, second: int) -> int;

/// The seconds, counted from the Unix epoch in UTC, in which the clocks of a
/// zone show a local second counted from 1970-01-01T00:00:00 local time: none
/// where the clocks skip it, two where they show it twice.
pub uninterp spec fn zone_instants(zone: Seq<char>, local_second: int) -> Seq<int>;

/// Calls `<chrono_tz::Tz as FromStr>::from_str`. Its outcome is a function of
/// the name alone; `UTC` and `Asia/Shanghai` are among the names it accepts.
#[verifier::external_body]
fn zone_is_known(name: &str) -> (r: bool)
    ensures
        r == zone_known(name@),
        name@ == "UTC"@ ==> r,
        name@ == "Asia/Shanghai"@ ==> r,
{
    name.parse::<Tz>().is_ok()
}

/// Calls `chrono_tz`'s `TimeZone::offset_from_utc_datetime`. The offset is a
/// function of the zone and the second, and always less than a day.
#[verifier::external_body]
fn offset_in_second(zone: &str, second: i64) -> (r: i32)
    requires
        zone_known(zone@),
        MIN_SECOND <= second <= MAX_SECOND,
    ensures
        r == zone_offset(zone@, second as int),
        -86_400 < r < 86_400,
{
    let zone: Tz = zone.parse().unwrap();
    let utc = DateTime::from_timestamp(second, 0).unwrap().naive_utc();
    zone.offset_from_utc_datetime(&utc).fix().local_minus_utc()
}

/// Calls `chrono`'s `TimeZone::from_local_datetime` for a zone of `chrono_tz`.
/// The instants are a function of the zone and the local second; there are at
/// most two, inside the calendar, and in each the clocks of the zone show that
/// local second.
#[verifier::external_body]
fn instants_of_local_second(zone: &str, local_second: i64) -> (r: Vec<i64>)
    requires
        zone_known(zone@),
        MIN_SECOND <= local_second <= MAX_SECOND,
    ensures
        r@.map_values(|second: i64| second as int) == zone_instants(zone@, local_second as int),
        r@.len() <= 2,
        forall|i: int| 0 <= i < r@.len() ==> MIN_SECOND <= #[trigger] r@[i] <= MAX_SECOND,
        forall|i: int|
            0 <= i < r@.len() ==> #[trigger] r@[i] + zone_offset(zone@, r@[i] as int)
                == local_second,
{
    let zone: Tz = zone.parse().unwrap();
    let local = DateTime::from_timestamp(local_second, 0).unwrap().naive_utc();
    match zone.from_local_datetime(&local) {
        MappedLocalTime::None => vec![],
        MappedLocalTime::Single(instant) => vec![instant.timestamp()],
        MappedLocalTime::Ambiguous(first, second) => vec![first.timestamp(), second.timestamp()],
    }
}

/// The local time of a zone at an instant: nanoseconds since
/// 1970-01-01T00:00:00 on its clocks.
pub open spec fn local_nanos(zone: Seq<char>, instant: int) -> int {
    instant + zone_offset(zone, instant / NANOS_PER_SEC as int) * NANOS_PER_SEC
}

/// The local day of a zone at an instant, counted from 1970-01-01.
pub open spec fn local_day(zone: Seq<char>, instant: int) -> int {
    local_nanos(zone, instant) / NANOS_PER_DAY as int
}

/// The local time of day of a zone at an instant.
pub open spec fn local_time_of_day(zone: Seq<char>, instant: int) -> int {
    local_nanos(zone, instant) % NANOS_PER_DAY as int
}

/// Whether a day counted from 1970-01-01 is in the calendar.
pub open spec fn day_in_calendar(day: int) -> bool {
    MIN_DAY <= day <= MAX_DAY
}

/// The instants at which the clocks of a zone show a time of day on a day.
pub open spec fn local_instants(zone: Seq<char>, day: int, time: int) -> Seq<int> {
    zone_instants(zone, day * SECS_PER_DAY + time / NANOS_PER_SEC as int).map_values(
        |second: int| second * NANOS_PER_SEC + time % NANOS_PER_SEC as int,
    )
}

/// Whether the clocks of a zone are never changed: they are ahead of UTC by
/// `offset` seconds all the time.
pub open spec fn clocks_fixed(zone: Seq<char>, offset: int) -> bool {
    &&& forall|second: int|
        MIN_SECOND <= second <= MAX_SECOND ==> #[trigger] zone_offset(zone, second) == offset
    &&& forall|local_second: int|
        MIN_SECOND <= local_second <= MAX_SECOND ==> #[trigger] zone_instants(zone, local_second)
            == if MIN_SECOND <= local_second - offset <= MAX_SECOND {
            seq![local_second - offset]
        } else {
            Seq::empty()
        }
}

/// Whether the clocks of a zone are never changed.
pub open spec fn has_fixed_clocks(zone: Seq<char>) -> bool {
    exists|offset: int| clocks_fixed(zone, offset)
}

/// A time zone, by its IANA name.
#[derive(Debug, PartialEq, Eq, Hash)]
pub struct Timezone {
    name: String,
}

impl View for Timezone {
    type V = Seq<char>;

    closed spec fn view(&self) -> Seq<char> {
        self.name@
    }
}

impl Clone for Timezone {
    fn clone(&self) -> (r: Self)
        ensures
            r == *self,
    {
        proof {
            use_type_invariant(self);
        }
        Timezone { name: self.name.clone() }
    }
}

impl Timezone {
    #[verifier::type_invariant]
    spec fn has_rules(self) -> bool {
        zone_known(self.name@)
    }

    /// The zone of this name, or `None` for a name that is not in the time
    /// zone database.
    pub fn parse(name: &str) -> (r: Option<Self>)
        ensures
            r is Some <==> zone_known(name@),
            r matches Some(zone) ==> zone@ == name@,
    {
        if zone_is_known(name) {
            Some(Timezone { name: name.to_owned() })
        } else {
            None
        }
    }

    pub fn utc() -> (r: Self)
        ensures
            r@ == "UTC"@,
    {
        // Its contract says that this name is known.
        let _ = zone_is_known("UTC");
        Timezone { name: "UTC".to_owned() }
    }

    pub fn shanghai() -> (r: Self)
        ensures
            r@ == "Asia/Shanghai"@,
    {
        // Its contract says that this name is known.
        let _ = zone_is_known("Asia/Shanghai");
        Timezone { name: "Asia/Shanghai".to_owned() }
    }

    /// The IANA name.
    pub fn name(&self) -> (r: &str)
        ensures
            r@ == self@,
            zone_known(r@),
    {
        proof {
            use_type_invariant(self);
        }
        self.name.as_str()
    }

    /// The day and the time of day that the clocks of the zone show.
    pub fn local(&self, instant: UtcTime) -> (r: (i64, TimeOfDay))
        ensures
            r.0 == local_day(self@, instant@),
            r.1@ == local_time_of_day(self@, instant@),
            MIN_DAY - 1 <= r.0 <= MAX_DAY + 1,
    {
        let offset: i32 = offset_in_second(self.name(), instant.unix_second());
        let nanos: i128 = instant.unix_nanos() + offset as i128 * NANOS_PER_SEC;
        let day: i128 = floor_div(nanos, NANOS_PER_DAY);
        let time: i128 = floor_rem(nanos, NANOS_PER_DAY);
        (day as i64, TimeOfDay::from_nanos(time as u64).unwrap())
    }

    /// The instants at which the clocks of the zone show `time` on `day`.
    pub fn instants_of_local(&self, day: i64, time: TimeOfDay) -> (r: Vec<UtcTime>)
        requires
            day_in_calendar(day as int),
        ensures
            r@.map_values(|instant: UtcTime| instant@) == local_instants(
                self@,
                day as int,
                time@,
            ),
            forall|i: int|
                0 <= i < r@.len() ==> local_day(self@, (#[trigger] r@[i])@) == day
                    && local_time_of_day(self@, r@[i]@) == time@,
    {
        let nanos: u64 = time.nanos();
        let local_second: i64 = day * SECS_PER_DAY + (nanos / 1_000_000_000) as i64;
        let rest: i128 = (nanos % 1_000_000_000) as i128;
        let seconds = instants_of_local_second(self.name(), local_second);
        let mut instants: Vec<UtcTime> = Vec::new();
        let mut index: usize = 0;
        let ghost zone = self@;
        while index < seconds.len()
            invariant
                zone == self@,
                index <= seconds.len(),
                instants@.len() == index,
                rest == time@ % NANOS_PER_SEC as int,
                0 <= time@ < NANOS_PER_DAY,
                local_second == day * SECS_PER_DAY + time@ / NANOS_PER_SEC as int,
                forall|i: int|
                    0 <= i < seconds@.len() ==> MIN_SECOND <= #[trigger] seconds@[i] <= MAX_SECOND,
                forall|i: int|
                    0 <= i < seconds@.len() ==> #[trigger] seconds@[i] + zone_offset(
                        zone,
                        seconds@[i] as int,
                    ) == local_second,
                forall|i: int|
                    0 <= i < index ==> (#[trigger] instants@[i])@ == seconds@[i] * NANOS_PER_SEC
                        + rest,
            decreases seconds.len() - index,
        {
            let second: i64 = seconds[index];
            let instant = UtcTime::from_unix_nanos(second as i128 * NANOS_PER_SEC + rest).unwrap();
            instants.push(instant);
            index = index + 1;
        }
        proof {
            let expected = local_instants(zone, day as int, time@);
            assert(instants@.map_values(|instant: UtcTime| instant@) =~= expected) by {
                assert(zone_instants(zone, local_second as int) == seconds@.map_values(
                    |second: i64| second as int,
                ));
            }
            assert forall|i: int| 0 <= i < instants@.len() implies local_day(
                zone,
                (#[trigger] instants@[i])@,
            ) == day && local_time_of_day(zone, instants@[i]@) == time@ by {
                let second = seconds@[i] as int;
                assert(instants@[i]@ / NANOS_PER_SEC as int == second);
                assert(second + zone_offset(zone, second) == local_second);
                assert(local_nanos(zone, instants@[i]@) == local_second * NANOS_PER_SEC + rest);
                assert(local_nanos(zone, instants@[i]@) == day * NANOS_PER_DAY + time@);
            }
        }
        instants
    }
}

/// The zone of a window that may name one of its own.
pub fn zone_or<'a>(zone: &'a Option<Timezone>, fallback: &'a Timezone) -> (r: &'a Timezone)
    ensures
        r@ == zone_or_view(zone_view(*zone), fallback@),
{
    match zone {
        Some(own) => own,
        None => fallback,
    }
}

pub open spec fn zone_view(zone: Option<Timezone>) -> Option<Seq<char>> {
    match zone {
        Some(own) => Some(own@),
        None => None,
    }
}

pub open spec fn zone_or_view(zone: Option<Seq<char>>, fallback: Seq<char>) -> Seq<char> {
    match zone {
        Some(own) => own,
        None => fallback,
    }
}

/// What the clocks of a zone show at an instant is the instant moved by the
/// offset of its second: whole days, and a time of day within one.
pub proof fn law_call_local(zone: &Timezone, instant: UtcTime, r: (i64, TimeOfDay))
    requires
        call_ensures(Timezone::local, (zone, instant), r),
    ensures
        r.0 * 86_400_000_000_000 + r.1@ == instant@ + zone_offset(
            zone@,
            instant@ / 1_000_000_000,
        ) * 1_000_000_000,
        0 <= r.1@ < 86_400_000_000_000,
{
}

/// A window that names a zone is read in that zone, and in the given one
/// otherwise.
pub proof fn law_call_zone_or(zone: &Option<Timezone>, fallback: &Timezone, r: &Timezone)
    requires
        call_ensures(zone_or, (zone, fallback), r),
    ensures
        *zone is None ==> r@ == fallback@,
        *zone is Some ==> r@ == zone->0@,
{
}

} // verus!
