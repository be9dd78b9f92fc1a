//! The instants at which local time windows can open or close.
use vstd::prelude::*;
use crate::model::time_window::{self, JobTimeWindow, WindowView};
use crate::time::{self, weekday_of_day, TimeOfDay, UtcTime, MAX_DAY, MIN_DAY};
use crate::zone::{self, zone_or, Timezone};

verus! {

/// How many local days are searched for boundaries, that of the instant that
/// they are searched from included.
pub const SEARCHED_DAYS: i64 = 9;

/// The nanoseconds of a sequence of instants.
pub open spec fn nanos_of(instants: Seq<UtcTime>) -> Seq<int> {
    instants.map_values(|instant: UtcTime| instant@)
}

/// The start and the end of a segment that starts on a day. A segment past
/// midnight ends on the next day, if the calendar has one.
pub open spec fn segment_boundaries(zone: Seq<char>, day: int, segment: (int, int)) -> Seq<int> {
    zone::local_instants(zone, day, segment.0) + if segment.0 <= segment.1 {
        zone::local_instants(zone, day, segment.1)
    } else if zone::day_in_calendar(day + 1) {
        zone::local_instants(zone, day + 1, segment.1)
    } else {
        Seq::empty()
    }
}

/// The boundaries of the first `count` segments on a day.
pub open spec fn segments_boundaries(
    window: WindowView,
    zone: Seq<char>,
    day: int,
    count: nat,
) -> Seq<int>
    decreases count,
{
    if count == 0 {
        Seq::empty()
    } else {
        segments_boundaries(window, zone, day, (count - 1) as nat) + segment_boundaries(
            zone,
            day,
            window.segments[count - 1],
        )
    }
}

/// The boundaries of a window on a day: midnight, and what begins and ends
/// with the segments of an allowed weekday. Without segments an allowed day is
/// open as a whole; its end counts where `with_end` asks for it.
pub open spec fn day_boundaries(
    window: WindowView,
    zone: Seq<char>,
    day: int,
    with_end: bool,
) -> Seq<int> {
    if !zone::day_in_calendar(day) {
        Seq::empty()
    } else {
        zone::local_instants(zone, day, 0) + if !time_window::weekday_allowed(
            window,
            time::weekday_of(day),
        ) {
            Seq::empty()
        } else if window.segments.len() > 0 {
            segments_boundaries(window, zone, day, window.segments.len())
        } else if with_end && zone::day_in_calendar(day + 1) {
            zone::local_instants(zone, day, 0) + zone::local_instants(zone, day + 1, 0)
        } else {
            zone::local_instants(zone, day, 0)
        }
    }
}

/// The boundaries of a window on `count` days in a row.
pub open spec fn days_boundaries(
    window: WindowView,
    zone: Seq<char>,
    first_day: int,
    with_end: bool,
    count: nat,
) -> Seq<int>
    decreases count,
{
    if count == 0 {
        Seq::empty()
    } else {
        days_boundaries(window, zone, first_day, with_end, (count - 1) as nat) + day_boundaries(
            window,
            zone,
            first_day + count - 1,
            with_end,
        )
    }
}

/// How many days before that of an instant are searched for boundaries. Where
/// `with_end` asks for ends it is one: a segment that began on the day before
/// may still be running.
pub open spec fn days_before(with_end: bool) -> nat {
    if with_end {
        1
    } else {
        0
    }
}

/// The boundaries of a window on the local day of an instant and the days
/// after it, and on the day before where `with_end` asks for ends.
pub open spec fn window_boundaries(
    window: WindowView,
    base: int,
    fallback: Seq<char>,
    with_end: bool,
) -> Seq<int> {
    let own = time_window::window_zone(window, fallback);
    days_boundaries(
        window,
        own,
        zone::local_day(own, base) - days_before(with_end),
        with_end,
        SEARCHED_DAYS as nat + days_before(with_end),
    )
}

/// The least of the values that pass a test.
pub open spec fn least(values: Seq<int>, keep: spec_fn(int) -> bool) -> Option<int>
    decreases values.len(),
{
    if values.len() == 0 {
        None
    } else {
        let rest = least(values.drop_last(), keep);
        if keep(values.last()) && (rest is None || values.last() < rest->0) {
            Some(values.last())
        } else {
            rest
        }
    }
}

/// The least value that passes a test is one of the values, passes, and is not
/// after any other that does; there is none only where no value passes.
pub proof fn law_least(values: Seq<int>, keep: spec_fn(int) -> bool)
    ensures
        match least(values, keep) {
            Some(value) => values.contains(value) && keep(value) && forall|i: int|
                0 <= i < values.len() && keep(#[trigger] values[i]) ==> value <= values[i],
            None => forall|i: int| 0 <= i < values.len() ==> !keep(#[trigger] values[i]),
        },
    decreases values.len(),
{
    if values.len() > 0 {
        let front = values.drop_last();
        law_least(front, keep);
        assert forall|i: int| 0 <= i < front.len() implies front[i] == #[trigger] values[i] by {}
        match least(front, keep) {
            Some(value) => {
                let i = choose|i: int| 0 <= i < front.len() && front[i] == value;
                assert(values[i] == value);
            },
            None => {},
        }
        assert(values[values.len() - 1] == values.last());
    }
}

proof fn lemma_nanos_append(left: Seq<UtcTime>, right: Seq<UtcTime>)
    ensures
        nanos_of(left + right) == nanos_of(left) + nanos_of(right),
{
    assert(nanos_of(left + right) =~= nanos_of(left) + nanos_of(right));
}

/// Adds the instants at which the clocks of a zone show `time` on `day`.
pub fn push_local_candidate(
    candidates: &mut Vec<UtcTime>,
    timezone: &Timezone,
    day: i64,
    time: TimeOfDay,
)
    requires
        zone::day_in_calendar(day as int),
    ensures
        nanos_of(final(candidates)@) == nanos_of(old(candidates)@) + zone::local_instants(
            timezone@,
            day as int,
            time@,
        ),
{
    let mut instants = timezone.instants_of_local(day, time);
    proof {
        lemma_nanos_append(candidates@, instants@);
    }
    candidates.append(&mut instants);
}

/// Adds the boundaries of a window on a day.
pub fn push_day_boundaries(
    candidates: &mut Vec<UtcTime>,
    window: &JobTimeWindow,
    timezone: &Timezone,
    day: i64,
    with_end: bool,
)
    requires
        MIN_DAY - 2 <= day <= MAX_DAY + 9,
    ensures
        nanos_of(final(candidates)@) == nanos_of(old(candidates)@) + day_boundaries(
            window@,
            timezone@,
            day as int,
            with_end,
        ),
{
    let ghost start = nanos_of(candidates@);
    if day < MIN_DAY || day > MAX_DAY {
        assert(start + Seq::<int>::empty() =~= start);
        return;
    }
    push_local_candidate(candidates, timezone, day, TimeOfDay::midnight());
    let ghost midnight = zone::local_instants(timezone@, day as int, 0);
    if !window.allows_weekday(weekday_of_day(day)) {
        assert(start + midnight =~= start + (midnight + Seq::<int>::empty()));
        return;
    }
    if window.segments.len() == 0 {
        push_local_candidate(candidates, timezone, day, TimeOfDay::midnight());
        if with_end && day < MAX_DAY {
            push_local_candidate(candidates, timezone, day + 1, TimeOfDay::midnight());
            proof {
                let next = zone::local_instants(timezone@, day + 1, 0);
                assert(start + midnight + midnight + next =~= start + (midnight + (midnight
                    + next)));
            }
        } else {
            assert(start + midnight + midnight =~= start + (midnight + midnight));
        }
        return;
    }
    let mut index: usize = 0;
    let ghost view = window@;
    proof {
        assert(start + midnight =~= start + midnight + segments_boundaries(
            view,
            timezone@,
            day as int,
            0,
        ));
    }
    while index < window.segments.len()
        invariant
            view == window@,
            MIN_DAY <= day <= MAX_DAY,
            index <= window.segments.len(),
            nanos_of(candidates@) == start + midnight + segments_boundaries(
                view,
                timezone@,
                day as int,
                index as nat,
            ),
        decreases window.segments.len() - index,
    {
        let segment = window.segments[index];
        assert(view.segments[index as int] == segment@);
        let ghost before = nanos_of(candidates@);
        let ghost opening = zone::local_instants(timezone@, day as int, segment@.0);
        push_local_candidate(candidates, timezone, day, segment.start);
        if segment.ends_same_day() {
            push_local_candidate(candidates, timezone, day, segment.end);
        } else if day < MAX_DAY {
            push_local_candidate(candidates, timezone, day + 1, segment.end);
        }
        proof {
            let pushed = segment_boundaries(timezone@, day as int, segment@);
            assert(nanos_of(candidates@) =~= before + pushed);
            let done = segments_boundaries(view, timezone@, day as int, index as nat);
            assert(start + midnight + done + pushed =~= start + midnight + (done + pushed));
        }
        index = index + 1;
    }
    proof {
        let all = segments_boundaries(view, timezone@, day as int, index as nat);
        assert(start + midnight + all =~= start + (midnight + all));
    }
}

/// Adds the boundaries of a window on the local day of `base` and the days
/// after it, and on the day before where `with_end` asks for ends.
pub fn push_window_boundaries(
    candidates: &mut Vec<UtcTime>,
    window: &JobTimeWindow,
    base: UtcTime,
    fallback_timezone: &Timezone,
    with_end: bool,
)
    ensures
        nanos_of(final(candidates)@) == nanos_of(old(candidates)@) + window_boundaries(
            window@,
            base@,
            fallback_timezone@,
            with_end,
        ),
{
    let timezone = zone_or(&window.timezone, fallback_timezone);
    let earlier: i64 = if with_end {
        1
    } else {
        0
    };
    let first_day: i64 = timezone.local(base).0 - earlier;
    let days: i64 = SEARCHED_DAYS + earlier;
    let ghost start = nanos_of(candidates@);
    let mut offset: i64 = 0;
    proof {
        assert(start =~= start + days_boundaries(
            window@,
            timezone@,
            first_day as int,
            with_end,
            0,
        ));
    }
    while offset < days
        invariant
            0 <= offset <= days <= SEARCHED_DAYS + 1,
            MIN_DAY - 2 <= first_day,
            first_day + days <= MAX_DAY + 10,
            nanos_of(candidates@) == start + days_boundaries(
                window@,
                timezone@,
                first_day as int,
                with_end,
                offset as nat,
            ),
        decreases days - offset,
    {
        proof {
            let done = days_boundaries(
                window@,
                timezone@,
                first_day as int,
                with_end,
                offset as nat,
            );
            let day = day_boundaries(window@, timezone@, first_day + offset, with_end);
            assert(start + done + day =~= start + (done + day));
        }
        push_day_boundaries(candidates, window, timezone, first_day + offset, with_end);
        offset = offset + 1;
    }
}

proof fn lemma_segment_is_searched(
    window: WindowView,
    zone: Seq<char>,
    day: int,
    count: nat,
    place: int,
)
    requires
        0 <= place < count,
    ensures
        forall|t: int| #[trigger]
            segment_boundaries(zone, day, window.segments[place]).contains(t)
                ==> segments_boundaries(window, zone, day, count).contains(t),
    decreases count,
{
    let front = segments_boundaries(window, zone, day, (count - 1) as nat);
    let back = segment_boundaries(zone, day, window.segments[count - 1]);
    if place < count - 1 {
        lemma_segment_is_searched(window, zone, day, (count - 1) as nat, place);
    }
    assert forall|t: int| #[trigger]
        segment_boundaries(zone, day, window.segments[place]).contains(t) implies (front
        + back).contains(t) by {
        lemma_either_part(front, back, t);
    }
}

proof fn lemma_day_is_searched(
    window: WindowView,
    zone: Seq<char>,
    first_day: int,
    with_end: bool,
    count: nat,
    place: int,
)
    requires
        0 <= place < count,
    ensures
        forall|t: int| #[trigger]
            day_boundaries(window, zone, first_day + place, with_end).contains(t)
                ==> days_boundaries(window, zone, first_day, with_end, count).contains(t),
    decreases count,
{
    let front = days_boundaries(window, zone, first_day, with_end, (count - 1) as nat);
    let back = day_boundaries(window, zone, first_day + count - 1, with_end);
    if place < count - 1 {
        lemma_day_is_searched(window, zone, first_day, with_end, (count - 1) as nat, place);
    }
    assert forall|t: int| #[trigger]
        day_boundaries(window, zone, first_day + place, with_end).contains(t) implies (front
        + back).contains(t) by {
        lemma_either_part(front, back, t);
    }
}

proof fn lemma_either_part(left: Seq<int>, right: Seq<int>, t: int)
    ensures
        (left + right).contains(t) <==> left.contains(t) || right.contains(t),
{
    if left.contains(t) {
        let i = choose|i: int| 0 <= i < left.len() && left[i] == t;
        assert((left + right)[i] == t);
    }
    if right.contains(t) {
        let i = choose|i: int| 0 <= i < right.len() && right[i] == t;
        assert((left + right)[left.len() + i] == t);
    }
}

/// Whether an instant is one at which a window may open or close on a local day
/// of its clocks: midnight, the start or the end of a segment of an allowed
/// weekday, or, where `with_end` asks for ends, the end of an allowed day.
pub open spec fn may_change_at(
    window: WindowView,
    zone: Seq<char>,
    day: int,
    place: int,
    with_end: bool,
    t: int,
) -> bool {
    ||| zone::local_instants(zone, day, 0).contains(t)
    ||| (window.weekdays.len() == 0 || window.weekdays.contains(time::weekday_of(day))) && {
        ||| 0 <= place < window.segments.len() && zone::local_instants(
            zone,
            day,
            window.segments[place].0,
        ).contains(t)
        ||| 0 <= place < window.segments.len() && window.segments[place].0
            <= window.segments[place].1 && zone::local_instants(
            zone,
            day,
            window.segments[place].1,
        ).contains(t)
        ||| 0 <= place < window.segments.len() && window.segments[place].0
            > window.segments[place].1 && day < MAX_DAY && zone::local_instants(
            zone,
            day + 1,
            window.segments[place].1,
        ).contains(t)
        ||| window.segments.len() == 0 && with_end && day < MAX_DAY && zone::local_instants(
            zone,
            day + 1,
            0,
        ).contains(t)
    }
}

/// Nothing at which a window may open or close is missed on the nine local days
/// from that of the base on, nor on the day before it where ends are asked for,
/// whatever the clocks of the window do.
pub proof fn law_no_boundary_missed(
    window: WindowView,
    base: int,
    fallback: Seq<char>,
    with_end: bool,
    own: Seq<char>,
    day: int,
    place: int,
    t: int,
)
    requires
        own == (match window.timezone {
            Some(zone) => zone,
            None => fallback,
        }),
        zone::local_day(own, base) - (if with_end {
            1int
        } else {
            0
        }) <= day < zone::local_day(own, base) + 9,
        MIN_DAY <= day <= MAX_DAY,
        may_change_at(window, own, day, place, with_end, t),
    ensures
        window_boundaries(window, base, fallback, with_end).contains(t),
{
    let before = days_before(with_end) as int;
    let first_day = zone::local_day(own, base) - before;
    let found = window_boundaries(window, base, fallback, with_end);
    lemma_day_is_searched(
        window,
        own,
        first_day,
        with_end,
        9nat + days_before(with_end),
        day - first_day,
    );
    assert(first_day + (day - first_day) == day);
    assert(found == days_boundaries(
        window,
        own,
        first_day,
        with_end,
        9nat + days_before(with_end),
    ));
    assert(day_boundaries(window, own, first_day + (day - first_day), with_end).contains(t)
        ==> found.contains(t));
    let midnight = zone::local_instants(own, day, 0);
    let all = segments_boundaries(window, own, day, window.segments.len());
    let next = zone::local_instants(own, day + 1, 0);
    lemma_either_part(midnight, Seq::empty(), t);
    lemma_either_part(midnight, all, t);
    lemma_either_part(midnight, midnight + next, t);
    lemma_either_part(midnight, midnight, t);
    lemma_either_part(midnight, next, t);
    if 0 <= place < window.segments.len() {
        let segment = window.segments[place];
        lemma_segment_is_searched(window, own, day, window.segments.len(), place);
        assert(segment_boundaries(own, day, segment).contains(t) ==> all.contains(t));
        lemma_either_part(
            zone::local_instants(own, day, segment.0),
            zone::local_instants(own, day, segment.1),
            t,
        );
        lemma_either_part(
            zone::local_instants(own, day, segment.0),
            zone::local_instants(own, day + 1, segment.1),
            t,
        );
        lemma_either_part(zone::local_instants(own, day, segment.0), Seq::empty(), t);
    }
}

/// A call keeps what was found before, and adds everything at which the window
/// may open or close on the days that are searched.
pub proof fn law_call_boundaries(
    candidates: &mut Vec<UtcTime>,
    window: &JobTimeWindow,
    base: UtcTime,
    fallback: &Timezone,
    with_end: bool,
    own: Seq<char>,
    day: int,
    place: int,
    t: int,
)
    requires
        call_ensures(push_window_boundaries, (candidates, window, base, fallback, with_end), ()),
        own == (match window@.timezone {
            Some(zone) => zone,
            None => fallback@,
        }),
        zone::local_day(own, base@) - (if with_end {
            1int
        } else {
            0
        }) <= day < zone::local_day(own, base@) + 9,
        MIN_DAY <= day <= MAX_DAY,
    ensures
        nanos_of(old(candidates)@).contains(t) ==> nanos_of(final(candidates)@).contains(t),
        may_change_at(window@, own, day, place, with_end, t) ==> nanos_of(
            final(candidates)@,
        ).contains(t),
{
    let found = window_boundaries(window@, base@, fallback@, with_end);
    lemma_either_part(nanos_of(old(candidates)@), found, t);
    if may_change_at(window@, own, day, place, with_end, t) {
        law_no_boundary_missed(window@, base@, fallback@, with_end, own, day, place, t);
    }
}

} // verus!
