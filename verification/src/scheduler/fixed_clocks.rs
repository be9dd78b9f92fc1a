//! When windows open and close in zones whose clocks are never changed.
use vstd::prelude::*;
use crate::model::time_window::{self, WindowView};
use crate::scheduler::boundaries::{self, SEARCHED_DAYS};
use crate::time::{self, NANOS_PER_DAY, NANOS_PER_SEC, SECS_PER_DAY};
use crate::zone;

verus! {

/// Whether the segments of a window start and end at times of a day.
pub open spec fn segments_within_day(window: WindowView) -> bool {
    forall|i: int|
        0 <= i < window.segments.len() ==> 0 <= (#[trigger] window.segments[i]).0 < NANOS_PER_DAY
            && 0 <= window.segments[i].1 < NANOS_PER_DAY
}

/// Whether an instant and its local day are in the calendar.
pub open spec fn on_calendar(zone: Seq<char>, instant: int) -> bool {
    time::in_calendar(instant) && zone::day_in_calendar(zone::local_day(zone, instant))
}

proof fn lemma_local(zone: Seq<char>, offset: int, instant: int)
    requires
        zone::clocks_fixed(zone, offset),
        time::in_calendar(instant),
    ensures
        zone::local_nanos(zone, instant) == instant + offset * NANOS_PER_SEC,
        zone::local_day(zone, instant) * NANOS_PER_DAY + zone::local_time_of_day(zone, instant)
            == instant + offset * NANOS_PER_SEC,
        0 <= zone::local_time_of_day(zone, instant) < NANOS_PER_DAY,
{
    assert(zone::zone_offset(zone, instant / NANOS_PER_SEC as int) == offset);
}

/// A local time is shown at one instant.
proof fn lemma_instant(zone: Seq<char>, offset: int, day: int, time: int)
    requires
        zone::clocks_fixed(zone, offset),
        zone::day_in_calendar(day),
        0 <= time < NANOS_PER_DAY,
        time::in_calendar(day * NANOS_PER_DAY + time - offset * NANOS_PER_SEC),
    ensures
        zone::local_instants(zone, day, time) == seq![
            day * NANOS_PER_DAY + time - offset * NANOS_PER_SEC,
        ],
{
    let local_second = day * SECS_PER_DAY + time / NANOS_PER_SEC as int;
    assert(zone::zone_instants(zone, local_second) == seq![local_second - offset]);
    assert(zone::local_instants(zone, day, time) =~= seq![
        day * NANOS_PER_DAY + time - offset * NANOS_PER_SEC,
    ]);
}

proof fn lemma_in_days(
    window: WindowView,
    zone: Seq<char>,
    first_day: int,
    with_end: bool,
    count: nat,
    day: int,
    instant: int,
)
    requires
        first_day <= day < first_day + count,
        boundaries::day_boundaries(window, zone, day, with_end).contains(instant),
    ensures
        boundaries::days_boundaries(window, zone, first_day, with_end, count).contains(instant),
    decreases count,
{
    let last = boundaries::day_boundaries(window, zone, first_day + count - 1, with_end);
    let front = boundaries::days_boundaries(
        window,
        zone,
        first_day,
        with_end,
        (count - 1) as nat,
    );
    if day == first_day + count - 1 {
        let i = last.index_of(instant);
        assert((front + last)[front.len() + i] == instant);
    } else {
        lemma_in_days(window, zone, first_day, with_end, (count - 1) as nat, day, instant);
        let i = front.index_of(instant);
        assert((front + last)[i] == instant);
    }
}

proof fn lemma_in_segments(
    window: WindowView,
    zone: Seq<char>,
    day: int,
    count: nat,
    index: int,
    instant: int,
)
    requires
        0 <= index < count <= window.segments.len(),
        boundaries::segment_boundaries(zone, day, window.segments[index]).contains(instant),
    ensures
        boundaries::segments_boundaries(window, zone, day, count).contains(instant),
    decreases count,
{
    let last = boundaries::segment_boundaries(zone, day, window.segments[count - 1]);
    let front = boundaries::segments_boundaries(window, zone, day, (count - 1) as nat);
    if index == count - 1 {
        let i = last.index_of(instant);
        assert((front + last)[front.len() + i] == instant);
    } else {
        lemma_in_segments(window, zone, day, (count - 1) as nat, index, instant);
        let i = front.index_of(instant);
        assert((front + last)[i] == instant);
    }
}

/// Midnight, and on an allowed day the start and the end of each segment, are
/// boundaries of the day.
proof fn lemma_in_day(
    window: WindowView,
    zone: Seq<char>,
    day: int,
    with_end: bool,
    instant: int,
    index: int,
)
    requires
        zone::day_in_calendar(day),
        zone::local_instants(zone, day, 0).contains(instant) || (0 <= index < window.segments.len()
            && time_window::weekday_allowed(window, time::weekday_of(day))
            && boundaries::segment_boundaries(zone, day, window.segments[index]).contains(instant)),
    ensures
        boundaries::day_boundaries(window, zone, day, with_end).contains(instant),
{
    let midnight = zone::local_instants(zone, day, 0);
    let all = boundaries::day_boundaries(window, zone, day, with_end);
    if midnight.contains(instant) {
        let i = midnight.index_of(instant);
        assert(all[i] == instant);
    } else {
        lemma_in_segments(window, zone, day, window.segments.len(), index, instant);
        let rest = boundaries::segments_boundaries(window, zone, day, window.segments.len());
        let i = rest.index_of(instant);
        assert(all[midnight.len() + i] == instant);
    }
}

/// A boundary of a day that is searched is a boundary of the window.
proof fn lemma_in_window(
    window: WindowView,
    fallback: Seq<char>,
    base: int,
    with_end: bool,
    day: int,
    instant: int,
)
    requires
        ({
            let own = time_window::window_zone(window, fallback);
            let base_day = zone::local_day(own, base);
            base_day - boundaries::days_before(with_end) <= day < base_day + SEARCHED_DAYS
                && boundaries::day_boundaries(window, own, day, with_end).contains(instant)
        }),
    ensures
        boundaries::window_boundaries(window, base, fallback, with_end).contains(instant),
{
    let own = time_window::window_zone(window, fallback);
    lemma_in_days(
        window,
        own,
        zone::local_day(own, base) - boundaries::days_before(with_end),
        with_end,
        SEARCHED_DAYS as nat + boundaries::days_before(with_end),
        day,
        instant,
    );
}

/// The segment that keeps a window open at a weekday and a time of day.
spec fn opener(window: WindowView, day: int, time: int) -> int {
    choose|i: int|
        0 <= i < window.segments.len() && time_window::segment_contains(
            #[trigger] window.segments[i],
            time,
        ) && time_window::weekday_allowed(
            window,
            time_window::segment_weekday(window.segments[i], time::weekday_of(day), time),
        )
}

/// The day on which the segment that keeps a window open began.
spec fn opener_day(window: WindowView, day: int, time: int) -> int {
    let segment = window.segments[opener(window, day, time)];
    if segment.0 <= segment.1 || time >= segment.0 {
        day
    } else {
        day - 1
    }
}

/// A window with segments is open from the start to the end of each segment of
/// an allowed day.
proof fn lemma_open_in_segment(
    window: WindowView,
    fallback: Seq<char>,
    offset: int,
    day: int,
    index: int,
    instant: int,
)
    requires
        zone::clocks_fixed(time_window::window_zone(window, fallback), offset),
        segments_within_day(window),
        time::in_calendar(instant),
        0 <= index < window.segments.len(),
        time_window::weekday_allowed(window, time::weekday_of(day)),
        ({
            let segment = window.segments[index];
            let local = instant + offset * NANOS_PER_SEC;
            let end = if segment.0 <= segment.1 {
                day * NANOS_PER_DAY + segment.1
            } else {
                (day + 1) * NANOS_PER_DAY + segment.1
            };
            day * NANOS_PER_DAY + segment.0 <= local < end
        }),
    ensures
        time_window::open_at(window, instant, fallback),
{
    let own = time_window::window_zone(window, fallback);
    let segment = window.segments[index];
    lemma_local(own, offset, instant);
    let local_day = zone::local_day(own, instant);
    let local_time = zone::local_time_of_day(own, instant);
    time::law_weekday_before(local_day);
    assert(local_day == day || local_day == day + 1) by (nonlinear_arith)
        requires
            local_day * 86_400_000_000_000 + local_time == instant + offset * 1_000_000_000,
            0 <= local_time < 86_400_000_000_000,
            day * 86_400_000_000_000 <= instant + offset * 1_000_000_000 < (day + 2)
                * 86_400_000_000_000,
    ;
    assert(time_window::segment_contains(segment, local_time));
    assert(time_window::segment_weekday(segment, time::weekday_of(local_day), local_time)
        == time::weekday_of(day));
}

/// Local days follow each other.
proof fn lemma_day_order(zone: Seq<char>, offset: int, earlier: int, later: int)
    requires
        zone::clocks_fixed(zone, offset),
        time::in_calendar(earlier),
        time::in_calendar(later),
        earlier <= later,
    ensures
        zone::local_day(zone, earlier) <= zone::local_day(zone, later),
{
    lemma_local(zone, offset, earlier);
    lemma_local(zone, offset, later);
}

/// A segment that keeps a window open began on an allowed day, and runs at the
/// moment.
proof fn lemma_opener(window: WindowView, fallback: Seq<char>, offset: int, instant: int)
    requires
        zone::clocks_fixed(time_window::window_zone(window, fallback), offset),
        segments_within_day(window),
        time::in_calendar(instant),
        time_window::open_at(window, instant, fallback),
        window.segments.len() > 0,
    ensures
        ({
            let own = time_window::window_zone(window, fallback);
            let local_day = zone::local_day(own, instant);
            let local_time = zone::local_time_of_day(own, instant);
            let index = opener(window, local_day, local_time);
            let day = opener_day(window, local_day, local_time);
            let segment = window.segments[index];
            let local = instant + offset * NANOS_PER_SEC;
            &&& 0 <= index < window.segments.len()
            &&& time_window::weekday_allowed(window, time::weekday_of(day))
            &&& local_day - 1 <= day <= local_day
            &&& day * NANOS_PER_DAY + segment.0 <= local
            &&& segment.0 <= segment.1 ==> local < day * NANOS_PER_DAY + segment.1
            &&& segment.0 > segment.1 ==> local < (day + 1) * NANOS_PER_DAY + segment.1
        }),
{
    let own = time_window::window_zone(window, fallback);
    lemma_local(own, offset, instant);
    time::law_weekday_before(zone::local_day(own, instant));
}

/// Where the clocks show UTC, every instant of the calendar is on a day of it.
pub proof fn law_utc_on_calendar(zone: Seq<char>, instant: int)
    requires
        zone::clocks_fixed(zone, 0),
        time::in_calendar(instant),
    ensures
        on_calendar(zone, instant),
{
    lemma_local(zone, 0, instant);
}

/// What lies between two instants on the calendar is on it too.
pub proof fn law_between_on_calendar(
    zone: Seq<char>,
    offset: int,
    earlier: int,
    instant: int,
    later: int,
)
    requires
        zone::clocks_fixed(zone, offset),
        on_calendar(zone, earlier),
        on_calendar(zone, later),
        earlier <= instant <= later,
    ensures
        on_calendar(zone, instant),
        later <= earlier + (SEARCHED_DAYS - 1) * NANOS_PER_DAY ==> zone::local_day(zone, later)
            < zone::local_day(zone, earlier) + SEARCHED_DAYS,
{
    lemma_day_order(zone, offset, earlier, instant);
    lemma_day_order(zone, offset, instant, later);
    lemma_local(zone, offset, earlier);
    lemma_local(zone, offset, later);
}

/// A window that is closed at one instant and open at a later one opens at a
/// boundary in between.
pub proof fn law_opens_at_boundary(
    window: WindowView,
    fallback: Seq<char>,
    offset: int,
    base: int,
    with_end: bool,
    closed: int,
    open: int,
) -> (boundary: int)
    requires
        ({
            let own = time_window::window_zone(window, fallback);
            &&& zone::clocks_fixed(own, offset)
            &&& on_calendar(own, base)
            &&& time::in_calendar(closed)
            &&& on_calendar(own, open)
            &&& zone::local_day(own, open) < zone::local_day(own, base) + SEARCHED_DAYS
        }),
        segments_within_day(window),
        base <= closed <= open,
        !time_window::open_at(window, closed, fallback),
        time_window::open_at(window, open, fallback),
    ensures
        closed < boundary <= open,
        time_window::open_at(window, boundary, fallback),
        boundaries::window_boundaries(window, base, fallback, with_end).contains(boundary),
{
    let own = time_window::window_zone(window, fallback);
    lemma_local(own, offset, base);
    lemma_local(own, offset, closed);
    lemma_local(own, offset, open);
    let last_day = zone::local_day(own, open);
    if window.segments.len() == 0 {
        let boundary = last_day * NANOS_PER_DAY - offset * NANOS_PER_SEC;
        assert(boundary <= open);
        if boundary <= closed {
            assert(zone::local_day(own, closed) == last_day);
        }
        lemma_local(own, offset, boundary);
        assert(zone::local_day(own, boundary) == last_day);
        lemma_day_order(own, offset, base, open);
        lemma_instant(own, offset, last_day, 0);
        assert(seq![boundary][0] == boundary);
        lemma_in_day(window, own, last_day, with_end, boundary, 0);
        lemma_in_window(window, fallback, base, with_end, last_day, boundary);
        boundary
    } else {
        let index = opener(window, last_day, zone::local_time_of_day(own, open));
        let day = opener_day(window, last_day, zone::local_time_of_day(own, open));
        lemma_opener(window, fallback, offset, open);
        let segment = window.segments[index];
        let boundary = day * NANOS_PER_DAY + segment.0 - offset * NANOS_PER_SEC;
        assert(boundary <= open);
        if boundary <= closed {
            lemma_open_in_segment(window, fallback, offset, day, index, closed);
        }
        lemma_open_in_segment(window, fallback, offset, day, index, boundary);
        lemma_local(own, offset, boundary);
        assert(zone::local_day(own, boundary) == day);
        lemma_day_order(own, offset, base, boundary);
        lemma_instant(own, offset, day, segment.0);
        assert(boundaries::segment_boundaries(own, day, segment)[0] == boundary);
        lemma_in_day(window, own, day, with_end, boundary, index);
        lemma_in_window(window, fallback, base, with_end, day, boundary);
        boundary
    }
}

/// A window that is open at one instant and closed at a later one closes at a
/// boundary in between.
pub proof fn law_closes_at_boundary(
    window: WindowView,
    fallback: Seq<char>,
    offset: int,
    base: int,
    open: int,
    closed: int,
) -> (boundary: int)
    requires
        ({
            let own = time_window::window_zone(window, fallback);
            &&& zone::clocks_fixed(own, offset)
            &&& on_calendar(own, base)
            &&& zone::day_in_calendar(zone::local_day(own, base) - 1)
            &&& time::in_calendar(open)
            &&& on_calendar(own, closed)
            &&& zone::local_day(own, closed) < zone::local_day(own, base) + SEARCHED_DAYS
        }),
        segments_within_day(window),
        base <= open <= closed,
        time_window::open_at(window, open, fallback),
        !time_window::open_at(window, closed, fallback),
    ensures
        open < boundary <= closed,
        boundaries::window_boundaries(window, base, fallback, true).contains(boundary),
{
    let own = time_window::window_zone(window, fallback);
    lemma_local(own, offset, base);
    lemma_local(own, offset, open);
    lemma_local(own, offset, closed);
    let first_day = zone::local_day(own, open);
    lemma_day_order(own, offset, base, open);
    lemma_day_order(own, offset, open, closed);
    if window.segments.len() == 0 {
        let boundary = (first_day + 1) * NANOS_PER_DAY - offset * NANOS_PER_SEC;
        assert(open < boundary);
        if boundary > closed {
            assert(zone::local_day(own, closed) == first_day);
        }
        lemma_local(own, offset, boundary);
        assert(zone::local_day(own, boundary) == first_day + 1);
        lemma_day_order(own, offset, boundary, closed);
        lemma_instant(own, offset, first_day + 1, 0);
        assert(seq![boundary][0] == boundary);
        lemma_in_day(window, own, first_day + 1, true, boundary, 0);
        lemma_in_window(window, fallback, base, true, first_day + 1, boundary);
        boundary
    } else {
        let index = opener(window, first_day, zone::local_time_of_day(own, open));
        let day = opener_day(window, first_day, zone::local_time_of_day(own, open));
        lemma_opener(window, fallback, offset, open);
        let segment = window.segments[index];
        let end_day = if segment.0 <= segment.1 {
            day
        } else {
            day + 1
        };
        let boundary = end_day * NANOS_PER_DAY + segment.1 - offset * NANOS_PER_SEC;
        assert(open < boundary);
        if boundary > closed {
            lemma_open_in_segment(window, fallback, offset, day, index, closed);
        }
        lemma_local(own, offset, boundary);
        assert(zone::local_day(own, boundary) == end_day);
        lemma_day_order(own, offset, boundary, closed);
        lemma_instant(own, offset, end_day, segment.1);
        let start = zone::local_instants(own, day, segment.0);
        assert(boundaries::segment_boundaries(own, day, segment)[start.len() as int] == boundary);
        lemma_in_day(window, own, day, true, boundary, index);
        lemma_in_window(window, fallback, base, true, day, boundary);
        boundary
    }
}

/// A window is open at an instant where it is open a week before.
pub proof fn law_weekly(window: WindowView, fallback: Seq<char>, offset: int, instant: int)
    requires
        zone::clocks_fixed(time_window::window_zone(window, fallback), offset),
        time::in_calendar(instant),
        time::in_calendar(instant - 7 * NANOS_PER_DAY),
    ensures
        time_window::open_at(window, instant - 7 * NANOS_PER_DAY, fallback)
            == time_window::open_at(window, instant, fallback),
{
    let own = time_window::window_zone(window, fallback);
    lemma_local(own, offset, instant);
    lemma_local(own, offset, instant - 7 * NANOS_PER_DAY);
    let day = zone::local_day(own, instant);
    assert(zone::local_day(own, instant - 7 * NANOS_PER_DAY) == day - 7);
    assert((day - 7 + 3) % 7 == (day + 3) % 7);
}

} // verus!
