//! First due times of interval schedules that keep a stable phase.
use vstd::prelude::*;
use crate::error::{self, ErrorView, InvalidJobKind, SchedulerError};
use crate::model::schedule::{self, GroupedIntervalSchedule, StaggeredIntervalSchedule};
use crate::time::{self, floor_div, Duration, UtcTime};

verus! {

/// The 64-bit FNV-1a hash of a sequence of bytes.
pub open spec fn fnv1a(bytes: Seq<u8>) -> u64
    decreases bytes.len(),
{
    if bytes.len() == 0 {
        0xcbf29ce484222325
    } else {
        (fnv1a(bytes.drop_last()) ^ (bytes.last() as u64)).wrapping_mul(0x100000001b3)
    }
}

/// The hash of a seed: FNV-1a over its UTF-8 bytes.
pub open spec fn seed_hash(seed: Seq<char>) -> int {
    fnv1a(vstd::utf8::encode_utf8(seed)) as int
}

/// The first instant at or after `now` that lies `phase` after a multiple of
/// `interval`.
pub open spec fn first_in_phase(now: int, interval: int, phase: int) -> int {
    now + (phase - now) % interval
}

/// The first instant in phase, unless it leaves the calendar.
pub open spec fn aligned_initial(now: int, interval: int, phase: int) -> Result<int, ErrorView> {
    if time::in_calendar(first_in_phase(now, interval, phase)) {
        Ok(first_in_phase(now, interval, phase))
    } else {
        Err(error::interval_out_of_range_error())
    }
}

/// The phase of a staggered schedule: that of its seed, or else of the job id.
pub open spec fn staggered_phase(every: int, seed: Option<Seq<char>>, job_id: Seq<char>) -> int {
    seed_hash(
        match seed {
            Some(own) => own,
            None => job_id,
        },
    ) % every
}

/// The first due time of a staggered schedule.
pub open spec fn staggered_initial(
    now: int,
    every: int,
    seed: Option<Seq<char>>,
    job_id: Seq<char>,
) -> Result<int, ErrorView> {
    if every == 0 {
        Err(error::zero_interval_error())
    } else {
        aligned_initial(now, every, staggered_phase(every, seed, job_id))
    }
}

/// What is wrong with a grouped interval; `None` is a valid one.
pub open spec fn grouped_interval_error(group_size: nat, member_index: nat) -> Option<ErrorView> {
    if group_size == 0 {
        Some(error::other_job_error("grouped interval group_size must be greater than zero"@))
    } else if member_index >= group_size {
        Some(error::other_job_error("grouped interval member_index must be less than group_size"@))
    } else {
        None
    }
}

/// The offset by which a seed turns all members of a group.
pub open spec fn group_offset(every: int, group_seed: Option<Seq<char>>) -> int {
    match group_seed {
        Some(seed) => seed_hash(seed) % every,
        None => 0,
    }
}

/// The phase of a member of a group: its share of the interval, turned by the
/// seed of the group.
pub open spec fn grouped_phase(
    every: int,
    group_size: nat,
    member_index: nat,
    group_seed: Option<Seq<char>>,
) -> int {
    (every * member_index / group_size as int + group_offset(every, group_seed)) % every
}

/// The first due time of a member of a group.
pub open spec fn grouped_initial(
    now: int,
    every: int,
    group_size: nat,
    member_index: nat,
    group_seed: Option<Seq<char>>,
) -> Result<int, ErrorView> {
    match grouped_interval_error(group_size, member_index) {
        Some(error) => Err(error),
        None => if every == 0 {
            Err(error::zero_interval_error())
        } else {
            aligned_initial(now, every, grouped_phase(every, group_size, member_index, group_seed))
        },
    }
}

/// The value of an instant or the words of an error.
pub open spec fn instant_result(result: Result<UtcTime, SchedulerError>) -> Result<int, ErrorView> {
    match result {
        Ok(instant) => Ok(instant@),
        Err(error) => Err(error@),
    }
}

/// The first instant in phase is the least one at or after `now`, and comes
/// within one interval.
pub proof fn law_first_in_phase(now: int, interval: int, phase: int)
    requires
        0 <= phase < interval,
    ensures
        now <= first_in_phase(now, interval, phase) < now + interval,
        first_in_phase(now, interval, phase) % interval == phase,
        forall|t: int|
            now <= t && #[trigger] (t % interval) == phase ==> first_in_phase(now, interval, phase)
                <= t,
{
    let first = first_in_phase(now, interval, phase);
    vstd::arithmetic::div_mod::lemma_mod_bound(phase - now, interval);
    assert(first % interval == phase) by {
        vstd::arithmetic::div_mod::lemma_add_mod_noop_right(now, phase - now, interval);
        vstd::arithmetic::div_mod::lemma_small_mod(phase as nat, interval as nat);
    }
    assert forall|t: int| now <= t && #[trigger] (t % interval) == phase implies first <= t by {
        if t < first {
            let gap = first - t;
            vstd::arithmetic::div_mod::lemma_sub_mod_noop(first, t, interval);
            assert(gap % interval == (phase - phase) % interval);
            vstd::arithmetic::div_mod::lemma_small_mod(0, interval as nat);
            vstd::arithmetic::div_mod::lemma_small_mod(gap as nat, interval as nat);
        }
    }
}

/// The first due time of a staggered schedule comes at or after `now`, and
/// before one whole interval has passed.
pub proof fn law_staggered_bounded(
    now: int,
    every: int,
    seed: Option<Seq<char>>,
    job_id: Seq<char>,
)
    requires
        every > 0,
    ensures
        staggered_initial(now, every, seed, job_id) matches Ok(next) ==> now <= next < now + every,
{
    let text = match seed {
        Some(own) => own,
        None => job_id,
    };
    vstd::arithmetic::div_mod::lemma_mod_bound(seed_hash(text), every);
    law_first_in_phase(now, every, staggered_phase(every, seed, job_id));
}

/// The first due time of a member of a group comes at or after `now`, and
/// before one whole interval has passed.
pub proof fn law_grouped_bounded(
    now: int,
    every: int,
    group_size: nat,
    member_index: nat,
    group_seed: Option<Seq<char>>,
)
    requires
        every > 0,
    ensures
        grouped_initial(now, every, group_size, member_index, group_seed) matches Ok(next) ==> now
            <= next < now + every,
{
    let share = every * member_index / group_size as int + group_offset(every, group_seed);
    vstd::arithmetic::div_mod::lemma_mod_bound(share, every);
    law_first_in_phase(now, every, grouped_phase(every, group_size, member_index, group_seed));
}

/// The first due times of two members of a group lie as far apart as their
/// shares of the interval, up to whole intervals, whatever the seed and
/// whenever they are computed. A share is rounded down to nanoseconds; where
/// the size of the group divides the interval, the members are evenly spaced.
pub proof fn law_grouped_evenly_spaced(
    now: int,
    every: int,
    group_size: nat,
    first: nat,
    second: nat,
    group_seed: Option<Seq<char>>,
)
    requires
        every > 0,
        grouped_initial(now, every, group_size, first, group_seed) is Ok,
        grouped_initial(now, every, group_size, second, group_seed) is Ok,
    ensures
        (grouped_initial(now, every, group_size, second, group_seed)->Ok_0 - grouped_initial(
            now,
            every,
            group_size,
            first,
            group_seed,
        )->Ok_0) % every == (every * second / group_size as int - every * first
            / group_size as int) % every,
        every % group_size as int == 0 ==> every * second / group_size as int - every * first
            / group_size as int == (second - first) * (every / group_size as int),
{
    let offset = group_offset(every, group_seed);
    let low_share = every * first / group_size as int;
    let high_share = every * second / group_size as int;
    let low = grouped_phase(every, group_size, first, group_seed);
    let high = grouped_phase(every, group_size, second, group_seed);
    vstd::arithmetic::div_mod::lemma_mod_bound(low_share + offset, every);
    vstd::arithmetic::div_mod::lemma_mod_bound(high_share + offset, every);
    law_first_in_phase(now, every, low);
    law_first_in_phase(now, every, high);
    let a = first_in_phase(now, every, low);
    let b = first_in_phase(now, every, high);
    vstd::arithmetic::div_mod::lemma_sub_mod_noop(b, a, every);
    vstd::arithmetic::div_mod::lemma_sub_mod_noop(high_share + offset, low_share + offset, every);
    if every % group_size as int == 0 {
        let share = every / group_size as int;
        vstd::arithmetic::div_mod::lemma_fundamental_div_mod(every, group_size as int);
        lemma_exact_share(every, group_size, first, share);
        lemma_exact_share(every, group_size, second, share);
        assert(second * share - first * share == (second - first) * share) by (nonlinear_arith);
    }
}

proof fn lemma_exact_share(every: int, group_size: nat, index: nat, share: int)
    requires
        group_size > 0,
        every == group_size * share,
    ensures
        every * index / group_size as int == index * share,
{
    assert(every * index == group_size * (index * share)) by (nonlinear_arith)
        requires
            every == group_size * share,
    ;
    vstd::arithmetic::div_mod::lemma_div_multiples_vanish(index * share, group_size as int);
}

/// The first due time of a staggered schedule: the first instant at or after
/// `now` in the phase of its seed, or of `job_id` where it has none.
pub fn staggered_initial_next_run_at(
    now: UtcTime,
    staggered: &StaggeredIntervalSchedule,
    job_id: &str,
) -> (r: Result<UtcTime, SchedulerError>)
    ensures
        instant_result(r) == staggered_initial(
            now@,
            staggered.every@,
            schedule::text_view(staggered.seed),
            job_id@,
        ),
{
    let interval: u128 = match interval_nanos(staggered.every) {
        Ok(nanos) => nanos,
        Err(error) => {
            return Err(error);
        },
    };
    let hash: u64 = match &staggered.seed {
        Some(seed) => stable_seed_hash(seed.as_str()),
        None => stable_seed_hash(job_id),
    };
    aligned_initial_next_run_at(now, interval, hash as u128 % interval)
}

/// The first due time of a member of a group: the first instant at or after
/// `now` in its share of the interval.
pub fn grouped_initial_next_run_at(
    now: UtcTime,
    grouped: &GroupedIntervalSchedule,
) -> (r: Result<UtcTime, SchedulerError>)
    ensures
        instant_result(r) == grouped_initial(
            now@,
            grouped.every@,
            grouped.group_size as nat,
            grouped.member_index as nat,
            schedule::text_view(grouped.group_seed),
        ),
{
    match validate_grouped_interval(grouped) {
        Ok(()) => {},
        Err(error) => {
            return Err(error);
        },
    }
    let interval: u128 = match interval_nanos(grouped.every) {
        Ok(nanos) => nanos,
        Err(error) => {
            return Err(error);
        },
    };
    let member: u128 = grouped.member_index as u128;
    let size: u128 = grouped.group_size as u128;
    proof {
        assert(interval * member <= (u64::MAX * time::NANOS_PER_SEC + 999_999_999) * u32::MAX)
            by (nonlinear_arith)
            requires
                0 <= interval <= u64::MAX * time::NANOS_PER_SEC + 999_999_999,
                0 <= member <= u32::MAX,
        ;
        assert(interval * member / size as int <= interval) by (nonlinear_arith)
            requires
                0 <= interval,
                0 <= member < size,
        ;
    }
    let base_phase: u128 = interval * member / size;
    let offset: u128 = match &grouped.group_seed {
        Some(seed) => stable_seed_hash(seed.as_str()) as u128 % interval,
        None => 0,
    };
    aligned_initial_next_run_at(now, interval, (base_phase + offset) % interval)
}

/// Rejects a group without members, and a member that is not in its group.
pub fn validate_grouped_interval(
    grouped: &GroupedIntervalSchedule,
) -> (r: Result<(), SchedulerError>)
    ensures
        match r {
            Ok(()) => grouped_interval_error(
                grouped.group_size as nat,
                grouped.member_index as nat,
            ) is None,
            Err(error) => grouped_interval_error(
                grouped.group_size as nat,
                grouped.member_index as nat,
            ) == Some(error@),
        },
{
    if grouped.group_size == 0 {
        return Err(
            SchedulerError::invalid_job_with_kind(
                InvalidJobKind::Other,
                "grouped interval group_size must be greater than zero",
            ),
        );
    }
    if grouped.member_index >= grouped.group_size {
        return Err(
            SchedulerError::invalid_job_with_kind(
                InvalidJobKind::Other,
                "grouped interval member_index must be less than group_size",
            ),
        );
    }
    Ok(())
}

/// Nanoseconds since the Unix epoch.
pub fn utc_to_nanos(value: UtcTime) -> (r: i128)
    ensures
        r == value@,
{
    value.unix_nanos()
}

/// The instant at so many nanoseconds since the Unix epoch.
pub fn nanos_to_utc(value: i128) -> (r: Option<UtcTime>)
    ensures
        r is Some <==> time::in_calendar(value as int),
        r matches Some(instant) ==> instant@ == value,
{
    UtcTime::from_unix_nanos(value)
}

/// The hash that phases are derived from: the same on every machine and in
/// every version.
pub fn stable_seed_hash(seed: &str) -> (r: u64)
    ensures
        r == seed_hash(seed@),
{
    let bytes = seed.as_bytes();
    let mut hash: u64 = 0xcbf29ce484222325u64;
    let mut index: usize = 0;
    while index < bytes.len()
        invariant
            index <= bytes@.len(),
            hash == fnv1a(bytes@.take(index as int)),
        decreases bytes.len() - index,
    {
        proof {
            assert(bytes@.take(index + 1).drop_last() =~= bytes@.take(index as int));
        }
        hash = (hash ^ (bytes[index] as u64)).wrapping_mul(0x100000001b3);
        index = index + 1;
    }
    assert(bytes@.take(index as int) =~= bytes@);
    hash
}

fn interval_nanos(every: Duration) -> (r: Result<u128, SchedulerError>)
    ensures
        match r {
            Ok(nanos) => nanos == every@ && 0 < nanos <= u64::MAX * time::NANOS_PER_SEC
                + 999_999_999,
            Err(error) => every@ == 0 && error@ == error::zero_interval_error(),
        },
{
    let nanos: u128 = every.as_nanos();
    if nanos == 0 {
        return Err(SchedulerError::invalid_zero_interval());
    }
    Ok(nanos)
}

/// The first instant at or after `now` that lies `phase` after a multiple of
/// `interval`, both in nanoseconds.
pub fn aligned_initial_next_run_at(
    now: UtcTime,
    interval: u128,
    phase: u128,
) -> (r: Result<UtcTime, SchedulerError>)
    requires
        phase < interval,
        interval <= u64::MAX * time::NANOS_PER_SEC + 999_999_999,
    ensures
        instant_result(r) == aligned_initial(now@, interval as int, phase as int),
{
    let length: i128 = interval as i128;
    let now_nanos: i128 = now.unix_nanos();
    proof {
        lemma_cycle_start(now_nanos as int, length as int, phase as int);
    }
    let cycle: i128 = floor_div(now_nanos, length);
    let cycle_start: i128 = cycle * length;
    let mut candidate: i128 = cycle_start + phase as i128;
    if candidate < now_nanos {
        candidate = candidate + length;
    }
    match nanos_to_utc(candidate) {
        Some(instant) => Ok(instant),
        None => Err(SchedulerError::invalid_interval_out_of_range()),
    }
}

proof fn lemma_cycle_start(now: int, interval: int, phase: int)
    requires
        0 <= phase < interval,
    ensures
        now - interval < now / interval * interval <= now,
        now / interval * interval + phase >= now ==> first_in_phase(now, interval, phase) == now
            / interval * interval + phase,
        now / interval * interval + phase < now ==> first_in_phase(now, interval, phase) == now
            / interval * interval + phase + interval,
{
    let start = now / interval * interval;
    vstd::arithmetic::div_mod::lemma_fundamental_div_mod(now, interval);
    vstd::arithmetic::mul::lemma_mul_is_commutative(interval, now / interval);
    vstd::arithmetic::div_mod::lemma_mod_bound(now, interval);
    let rest = now % interval;
    assert(now == start + rest);
    if phase >= rest {
        vstd::arithmetic::div_mod::lemma_mod_multiples_vanish(
            -(now / interval),
            phase - rest,
            interval,
        );
        assert(interval * (-(now / interval)) + (phase - rest) == phase - now)
            by (nonlinear_arith)
            requires
                now == now / interval * interval + rest,
        ;
        vstd::arithmetic::div_mod::lemma_small_mod((phase - rest) as nat, interval as nat);
    } else {
        vstd::arithmetic::div_mod::lemma_mod_multiples_vanish(
            -(now / interval) - 1,
            phase - rest + interval,
            interval,
        );
        assert(interval * (-(now / interval) - 1) + (phase - rest + interval) == phase - now)
            by (nonlinear_arith)
            requires
                now == now / interval * interval + rest,
        ;
        vstd::arithmetic::div_mod::lemma_small_mod(
            (phase - rest + interval) as nat,
            interval as nat,
        );
    }
}

/// The hash of a seed takes in its bytes one after the other, from the offset
/// basis on.
pub proof fn law_hash_steps(bytes: Seq<u8>, byte: u8)
    ensures
        fnv1a(Seq::<u8>::empty()) == 14_695_981_039_346_656_037,
        fnv1a(bytes.push(byte)) == ((fnv1a(bytes) ^ (byte as u64)) * 1_099_511_628_211) % 0x1_0000_0000_0000_0000,
{
    assert(bytes.push(byte).drop_last() =~= bytes);
}

/// The hash of a seed depends on its text alone.
pub proof fn law_call_seed_hash(seed: &str, r: u64)
    requires
        call_ensures(stable_seed_hash, (seed,), r),
    ensures
        r == fnv1a(vstd::utf8::encode_utf8(seed@)),
{
}

/// The first due time of a staggered schedule comes at or after now and within
/// one interval, and as far past a multiple of the interval as the hash of the
/// seed does, or of the job id where there is no seed.
pub proof fn law_call_staggered(
    now: UtcTime,
    staggered: &StaggeredIntervalSchedule,
    job_id: &str,
    r: Result<UtcTime, SchedulerError>,
)
    requires
        call_ensures(staggered_initial_next_run_at, (now, staggered, job_id), r),
        staggered.every@ > 0,
    ensures
        r matches Ok(next) ==> {
            &&& now@ <= next@ < now@ + staggered.every@
            &&& staggered.seed is None ==> next@ % staggered.every@ == fnv1a(
                vstd::utf8::encode_utf8(job_id@),
            ) as int % staggered.every@
            &&& staggered.seed matches Some(seed) ==> next@ % staggered.every@ == fnv1a(
                vstd::utf8::encode_utf8(seed@),
            ) as int % staggered.every@
        },
        r is Err ==> r->Err_0@ == ErrorView::InvalidJob(
            InvalidJobKind::IntervalOutOfRange,
            "interval schedule is too large to represent"@,
        ),
        time::in_calendar(now@) && time::in_calendar(now@ + staggered.every@) ==> r is Ok,
{
    let text = match staggered.seed {
        Some(own) => own@,
        None => job_id@,
    };
    let phase = fnv1a(vstd::utf8::encode_utf8(text)) as int % staggered.every@;
    vstd::arithmetic::div_mod::lemma_mod_bound(seed_hash(text), staggered.every@);
    law_first_in_phase(now@, staggered.every@, phase);
}

/// The first due time of a member of a group comes at or after now and within
/// one interval, and lies past a multiple of the interval by the share of the
/// member and the hash of the seed of the group, where there is one.
pub proof fn law_call_grouped(
    now: UtcTime,
    grouped: &GroupedIntervalSchedule,
    r: Result<UtcTime, SchedulerError>,
)
    requires
        call_ensures(grouped_initial_next_run_at, (now, grouped), r),
        grouped.every@ > 0,
        grouped.member_index < grouped.group_size,
    ensures
        r matches Ok(next) ==> {
            &&& now@ <= next@ < now@ + grouped.every@
            &&& grouped.group_seed is None ==> next@ % grouped.every@ == grouped.every@
                * grouped.member_index as int / grouped.group_size as int
            &&& grouped.group_seed matches Some(seed) ==> (next@ - grouped.every@
                * grouped.member_index as int / grouped.group_size as int - fnv1a(
                vstd::utf8::encode_utf8(seed@),
            )) % grouped.every@ == 0
        },
        time::in_calendar(now@) && time::in_calendar(now@ + grouped.every@) ==> r is Ok,
{
    let every = grouped.every@;
    let size = grouped.group_size as int;
    let share = every * grouped.member_index as int / size;
    let seed = schedule::text_view(grouped.group_seed);
    let phase = grouped_phase(
        every,
        grouped.group_size as nat,
        grouped.member_index as nat,
        seed,
    );
    let offset = group_offset(every, seed);
    vstd::arithmetic::div_mod::lemma_mod_bound(share + offset, every);
    law_first_in_phase(now@, every, phase);
    assert(0 <= share < every) by (nonlinear_arith)
        requires
            share == every * grouped.member_index as int / size,
            every > 0,
            0 <= grouped.member_index < size,
    ;
    vstd::arithmetic::div_mod::lemma_small_mod(share as nat, every as nat);
    if let Ok(next) = r {
        if let Some(text) = grouped.group_seed {
            let hash = fnv1a(vstd::utf8::encode_utf8(text@)) as int;
            vstd::arithmetic::div_mod::lemma_add_mod_noop_right(share, hash, every);
            assert(next@ % every == (share + hash) % every);
            vstd::arithmetic::div_mod::lemma_sub_mod_noop(next@, share + hash, every);
            vstd::arithmetic::div_mod::lemma_small_mod(0, every as nat);
        }
    }
}

/// A group without members and a member outside its group are refused before
/// anything else; then an interval of length zero.
pub proof fn law_call_grouped_refused(
    now: UtcTime,
    grouped: &GroupedIntervalSchedule,
    r: Result<UtcTime, SchedulerError>,
)
    requires
        call_ensures(grouped_initial_next_run_at, (now, grouped), r),
    ensures
        grouped.group_size == 0 ==> r is Err && r->Err_0@ == ErrorView::InvalidJob(
            InvalidJobKind::Other,
            "grouped interval group_size must be greater than zero"@,
        ),
        grouped.member_index >= grouped.group_size > 0 ==> r is Err && r->Err_0@
            == ErrorView::InvalidJob(
            InvalidJobKind::Other,
            "grouped interval member_index must be less than group_size"@,
        ),
        grouped.member_index < grouped.group_size && grouped.every@ == 0 ==> r is Err
            && r->Err_0@ == ErrorView::InvalidJob(
            InvalidJobKind::ZeroInterval,
            "interval schedule must be greater than zero"@,
        ),
{
}

/// A staggered interval of length zero is refused.
pub proof fn law_call_staggered_refused(
    now: UtcTime,
    staggered: &StaggeredIntervalSchedule,
    job_id: &str,
    r: Result<UtcTime, SchedulerError>,
)
    requires
        call_ensures(staggered_initial_next_run_at, (now, staggered, job_id), r),
        staggered.every@ == 0,
    ensures
        r is Err,
        r->Err_0@ == ErrorView::InvalidJob(
            InvalidJobKind::ZeroInterval,
            "interval schedule must be greater than zero"@,
        ),
{
}

} // verus!
