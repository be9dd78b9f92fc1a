//! Keys and tokens of the leases that are kept in Valkey.
use std::time::{SystemTime, UNIX_EPOCH};
use vstd::prelude::*;
use crate::execution_guard::{ExecutionGuardScope, ExecutionSlot, SlotView};
use crate::text::{self, decimal_text, join3};
use crate::time::{Duration, UtcTime};
use crate::timestamp::{self, to_rfc3339};

verus! {

/// The key of the lock of a resource.
pub open spec fn resource_key(prefix: Seq<char>, resource_id: Seq<char>) -> Seq<char> {
    prefix + resource_id + ":resource"@
}

/// The key of the lease of one occurrence on a resource.
pub open spec fn occurrence_key(
    prefix: Seq<char>,
    resource_id: Seq<char>,
    scheduled_at: int,
) -> Seq<char> {
    prefix + resource_id + ":occurrence:"@ + timestamp::rfc3339(scheduled_at)
}

/// The key of the index of the occurrences on a resource.
pub open spec fn occurrences_key(prefix: Seq<char>, resource_id: Seq<char>) -> Seq<char> {
    prefix + resource_id + ":occurrences"@
}

/// The key of the lease of a slot.
pub open spec fn slot_key(prefix: Seq<char>, slot: SlotView) -> Seq<char> {
    match slot.scope {
        ExecutionGuardScope::Occurrence => occurrence_key(
            prefix,
            slot.resource_id,
            slot.scheduled_at->0,
        ),
        ExecutionGuardScope::Resource => resource_key(prefix, slot.resource_id),
    }
}

/// Whether a slot of an occurrence names it.
pub open spec fn slot_complete(slot: SlotView) -> bool {
    slot.scope == ExecutionGuardScope::Occurrence ==> slot.scheduled_at is Some
}

/// The token of a moment and a number.
pub open spec fn token_text(prefix: Seq<char>, now: nat, sequence: nat) -> Seq<char> {
    prefix + "-"@ + text::decimal(now) + "-"@ + text::decimal(sequence)
}

/// The key of the lease of a slot.
pub fn lease_key(prefix: &str, slot: &ExecutionSlot) -> (r: String)
    requires
        slot_complete(slot@),
    ensures
        r@ == slot_key(prefix@, slot@),
{
    match slot.scope {
        ExecutionGuardScope::Occurrence => occurrence_lease_key(
            prefix,
            slot.resource_id.as_str(),
            slot.scheduled_at.unwrap(),
        ),
        ExecutionGuardScope::Resource => resource_lock_key(prefix, slot.resource_id.as_str()),
    }
}

/// The key of the lock of a resource.
pub fn resource_lock_key(prefix: &str, resource_id: &str) -> (r: String)
    ensures
        r@ == resource_key(prefix@, resource_id@),
{
    join3(prefix, resource_id, ":resource")
}

/// The key of the lease of one occurrence on a resource.
pub fn occurrence_lease_key(prefix: &str, resource_id: &str, scheduled_at: UtcTime) -> (r: String)
    ensures
        r@ == occurrence_key(prefix@, resource_id@, scheduled_at@),
{
    let mut key = join3(prefix, resource_id, ":occurrence:");
    let instant = to_rfc3339(scheduled_at);
    key.append(instant.as_str());
    key
}

/// The key of the index of the occurrences on a resource.
pub fn occurrence_index_key(prefix: &str, resource_id: &str) -> (r: String)
    ensures
        r@ == occurrences_key(prefix@, resource_id@),
{
    join3(prefix, resource_id, ":occurrences")
}

/// Reads `std::time::SystemTime::now`: nanoseconds since the Unix epoch, and
/// zero before it. Nothing is promised of the result.
#[verifier::external_body]
fn unix_nanos_now() -> (r: u128) {
    SystemTime::now().duration_since(UNIX_EPOCH).unwrap_or_default().as_nanos()
}

/// The whole milliseconds of a number of nanoseconds, as far as they fit into
/// 64 bits.
pub fn millis_of(nanos: u128) -> (r: u64)
    ensures
        r == (nanos / 1_000_000) as u64,
{
    (nanos / 1_000_000) as u64
}

/// The present moment, in milliseconds since the Unix epoch.
pub fn now_millis() -> (r: u64)
    ensures
        exists|nanos: u128| r == #[trigger] (nanos / 1_000_000) as u64,
{
    let nanos: u128 = unix_nanos_now();
    millis_of(nanos)
}

/// The token of a moment and a number.
pub fn token_at(prefix: &str, now: u128, sequence: u64) -> (r: String)
    ensures
        r@ == token_text(prefix@, now as nat, sequence as nat),
{
    let moment = decimal_text(now);
    let number = decimal_text(sequence as u128);
    let mut token = join3(prefix, "-", moment.as_str());
    token.append("-");
    token.append(number.as_str());
    token
}

/// The number that a counter of 64 bits shows after so many tokens.
pub open spec fn counter_after(counter: nat, tokens: nat) -> nat {
    (counter + tokens) % 0x1_0000_0000_0000_0000
}

/// A new token: made of the present moment and of the next number of a counter,
/// which begins again after the greatest number.
pub fn next_token(counter: &mut u64, prefix: &str) -> (r: String)
    ensures
        exists|now: nat|
            r@ == #[trigger] token_text(prefix@, now, *old(counter) as nat),
        *final(counter) == counter_after(*old(counter) as nat, 1),
        r@.len() > 0,
{
    let now: u128 = unix_nanos_now();
    let sequence: u64 = *counter;
    *counter = sequence.wrapping_add(1);
    let token = token_at(prefix, now, sequence);
    proof {
        reveal_strlit("-");
    }
    token
}

/// Two tokens with one prefix differ where their moments or their numbers do; so
/// those of two numbers differ whatever the clock showed.
pub proof fn law_tokens_differ(
    prefix: Seq<char>,
    first_now: nat,
    first: nat,
    second_now: nat,
    second: nat,
)
    requires
        first != second || first_now != second_now,
    ensures
        token_text(prefix, first_now, first) != token_text(prefix, second_now, second),
        token_text(prefix, first_now, first).len() > 0,
        token_text(prefix, second_now, second).len() > 0,
{
    reveal_strlit("-");
    let one = token_text(prefix, first_now, first);
    let other = token_text(prefix, second_now, second);
    let start: int = prefix.len() + 1int;
    let moment = text::decimal(first_now);
    let other_moment = text::decimal(second_now);
    text::law_decimal_reads_back(first_now);
    text::law_decimal_reads_back(second_now);
    text::law_decimal_reads_back(first);
    text::law_decimal_reads_back(second);
    text::lemma_decimal_digits(first_now);
    text::lemma_decimal_digits(second_now);
    if one == other {
        assert(one[start + moment.len()] == '-');
        assert(other[start + other_moment.len()] == '-');
        if moment.len() < other_moment.len() {
            assert(other[start + moment.len()] == other_moment[moment.len() as int]);
        } else if other_moment.len() < moment.len() {
            assert(one[start + other_moment.len()] == moment[other_moment.len() as int]);
        }
        assert forall|i: int| 0 <= i < moment.len() implies moment[i] == other_moment[i] by {
            assert(one[start + i] == moment[i]);
            assert(other[start + i] == other_moment[i]);
        }
        assert(moment =~= other_moment);
        let head: int = start + moment.len() + 1;
        assert(one.skip(head) =~= text::decimal(first));
        assert(other.skip(head) =~= text::decimal(second));
    }
}

/// Two tokens that are made with one counter differ, whatever the clock showed,
/// unless the counter came round between them. Tokens made in two goes count as
/// if they were made in one.
pub proof fn law_tokens_of_a_counter_differ(
    prefix: Seq<char>,
    counter: nat,
    tokens: nat,
    first_now: nat,
    second_now: nat,
)
    requires
        counter <= u64::MAX,
        0 < tokens <= u64::MAX,
    ensures
        token_text(prefix, first_now, counter) != token_text(
            prefix,
            second_now,
            counter_after(counter, tokens),
        ),
        forall|more: nat|
            counter_after(counter_after(counter, tokens), more) == #[trigger] counter_after(
                counter,
                tokens + more,
            ),
{
    law_tokens_differ(prefix, first_now, counter, second_now, counter_after(counter, tokens));
}

/// The length of a lease in whole milliseconds, or the greatest number where
/// it does not fit.
pub fn ttl_millis(ttl: Duration) -> (r: u64)
    ensures
        r == if ttl@ / 1_000_000 <= u64::MAX {
            ttl@ / 1_000_000
        } else {
            u64::MAX as int
        },
{
    let millis: u128 = ttl.as_millis();
    if millis <= u64::MAX as u128 {
        millis as u64
    } else {
        u64::MAX
    }
}

/// When a lease that starts now ends, in milliseconds since the Unix epoch.
pub fn expires_at_millis(now_millis: u64, ttl_millis: u64) -> (r: u64)
    ensures
        r == if now_millis + ttl_millis <= u64::MAX {
            now_millis + ttl_millis
        } else {
            u64::MAX as int
        },
{
    now_millis.saturating_add(ttl_millis)
}

/// The keys of a resource: its lock, the lease of an occurrence, and the index
/// of its occurrences.
pub proof fn law_call_keys(
    prefix: &str,
    resource_id: &str,
    scheduled_at: UtcTime,
    lock: String,
    occurrence: String,
    index: String,
)
    requires
        call_ensures(resource_lock_key, (prefix, resource_id), lock),
        call_ensures(occurrence_lease_key, (prefix, resource_id, scheduled_at), occurrence),
        call_ensures(occurrence_index_key, (prefix, resource_id), index),
    ensures
        lock@ == prefix@ + resource_id@ + ":resource"@,
        occurrence@ == prefix@ + resource_id@ + ":occurrence:"@ + timestamp::rfc3339(
            scheduled_at@,
        ),
        index@ == prefix@ + resource_id@ + ":occurrences"@,
{
}

/// A slot is leased under the key of its occurrence, or of its resource, by its
/// scope.
pub proof fn law_call_slot_key(prefix: &str, slot: &ExecutionSlot, r: String)
    requires
        call_ensures(lease_key, (prefix, slot), r),
        slot_complete(slot@),
    ensures
        slot.scope == ExecutionGuardScope::Occurrence ==> r@ == prefix@ + slot.resource_id@
            + ":occurrence:"@ + timestamp::rfc3339(slot@.scheduled_at->0),
        slot.scope == ExecutionGuardScope::Resource ==> r@ == prefix@ + slot.resource_id@
            + ":resource"@,
{
}

/// A token names its prefix, its moment and its number, in this order.
pub proof fn law_call_token(prefix: &str, now: u128, sequence: u64, r: String)
    requires
        call_ensures(token_at, (prefix, now, sequence), r),
    ensures
        r@ == prefix@ + "-"@ + text::decimal(now as nat) + "-"@ + text::decimal(sequence as nat),
{
}

/// Each token uses up one number of the counter, which begins again at zero
/// after its greatest.
pub proof fn law_call_next_token(counter: &mut u64, prefix: &str, r: String)
    requires
        call_ensures(next_token, (counter, prefix), r),
    ensures
        *old(counter) < 0xffff_ffff_ffff_ffff ==> *final(counter) == *old(counter) + 1,
        *old(counter) == 0xffff_ffff_ffff_ffff ==> *final(counter) == 0,
        exists|now: nat|
            r@ == #[trigger] token_text(prefix@, now, *old(counter) as nat),
{
}

/// A lease ends its length after now, and no later than the greatest moment.
pub proof fn law_call_expiry(now: u64, ttl: Duration, millis: u64, end: u64)
    requires
        call_ensures(ttl_millis, (ttl,), millis),
        call_ensures(expires_at_millis, (now, millis), end),
        ttl@ >= 0,
    ensures
        millis * 1_000_000 <= ttl@,
        ttl@ / 1_000_000 <= 0xffff_ffff_ffff_ffff ==> ttl@ < (millis + 1) * 1_000_000,
        ttl@ / 1_000_000 > 0xffff_ffff_ffff_ffff ==> millis == 0xffff_ffff_ffff_ffff,
        now + millis <= 0xffff_ffff_ffff_ffff ==> end - now == millis,
        now + millis > 0xffff_ffff_ffff_ffff ==> end == 0xffff_ffff_ffff_ffff,
{
}

} // verus!
