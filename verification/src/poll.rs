//! How many polling iterations fit into a waiting budget.

use std::time::Duration;
use vstd::prelude::*;

verus! {

/// The number of whole milliseconds in a duration, as `Duration::as_millis` reports it.
pub uninterp spec fn duration_millis(d: Duration) -> u128;

/// Calls `Duration::as_millis`. Nothing is claimed of the number beyond its name:
/// the same duration always gives the same count.
#[verifier::external_body]
fn as_millis(d: &Duration) -> (millis: u128)
    ensures
        millis == duration_millis(*d),
{
    d.as_millis()
}

/// The least `n >= 1` such that `n` delays of `delay_millis` cover `max_wait_millis`.
pub open spec fn spec_poll_iters(delay_millis: int, max_wait_millis: int) -> int
    recommends
        delay_millis > 0,
{
    let rounded_up = (max_wait_millis + delay_millis - 1) / delay_millis;
    if rounded_up < 1 {
        1
    } else {
        rounded_up
    }
}

/// The low 64 bits of a duration's millisecond count.
pub open spec fn low_millis(d: Duration) -> u64 {
    duration_millis(d) as u64
}

/// `spec_poll_iters` is the ceiling of the quotient, but never less than one:
/// that many delays cover the wait, and one fewer would not (unless one is all there is).
pub proof fn lemma_poll_iters_is_least_cover(delay_millis: int, max_wait_millis: int)
    requires
        delay_millis > 0,
        max_wait_millis >= 0,
    ensures
        spec_poll_iters(delay_millis, max_wait_millis) >= 1,
        spec_poll_iters(delay_millis, max_wait_millis) * delay_millis >= max_wait_millis,
        spec_poll_iters(delay_millis, max_wait_millis) > 1 ==> (spec_poll_iters(
            delay_millis,
            max_wait_millis,
        ) - 1) * delay_millis < max_wait_millis,
        spec_poll_iters(delay_millis, max_wait_millis) <= max_wait_millis || spec_poll_iters(
            delay_millis,
            max_wait_millis,
        ) == 1,
{
    let q = (max_wait_millis + delay_millis - 1) / delay_millis;
    let r = (max_wait_millis + delay_millis - 1) % delay_millis;
    assert(max_wait_millis + delay_millis - 1 == q * delay_millis + r && 0 <= r < delay_millis)
        by (nonlinear_arith)
        requires
            delay_millis > 0,
            q == (max_wait_millis + delay_millis - 1) / delay_millis,
            r == (max_wait_millis + delay_millis - 1) % delay_millis,
    ;
    assert((q - 1) * delay_millis == q * delay_millis - delay_millis) by (nonlinear_arith);
    assert(q <= 0 ==> q * delay_millis <= 0) by (nonlinear_arith)
        requires
            delay_millis > 0,
    ;
    assert(1 * delay_millis == delay_millis);
    assert(q >= 0 && (q > max_wait_millis ==> q <= 1)) by (nonlinear_arith)
        requires
            delay_millis >= 1,
            max_wait_millis >= 0,
            max_wait_millis + delay_millis - 1 == q * delay_millis + r,
            0 <= r < delay_millis,
    ;
}

/// The number of iterations of `delay_interval_millis` that fit into
/// `max_wait_millis`, rounding up, and at least one.
pub fn poll_iters_millis(delay_interval_millis: u64, max_wait_millis: u64) -> (iters: usize)
    requires
        delay_interval_millis > 0,
    ensures
        iters == spec_poll_iters(delay_interval_millis as int, max_wait_millis as int) as usize,
{
    let wide_wait: u128 = max_wait_millis as u128;
    let wide_delay: u128 = delay_interval_millis as u128;
    let rounded_up: u128 = (wide_wait + wide_delay - 1) / wide_delay;
    if rounded_up < 1 {
        1
    } else {
        rounded_up as usize
    }
}

/// The number of iterations `delay_interval` fits into `max_wait`, rounding up.
/// Both durations are taken in whole milliseconds, by their low 64 bits.
pub fn poll_iters(delay_interval: Duration, max_wait: Duration) -> (iters: usize)
    requires
        low_millis(delay_interval) > 0,
    ensures
        iters == spec_poll_iters(
            low_millis(delay_interval) as int,
            low_millis(max_wait) as int,
        ) as usize,
{
    let max_wait_millis: u64 = as_millis(&max_wait) as u64;
    let delay_interval_millis: u64 = as_millis(&delay_interval) as u64;
    poll_iters_millis(delay_interval_millis, max_wait_millis)
}

/// As `poll_iters`, for any pair of durations: `None` when the delay interval
/// is shorter than a millisecond, so that no count exists.
pub fn checked_poll_iters(delay_interval: Duration, max_wait: Duration) -> (iters: Option<usize>)
    ensures
        low_millis(delay_interval) == 0 <==> iters.is_none(),
        iters.is_some() ==> iters.unwrap() == spec_poll_iters(
            low_millis(delay_interval) as int,
            low_millis(max_wait) as int,
        ) as usize,
{
    let delay_interval_millis: u64 = as_millis(&delay_interval) as u64;
    if delay_interval_millis == 0 {
        None
    } else {
        Some(poll_iters(delay_interval, max_wait))
    }
}

} // verus!
