//! What the timing constants mean, in nanoseconds.
use crate::clock::LocalNs;
use crate::timing::{span, ServiceTiming};
use vstd::prelude::*;

verus! {

/// A constant keeps its value as far as the clock reaches; one beyond that counts as the longest
/// span that the clock can hold.
pub proof fn spans_keep_what_the_clock_holds(ns: u128)
    ensures
        ns <= i64::MAX ==> span(ns) == ns,
        ns > i64::MAX ==> span(ns) == i64::MAX,
{
}

/// Panic timing is valid exactly when time passes between two transmissions, and an observation
/// lasts at least from one to the next.
pub proof fn observations_outlive_the_interval(timing: ServiceTiming)
    ensures
        timing.has_valid_panic_timing() <==> 0 < timing.panic_interval
            <= timing.panic_observation_ttl,
{
}

/// Division rounded down, by its property: the quotient is the only number of widths that starts
/// no later and ends later.
proof fn lemma_quotient_bounds(dividend: int, divisor: int)
    requires
        divisor > 0,
    ensures
        (dividend / divisor) * divisor <= dividend < (dividend / divisor + 1) * divisor,
        dividend >= 0 ==> 0 <= dividend / divisor <= dividend,
        dividend < 0 ==> dividend <= dividend / divisor < 0,
{
    let quotient = dividend / divisor;
    vstd::arithmetic::div_mod::lemma_fundamental_div_mod(dividend, divisor);
    assert(quotient * divisor <= dividend < (quotient + 1) * divisor) by (nonlinear_arith)
        requires
            dividend == divisor * quotient + dividend % divisor,
            0 <= dividend % divisor < divisor,
    ;
    assert(dividend >= 0 ==> 0 <= quotient <= dividend) by (nonlinear_arith)
        requires
            divisor >= 1,
            quotient * divisor <= dividend < (quotient + 1) * divisor,
    ;
    assert(dividend < 0 ==> dividend <= quotient < 0) by (nonlinear_arith)
        requires
            divisor >= 1,
            quotient * divisor <= dividend < (quotient + 1) * divisor,
    ;
}

proof fn lemma_negative_bucket(quotient: i64)
    requires
        quotient < 0,
    ensures
        quotient as u64 == quotient + 0x1_0000_0000_0000_0000,
{
    assert(quotient < 0 ==> quotient as u64 == quotient + 0x1_0000_0000_0000_0000) by (bit_vector);
}

/// A bucket covers two panic intervals: bucket `b` starts `2 * b` intervals after the epoch and
/// ends where the next one starts. Before the epoch, buckets count down from the largest number.
pub proof fn buckets_are_two_intervals_wide(timing: ServiceTiming, now: LocalNs)
    requires
        0 < 2 * timing.panic_interval <= i64::MAX,
    ensures
        ({
            let width = 2 * timing.panic_interval;
            let ahead = if now@ >= 0 {
                timing.bucket(now) as int
            } else {
                timing.bucket(now) - 0x1_0000_0000_0000_0000
            };
            ahead * width <= now@ < (ahead + 1) * width
        }),
{
    let width = 2 * timing.panic_interval;
    lemma_quotient_bounds(now@, width);
    if now@ < 0 {
        lemma_negative_bucket((now@ / width) as i64);
    }
}

/// Where two panic intervals are more than the clock holds, all of the time from the epoch on but
/// the clock's last moment is one bucket, and all before it another.
pub proof fn endless_buckets_are_told_apart_by_the_epoch(timing: ServiceTiming, now: LocalNs)
    requires
        2 * timing.panic_interval > i64::MAX,
    ensures
        0 <= now@ < i64::MAX ==> timing.bucket(now) == 0,
        now@ == i64::MAX ==> timing.bucket(now) == 1,
        now@ < 0 && now@ > i64::MIN ==> timing.bucket(now) == u64::MAX,
        now@ == i64::MIN ==> timing.bucket(now) == u64::MAX - 1,
{
    let width = i64::MAX as int;
    lemma_quotient_bounds(now@, width);
    if now@ < 0 {
        lemma_negative_bucket((now@ / width) as i64);
    }
}

/// Two panic intervals later, the wall clock is one bucket further.
pub proof fn two_intervals_make_a_bucket(timing: ServiceTiming, now: LocalNs, later: LocalNs)
    requires
        0 < 2 * timing.panic_interval <= i64::MAX,
        0 <= now@,
        later@ == now@ + 2 * timing.panic_interval,
    ensures
        timing.bucket(later) == timing.bucket(now) + 1,
{
    let width = 2 * timing.panic_interval;
    buckets_are_two_intervals_wide(timing, now);
    buckets_are_two_intervals_wide(timing, later);
    let (early, late) = (timing.bucket(now) as int, timing.bucket(later) as int);
    assert(late == early + 1) by (nonlinear_arith)
        requires
            width >= 1,
            early * width <= now@ < (early + 1) * width,
            late * width <= now@ + width < (late + 1) * width,
    ;
}

/// Round `k` starts `k` periods after the epoch, and the first round to come is the next to start:
/// it has not started yet, and the one before it has. The clock has to be able to number it.
pub proof fn first_round_is_the_next_to_start(timing: ServiceTiming, now: LocalNs)
    requires
        0 < timing.period <= i64::MAX,
        timing.period > 1 || now@ < i64::MAX,
    ensures
        ({
            let round = timing.first_round(now);
            (round - 1) * timing.period <= now@ < round * timing.period
        }),
{
    let period = timing.period as int;
    lemma_quotient_bounds(now@, period);
    let elapsed = now@ / period;
    if period > 1 {
        assert(elapsed < i64::MAX) by (nonlinear_arith)
            requires
                period >= 2,
                elapsed * period <= now@,
                now@ <= i64::MAX,
        ;
    }
}

/// Where a period is more than the clock holds, the round to come is round 0 before the epoch and
/// round 1 from then on; only the first and the last moment of the clock lie in a round of their
/// own. Rounds of a nanosecond run out of numbers at the clock's last moment, and the last number
/// stays.
pub proof fn endless_rounds_are_told_apart_by_the_epoch(timing: ServiceTiming, now: LocalNs)
    ensures
        timing.period > i64::MAX && i64::MIN < now@ < 0 ==> timing.first_round(now) == 0,
        timing.period > i64::MAX && now@ == i64::MIN ==> timing.first_round(now) == -1,
        timing.period > i64::MAX && 0 <= now@ < i64::MAX ==> timing.first_round(now) == 1,
        timing.period > i64::MAX && now@ == i64::MAX ==> timing.first_round(now) == 2,
        timing.period == 1 && now@ == i64::MAX ==> timing.first_round(now) == i64::MAX,
{
    lemma_quotient_bounds(now@, i64::MAX as int);
    lemma_quotient_bounds(now@, 1);
}

} // verus!
