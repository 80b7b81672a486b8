//! The timing constants of the protocol and what follows from them.
use crate::clock::{clamp_i64, LocalNs};
use crate::round::Config;
use vstd::prelude::*;

verus! {

/// The protocol's timing constants, each in nanoseconds.
///
/// The clock counts in `i64`: a constant beyond its range counts as the longest time that the
/// clock can measure.
#[derive(Debug, Clone, Copy, PartialEq, Eq, Structural)]
pub struct ServiceTiming {
    /// T: pulse period.
    pub period: u128,
    /// W: acceptance window; must be strictly less than `period`.
    pub window: u128,
    /// S: absorption cluster half-width.
    pub absorption_half_width: u128,
    /// d: how often an active recovery signal is retransmitted.
    pub panic_interval: u128,
    /// Maximum age of a panic observation contributing to a quorum.
    pub panic_observation_ttl: u128,
}

/// Where the service enters the rounds.
#[derive(Debug, Clone, Copy, PartialEq, Eq, Structural)]
pub struct FirstPulse {
    /// The first round to take part in.
    pub round: u64,
    /// When its pulse is due.
    pub due_at: LocalNs,
}

/// The product, stopping at the ends of the `i64` range.
fn saturating_mul(a: i64, b: i64) -> (product: i64)
    ensures
        product == clamp_i64(a * b),
{
    match a.checked_mul(b) {
        Some(product) => product,
        None => {
            proof {
                assert((a < 0) == (b < 0) ==> a * b >= 0) by (nonlinear_arith);
                assert((a < 0) != (b < 0) ==> a * b <= 0) by (nonlinear_arith);
            }
            if (a < 0) == (b < 0) {
                i64::MAX
            } else {
                i64::MIN
            }
        },
    }
}

/// A time span on the clock's scale.
pub open spec fn span(ns: u128) -> i64 {
    clamp_i64(ns as int)
}

/// A time span on the clock's scale.
fn clock_span(ns: u128) -> (clock_ns: i64)
    ensures
        clock_ns == span(ns),
{
    if ns > i64::MAX as u128 {
        i64::MAX
    } else {
        ns as i64
    }
}

proof fn lemma_quotient_fits(dividend: i64, divisor: i64)
    requires
        divisor > 0,
    ensures
        i64::MIN <= dividend as int / divisor as int <= i64::MAX,
{
    let (x, d) = (dividend as int, divisor as int);
    vstd::arithmetic::div_mod::lemma_fundamental_div_mod(x, d);
    let q = x / d;
    assert(i64::MIN <= q <= i64::MAX) by (nonlinear_arith)
        requires
            d >= 1,
            i64::MIN <= x <= i64::MAX,
            x == d * q + x % d,
            0 <= x % d < d,
    ;
}

/// The quotient, rounded down.
fn quotient(dividend: i64, divisor: i64) -> (quotient: i64)
    requires
        divisor > 0,
    ensures
        quotient == dividend as int / divisor as int,
{
    proof {
        lemma_quotient_fits(dividend, divisor);
    }
    dividend.checked_div_euclid(divisor).unwrap()
}

impl ServiceTiming {
    /// The panic interval is not zero, and an observation outlives it.
    pub open spec fn has_valid_panic_timing(self) -> bool {
        self.panic_interval != 0 && self.panic_observation_ttl >= self.panic_interval
    }

    /// Width of a panic bucket: twice the panic interval.
    pub open spec fn bucket_width(self) -> i64 {
        clamp_i64(2 * self.panic_interval)
    }

    /// The bucket that the wall clock gives for `now`.
    pub open spec fn bucket(self, now: LocalNs) -> u64 {
        (now@ / self.bucket_width() as int) as u64
    }

    /// The first round whose pulse is still to come, a round `k` starting at `k * T`.
    pub open spec fn first_round(self, now: LocalNs) -> i64 {
        clamp_i64(now@ / span(self.period) as int + 1)
    }

    /// Whether the panic timing uses a non-zero interval and a TTL at least as long.
    pub fn is_valid(&self) -> (valid: bool)
        ensures
            valid == self.has_valid_panic_timing(),
            valid <==> 0 < self.panic_interval <= self.panic_observation_ttl,
    {
        self.panic_interval != 0 && self.panic_observation_ttl >= self.panic_interval
    }

    /// The pulse period on the clock's scale.
    pub fn period_ns(&self) -> (ns: i64)
        ensures
            ns == span(self.period),
    {
        clock_span(self.period)
    }

    /// The panic interval on the clock's scale.
    pub fn panic_interval_ns(&self) -> (ns: i64)
        ensures
            ns == span(self.panic_interval),
    {
        clock_span(self.panic_interval)
    }

    /// The lifetime of a panic observation on the clock's scale.
    pub fn panic_observation_ttl_ns(&self) -> (ns: i64)
        ensures
            ns == span(self.panic_observation_ttl),
    {
        clock_span(self.panic_observation_ttl)
    }

    /// Timing of the fine loop.
    pub fn config(&self) -> (config: Config)
        ensures
            config == (Config {
                period_ns: span(self.period),
                window_ns: span(self.window),
                absorption_half_width_ns: span(self.absorption_half_width),
            }),
    {
        Config {
            period_ns: clock_span(self.period),
            window_ns: clock_span(self.window),
            absorption_half_width_ns: clock_span(self.absorption_half_width),
        }
    }

    /// Whether there is a first pulse: rounds take time.
    pub fn has_first_pulse(&self) -> (has: bool)
        ensures
            has == (self.period != 0),
    {
        self.period != 0
    }

    /// Where to enter the rounds at `now`: bootstraps from the wall clock, so that validators
    /// whose system clocks agree number the rounds alike.
    pub fn first_pulse(&self, now: LocalNs) -> (first: FirstPulse)
        requires
            self.period != 0,
        ensures
            first.round == self.first_round(now) as u64,
            first.due_at.nanos == clamp_i64(self.first_round(now) * span(self.period)),
    {
        let period_ns: i64 = self.period_ns();
        let elapsed: i64 = quotient(now.ns(), period_ns);
        let round: i64 = match elapsed.checked_add(1) {
            Some(round) => round,
            None => i64::MAX,
        };
        FirstPulse {
            round: #[verifier::truncate]
            (round as u64),
            due_at: LocalNs::from_ns(saturating_mul(round, period_ns)),
        }
    }

    /// The bucket that the wall clock gives for `now`.
    pub fn bucket_at(&self, now: LocalNs) -> (bucket: u64)
        requires
            self.panic_interval != 0,
        ensures
            bucket == self.bucket(now),
    {
        let width: u128 = match self.panic_interval.checked_mul(2) {
            Some(width) => width,
            None => u128::MAX,
        };
        let bucket: i64 = quotient(now.ns(), clock_span(width));
        #[verifier::truncate]
        (bucket as u64)
    }
}

} // verus!
