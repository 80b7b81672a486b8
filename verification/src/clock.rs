//! Readings of the validator's local clock.
use vstd::prelude::*;

verus! {

/// The `i64` closest to `value`: `value` itself where it fits, the nearer end of the range
/// otherwise.
pub open spec fn clamp_i64(value: int) -> i64 {
    if value > i64::MAX {
        i64::MAX
    } else if value < i64::MIN {
        i64::MIN
    } else {
        value as i64
    }
}

/// Clamping keeps every value that fits, and takes no other further than the range makes it:
/// no `i64` is closer to the value.
pub proof fn clamping_finds_the_closest(value: int, candidate: i64)
    ensures
        i64::MIN <= value <= i64::MAX ==> clamp_i64(value) == value,
        value >= candidate ==> candidate <= clamp_i64(value) <= value,
        value <= candidate ==> value <= clamp_i64(value) <= candidate,
{
}

/// A point on the local clock, in nanoseconds since the Unix epoch.
#[derive(Debug, Clone, Copy, PartialEq, Eq, PartialOrd, Ord, Hash, Structural)]
pub struct LocalNs {
    pub nanos: i64,
}

impl View for LocalNs {
    type V = int;

    open spec fn view(&self) -> int {
        self.nanos as int
    }
}

impl LocalNs {
    /// The point `ns` nanoseconds after the epoch.
    pub fn from_ns(ns: i64) -> (point: Self)
        ensures
            point@ == ns,
    {
        LocalNs { nanos: ns }
    }

    /// Nanoseconds since the epoch.
    pub fn ns(self) -> (ns: i64)
        ensures
            ns == self@,
    {
        self.nanos
    }

    /// This point moved by `delta_ns`, stopping at the ends of the representable range.
    pub fn saturating_add(self, delta_ns: i64) -> (moved: Self)
        ensures
            moved.nanos == clamp_i64(self@ + delta_ns),
            i64::MIN <= self@ + delta_ns <= i64::MAX ==> moved@ == self@ + delta_ns,
            self@ + delta_ns > i64::MAX ==> moved@ == i64::MAX,
            self@ + delta_ns < i64::MIN ==> moved@ == i64::MIN,
    {
        let nanos: i64 = match self.nanos.checked_add(delta_ns) {
            Some(sum) => sum,
            None => if delta_ns < 0 {
                i64::MIN
            } else {
                i64::MAX
            },
        };
        LocalNs { nanos }
    }

    /// Nanoseconds from `earlier` to this point, stopping at the ends of the `i64` range.
    pub fn saturating_sub(self, earlier: LocalNs) -> (elapsed_ns: i64)
        ensures
            elapsed_ns == clamp_i64(self@ - earlier@),
            i64::MIN <= self@ - earlier@ <= i64::MAX ==> elapsed_ns == self@ - earlier@,
            self@ - earlier@ > i64::MAX ==> elapsed_ns == i64::MAX,
            self@ - earlier@ < i64::MIN ==> elapsed_ns == i64::MIN,
    {
        match self.nanos.checked_sub(earlier.nanos) {
            Some(difference) => difference,
            None => if earlier.nanos < 0 {
                i64::MAX
            } else {
                i64::MIN
            },
        }
    }
}

} // verus!
