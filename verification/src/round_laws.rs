//! What is counted.
use crate::round::{counted, PulseReject, RoundStats};
use vstd::prelude::*;

verus! {

/// A counter has counted one event: it is one higher, unless it was at its end already.
pub open spec fn one_more(before: u64, after: u64) -> bool {
    ||| after == before + 1
    ||| before == u64::MAX && after == u64::MAX
}

/// Counting an event makes the counter one higher, up to its end.
pub proof fn counters_go_up_by_one(count: u64)
    ensures
        one_more(count, counted(count)),
{
}

/// Nothing is counted at the start.
pub proof fn counters_start_at_zero()
    ensures
        ({
            let stats = RoundStats::zero();
            &&& stats.decode_errors == 0
            &&& stats.stale_round == 0
            &&& stats.far_future_round == 0
            &&& stats.duplicate_peer == 0
            &&& stats.panics_sent == 0
            &&& stats.panics_received == 0
            &&& stats.unstaked_panics == 0
            &&& stats.stale_panics == 0
            &&& stats.panic_amplifications == 0
            &&& stats.recoveries == 0
            &&& stats.egress_full == 0
            &&& stats.send_lateness_ns == 0
        }),
{
}

/// A datagram that the transport had no room for is counted as such, one that it took is not, and
/// no other counter moves.
pub proof fn only_lost_datagrams_fill_the_egress(stats: RoundStats, queued: bool)
    ensures
        ({
            let next = stats.with_egress(queued);
            &&& next == RoundStats { egress_full: next.egress_full, ..stats }
            &&& queued ==> next.egress_full == stats.egress_full
            &&& !queued ==> one_more(stats.egress_full, next.egress_full)
        }),
{
}

/// A pulse that the fine loop refuses is counted under the reason, one that it takes is not
/// counted, and no other counter moves.
pub proof fn refused_pulses_are_counted_by_reason(
    stats: RoundStats,
    answer: Result<(), PulseReject>,
)
    ensures
        ({
            let next = stats.with_pulse(answer);
            &&& next == RoundStats {
                stale_round: next.stale_round,
                far_future_round: next.far_future_round,
                duplicate_peer: next.duplicate_peer,
                ..stats
            }
            &&& if answer == Err::<(), _>(PulseReject::StaleRound) {
                one_more(stats.stale_round, next.stale_round)
            } else {
                next.stale_round == stats.stale_round
            }
            &&& if answer == Err::<(), _>(PulseReject::FarFutureRound) {
                one_more(stats.far_future_round, next.far_future_round)
            } else {
                next.far_future_round == stats.far_future_round
            }
            &&& if answer == Err::<(), _>(PulseReject::DuplicatePeer) {
                one_more(stats.duplicate_peer, next.duplicate_peer)
            } else {
                next.duplicate_peer == stats.duplicate_peer
            }
        }),
{
}

} // verus!
