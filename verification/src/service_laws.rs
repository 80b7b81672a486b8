//! What holds of the service as a whole.
use crate::clock::{clamp_i64, LocalNs};
use crate::peer::PeerId;
use crate::recovery::{is_fresh, PanicAction, PanicReject};
use crate::recovery_laws::{
    accepted_panics_mark_the_disturbance, local_buckets_advance, recovery_clears_support,
    thresholds_are_one_and_two_thirds,
};
use crate::round::{Message, PulseReject, RoundOutcome, RoundStats};
use crate::round_laws::one_more;
use crate::service::{lateness, Reaction, ServiceModel, Step, MAX_WAIT_NS};
use crate::stake::{stake_of, stake_sum, total_stake};
use crate::timing::{span, ServiceTiming};
use vstd::prelude::*;

verus! {

/// The service waits only while nothing is due, for some time but no longer than the bound, and
/// never past the moment at which something is due.
pub proof fn waits_are_short_and_end_in_time(
    state: ServiceModel,
    now: LocalNs,
    pulse_due_at: LocalNs,
    round_close_at: LocalNs,
    timeout_ns: u64,
)
    requires
        state.next_step(now, pulse_due_at, round_close_at) == (Step::Wait { timeout_ns }),
    ensures
        0 < timeout_ns <= MAX_WAIT_NS,
        now@ + timeout_ns <= state.round_due(pulse_due_at, round_close_at)@,
        state.broadcast is Some ==> now@ + timeout_ns <= state.broadcast->0.next_at@,
{
}

/// A panic that is due is sent before the round is attended to.
pub proof fn panics_come_first(
    state: ServiceModel,
    now: LocalNs,
    pulse_due_at: LocalNs,
    round_close_at: LocalNs,
)
    ensures
        state.next_step(now, pulse_due_at, round_close_at) is RetransmitPanic
            <==> state.panic_is_due(now),
{
}

/// A round is closed only after its pulse was sent, and its pulse is sent once: from the moment
/// it is handed over, nothing but the close of the round or a restart of the fine loop makes the
/// service send another.
pub proof fn one_pulse_per_round(
    state: ServiceModel,
    now: LocalNs,
    pulse_due_at: LocalNs,
    round_close_at: LocalNs,
    peer: PeerId,
    message: Option<Message>,
    action: PanicAction,
    queued: bool,
    stakes: Map<PeerId, u64>,
)
    ensures
        state.next_step(now, pulse_due_at, round_close_at) == Step::CloseRound
            ==> state.pulse_sent,
        state.next_step(now, pulse_due_at, round_close_at) == Step::SendPulse
            ==> !state.pulse_sent,
        state.received(peer, message, now, stakes).0.pulse_sent == state.pulse_sent,
        state.retransmitted(now, queued, stakes).0.pulse_sent == state.pulse_sent,
        state.armed(now, stakes).0.pulse_sent == state.pulse_sent,
        state.applied(action, now, stakes).0.pulse_sent == state.pulse_sent,
{
}

/// Before it has been synchronized once, the service does not panic over a missing quorum.
pub proof fn no_panic_before_first_synchrony(
    state: ServiceModel,
    armed_at: LocalNs,
    stakes: Map<PeerId, u64>,
)
    requires
        !state.synchronized_once,
    ensures
        state.round_closed(RoundOutcome::NoQuorum, armed_at, stakes) == (
            ServiceModel { pulse_sent: false, ..state },
            PanicAction::Nothing,
        ),
{
}

/// A synchronized service that finds no quorum is panicking once the round is closed.
pub proof fn lost_quorum_panics(
    state: ServiceModel,
    armed_at: LocalNs,
    stakes: Map<PeerId, u64>,
)
    requires
        state.synchronized_once,
    ensures
        state.round_closed(RoundOutcome::NoQuorum, armed_at, stakes).0.is_panicking(),
{
}

/// A synchronized round takes the panic off the air and leaves the tracker alone.
pub proof fn synchrony_ends_the_broadcast(
    state: ServiceModel,
    outcome: RoundOutcome,
    armed_at: LocalNs,
    stakes: Map<PeerId, u64>,
)
    requires
        outcome != RoundOutcome::NoQuorum,
    ensures
        ({
            let (next, action) = state.round_closed(outcome, armed_at, stakes);
            &&& next.broadcast is None
            &&& next.synchronized_once
            &&& next.tracker == state.tracker
            &&& action == PanicAction::Nothing
        }),
{
}

/// Arming twice is arming once.
pub proof fn arming_is_idempotent(
    state: ServiceModel,
    first: LocalNs,
    second: LocalNs,
    stakes: Map<PeerId, u64>,
)
    ensures
        ({
            let armed = state.armed(first, stakes).0;
            &&& armed.is_panicking()
            &&& armed.armed(second, stakes) == (armed, PanicAction::Nothing)
        }),
{
}

/// A staked validator that arms counts itself from then on, under a bucket later than every one
/// it has used before, as long as there is a later one.
pub proof fn arming_takes_a_new_bucket(
    state: ServiceModel,
    now: LocalNs,
    stakes: Map<PeerId, u64>,
)
    requires
        !state.is_panicking(),
        stake_of(stakes, state.tracker.me) > 0,
        state.tracker.last_bucket.contains_key(state.tracker.me) ==> state.tracker.last_bucket[
            state.tracker.me
        ] < u64::MAX,
    ensures
        ({
            let me = state.tracker.me;
            let armed = state.armed(now, stakes).0;
            let bucket = armed.broadcast->0.bucket;
            &&& bucket >= state.timing.bucket(now)
            &&& state.tracker.last_bucket.contains_key(me) ==> bucket
                > state.tracker.last_bucket[me]
            &&& armed.tracker.last_bucket[me] == bucket
            &&& armed.tracker.active.contains_key(me)
            &&& armed.tracker.active[me] == now
        }),
{
    local_buckets_advance(
        state.tracker,
        state.timing.bucket(now),
        now,
        state.ttl_ns(),
        stakes,
    );
}

/// Every panic of a staked validator outdates the one before: after a recovery, the next panic
/// carries a later bucket, wherever the clock has moved, as long as there is a later one.
pub proof fn each_panic_outdates_the_last(
    state: ServiceModel,
    first: LocalNs,
    recovered_at: LocalNs,
    second: LocalNs,
    stakes: Map<PeerId, u64>,
    later_stakes: Map<PeerId, u64>,
)
    requires
        !state.is_panicking(),
        stake_of(stakes, state.tracker.me) > 0,
        state.armed(first, stakes).0.broadcast->0.bucket < u64::MAX,
    ensures
        ({
            let armed = state.armed(first, stakes).0;
            let again = armed.recovered(recovered_at).armed(second, later_stakes).0;
            again.broadcast->0.bucket > armed.broadcast->0.bucket
        }),
{
    local_buckets_advance(
        state.tracker,
        state.timing.bucket(first),
        first,
        state.ttl_ns(),
        stakes,
    );
}

/// An amplification leaves the service panicking; a recovery restarts the fine loop with a panic
/// on the air that can be relayed; no action changes nothing.
pub proof fn actions_put_a_panic_on_the_air(
    state: ServiceModel,
    action: PanicAction,
    armed_at: LocalNs,
    stakes: Map<PeerId, u64>,
)
    ensures
        ({
            let (next, restarts) = state.applied(action, armed_at, stakes);
            &&& action == PanicAction::Amplify ==> next.is_panicking()
            &&& action == PanicAction::Recover ==> restarts
            &&& restarts ==> next.broadcast is Some
            &&& action == PanicAction::Nothing ==> next == state && !restarts
        }),
{
}

/// An amplification restarts the fine loop exactly when our own panic is accepted, completes
/// more than two thirds of the stake, and the disturbance has not led to a recovery yet.
pub proof fn amplification_may_complete_the_quorum(
    state: ServiceModel,
    armed_at: LocalNs,
    stakes: Map<PeerId, u64>,
)
    requires
        !state.is_panicking(),
        state.tracker.wf(),
        stakes.dom().finite(),
    ensures
        ({
            let (next, restarts) = state.applied(PanicAction::Amplify, armed_at, stakes);
            let bucket = next.broadcast->0.bucket;
            let accepted = state.tracker.recorded(
                state.tracker.me,
                bucket,
                armed_at,
                state.ttl_ns(),
                stakes,
            ).1 is Ok;
            restarts <==> accepted && !state.tracker.recovery_emitted && 3 * next.tracker.support(
                stakes,
            ) > 2 * total_stake(stakes)
        }),
{
    let bucket = state.tracker.local_bucket(state.timing.bucket(armed_at));
    let me = state.tracker.me;
    let ttl_ns = state.ttl_ns();
    if state.tracker.recorded(me, bucket, armed_at, ttl_ns, stakes).1 is Ok {
        thresholds_are_one_and_two_thirds(state.tracker, me, bucket, armed_at, ttl_ns, stakes);
    }
}

/// After a recovery the validator relays the panic that led to it, under the same bucket, counts
/// no panic at all, and waits to send a pulse.
pub proof fn recovery_turns_into_relay(
    state: ServiceModel,
    action: PanicAction,
    armed_at: LocalNs,
    restarted_at: LocalNs,
    stakes: Map<PeerId, u64>,
)
    requires
        state.applied(action, armed_at, stakes).1,
    ensures
        ({
            let applied = state.applied(action, armed_at, stakes).0;
            let next = applied.recovered(restarted_at);
            &&& next.broadcast is Some
            &&& next.broadcast->0.relay_only
            &&& next.broadcast->0.bucket == applied.broadcast->0.bucket
            &&& next.tracker.active == Map::<PeerId, LocalNs>::empty()
            &&& next.tracker.support(stakes) == 0
            &&& next.tracker.last_bucket == applied.tracker.last_bucket
            &&& !next.pulse_sent
        }),
{
    actions_put_a_panic_on_the_air(state, action, armed_at, stakes);
    let applied = state.applied(action, armed_at, stakes).0;
    recovery_clears_support(applied.tracker, stakes);
}

/// A relayed panic is passed on for the others: it does not count here and asks for nothing.
pub proof fn relays_do_not_count(
    state: ServiceModel,
    now: LocalNs,
    queued: bool,
    stakes: Map<PeerId, u64>,
)
    requires
        state.broadcast is Some,
        state.broadcast->0.relay_only,
    ensures
        ({
            let (next, action) = state.retransmitted(now, queued, stakes);
            &&& next.tracker == state.tracker
            &&& next.broadcast->0.relay_only
            &&& action == PanicAction::Nothing
        }),
{
}

/// Between two transmissions of a panic lies a panic interval, where the clock can hold it.
pub proof fn retransmissions_are_spaced(
    state: ServiceModel,
    now: LocalNs,
    queued: bool,
    stakes: Map<PeerId, u64>,
    later: LocalNs,
    pulse_due_at: LocalNs,
    round_close_at: LocalNs,
)
    requires
        state.broadcast is Some,
        state.timing.panic_interval <= i64::MAX,
        now@ + state.timing.panic_interval <= i64::MAX,
    ensures
        state.retransmitted(now, queued, stakes).0.next_step(
            later,
            pulse_due_at,
            round_close_at,
        ) is RetransmitPanic <==> later@ >= now@ + state.timing.panic_interval,
{
}

/// The service is panicking, staked, and counts itself under the bucket on the air since
/// `counted_at`.
pub open spec fn counts_itself(
    state: ServiceModel,
    counted_at: LocalNs,
    stakes: Map<PeerId, u64>,
) -> bool {
    let me = state.tracker.me;
    &&& state.is_panicking()
    &&& stake_of(stakes, me) > 0
    &&& state.tracker.last_bucket.contains_key(me)
    &&& state.tracker.last_bucket[me] == state.broadcast->0.bucket
    &&& state.tracker.active.contains_key(me)
    &&& state.tracker.active[me] == counted_at
}

/// A panicking validator goes on counting itself as long as it retransmits in time: within the
/// lifetime of its own observation. An interval after the last time is in time, because an
/// observation outlives the interval.
pub proof fn retransmission_keeps_our_panic_alive(
    state: ServiceModel,
    counted_at: LocalNs,
    now: LocalNs,
    queued: bool,
    stakes: Map<PeerId, u64>,
)
    requires
        counts_itself(state, counted_at, stakes),
        state.timing.has_valid_panic_timing(),
    ensures
        now@ <= counted_at@ + state.timing.panic_observation_ttl ==> counts_itself(
            state.retransmitted(now, queued, stakes).0,
            now,
            stakes,
        ),
        now@ <= counted_at@ + state.timing.panic_interval ==> counts_itself(
            state.retransmitted(now, queued, stakes).0,
            now,
            stakes,
        ),
{
    if now@ <= counted_at@ + state.timing.panic_observation_ttl {
        assert(is_fresh(counted_at, now, state.ttl_ns()));
    }
}

/// A datagram that cannot be decoded, and a panic that is rejected, ask for nothing, and leave
/// the broadcast and the round alone.
pub proof fn bad_datagrams_are_only_counted(
    state: ServiceModel,
    peer: PeerId,
    message: Option<Message>,
    arrival: LocalNs,
    stakes: Map<PeerId, u64>,
)
    requires
        message matches Some(Message::Panic { bucket }) ==> state.tracker.recorded(
            peer,
            bucket,
            arrival,
            state.ttl_ns(),
            stakes,
        ).1 is Err,
        !(message matches Some(Message::Pulse { .. })),
    ensures
        ({
            let (next, reaction) = state.received(peer, message, arrival, stakes);
            &&& reaction == Reaction::Act(PanicAction::Nothing)
            &&& next.broadcast == state.broadcast
            &&& next.pulse_sent == state.pulse_sent
            &&& next.synchronized_once == state.synchronized_once
            &&& next.tracker.last_bucket == state.tracker.last_bucket
            &&& next.tracker.amplified == state.tracker.amplified
            &&& next.tracker.recovery_emitted == state.tracker.recovery_emitted
        }),
{
}

/// The pulse at `k * T` belongs to round `k`: the first pulse of the service is the next one to
/// come, no more than a period away. The clock has to reach as far as that pulse.
pub proof fn first_pulse_is_the_next_multiple_of_the_period(timing: ServiceTiming, now: LocalNs)
    requires
        0 < timing.period <= i64::MAX,
        (now@ / timing.period as int + 1) * timing.period <= i64::MAX,
    ensures
        ({
            let due_at = clamp_i64(timing.first_round(now) * span(timing.period)) as int;
            &&& due_at == timing.first_round(now) * timing.period
            &&& now@ < due_at <= now@ + timing.period
        }),
{
    let period = timing.period as int;
    let elapsed = now@ / period;
    vstd::arithmetic::div_mod::lemma_fundamental_div_mod(now@, period);
    assert(now@ < (elapsed + 1) * period <= now@ + period) by (nonlinear_arith)
        requires
            now@ == period * elapsed + now@ % period,
            0 <= now@ % period < period,
    ;
    assert(i64::MIN <= elapsed < i64::MAX) by (nonlinear_arith)
        requires
            period >= 1,
            i64::MIN <= now@ < (elapsed + 1) * period,
            (elapsed + 1) * period <= i64::MAX,
            now@ == period * elapsed + now@ % period,
            0 <= now@ % period < period,
    ;
}

/// A pulse that leaves ahead of its time is not late; one that leaves after it is late by what
/// has passed since.
pub proof fn lateness_is_time_past_due(now: LocalNs, due_at: LocalNs)
    requires
        now@ - due_at@ <= i64::MAX,
    ensures
        now@ <= due_at@ ==> lateness(now, due_at) == 0,
        now@ >= due_at@ ==> lateness(now, due_at) == now@ - due_at@,
{
}

/// A new service has the identity and the constants it was given; it has sent and heard nothing,
/// and counted nothing.
pub proof fn new_services_have_done_nothing(
    identity: PeerId,
    timing: ServiceTiming,
    peer: PeerId,
)
    ensures
        ({
            let state = ServiceModel::initial(identity, timing);
            &&& state.timing == timing
            &&& state.tracker.me == identity
            &&& !state.tracker.active.contains_key(peer)
            &&& !state.tracker.last_bucket.contains_key(peer)
            &&& !state.tracker.amplified
            &&& !state.tracker.recovery_emitted
            &&& state.broadcast is None
            &&& !state.pulse_sent
            &&& !state.synchronized_once
            &&& state.stats == RoundStats::zero()
        }),
{
}

/// What comes next is decided by the times alone. A panic on the air is sent when its time has
/// come, under its own bucket. Otherwise the round is closed when its pulse is sent and the close
/// has come, and the pulse is sent when it is not and its time has come. Otherwise the service
/// waits.
pub proof fn steps_follow_the_times(
    state: ServiceModel,
    now: LocalNs,
    pulse_due_at: LocalNs,
    round_close_at: LocalNs,
    bucket: u64,
)
    ensures
        ({
            let step = state.next_step(now, pulse_due_at, round_close_at);
            let panic_due = state.broadcast matches Some(panic) && panic.next_at@ <= now@;
            &&& step == (Step::RetransmitPanic { bucket }) <==> panic_due
                && state.broadcast->0.bucket == bucket
            &&& step == Step::CloseRound <==> !panic_due && state.pulse_sent && round_close_at@
                <= now@
            &&& step == Step::SendPulse <==> !panic_due && !state.pulse_sent && pulse_due_at@
                <= now@
            &&& step is Wait <==> !panic_due && now@ < if state.pulse_sent {
                round_close_at@
            } else {
                pulse_due_at@
            }
        }),
{
}

/// A wait lasts until the close of a round whose pulse is sent, the pulse of one whose pulse is
/// not, or the next transmission of a panic on the air, whichever comes first; but never longer
/// than a tenth of a second.
pub proof fn waits_end_with_the_first_deadline(
    state: ServiceModel,
    now: LocalNs,
    pulse_due_at: LocalNs,
    round_close_at: LocalNs,
    timeout_ns: u64,
)
    requires
        state.next_step(now, pulse_due_at, round_close_at) == (Step::Wait { timeout_ns }),
    ensures
        0 < timeout_ns <= 100_000_000,
        state.pulse_sent ==> now@ + timeout_ns <= round_close_at@,
        !state.pulse_sent ==> now@ + timeout_ns <= pulse_due_at@,
        state.broadcast matches Some(panic) ==> now@ + timeout_ns <= panic.next_at@,
        timeout_ns < 100_000_000 ==> {
            ||| state.pulse_sent && now@ + timeout_ns == round_close_at@
            ||| !state.pulse_sent && now@ + timeout_ns == pulse_due_at@
            ||| state.broadcast matches Some(panic) && now@ + timeout_ns == panic.next_at@
        },
{
}

/// Timing a pulse notes how late it is. Sending it, room for it or not, makes the round's pulse
/// sent. An answer of the fine loop is counted. None of them touches the panics: what is on the
/// air stays there as it was, and nobody is counted anew or forgotten.
pub proof fn pulses_leave_the_panics_alone(
    state: ServiceModel,
    lateness_ns: i64,
    queued: bool,
    answer: Result<(), PulseReject>,
)
    ensures
        state.pulse_timed(lateness_ns) == (ServiceModel {
            stats: RoundStats { send_lateness_ns: lateness_ns, ..state.stats },
            ..state
        }),
        ({
            let next = state.pulse_handed_over(queued);
            &&& next.pulse_sent
            &&& next.broadcast == state.broadcast
            &&& next.tracker == state.tracker
            &&& next.timing == state.timing
            &&& next.synchronized_once == state.synchronized_once
            &&& next.stats == RoundStats { egress_full: next.stats.egress_full, ..state.stats }
            &&& queued ==> next.stats.egress_full == state.stats.egress_full
            &&& !queued ==> one_more(state.stats.egress_full, next.stats.egress_full)
        }),
        ({
            let next = state.pulse_answered(answer);
            &&& next.pulse_sent == state.pulse_sent
            &&& next.broadcast == state.broadcast
            &&& next.tracker == state.tracker
            &&& next.timing == state.timing
            &&& next.synchronized_once == state.synchronized_once
            &&& next.stats == state.stats.with_pulse(answer)
        }),
{
}

/// A datagram that cannot be decoded is counted as that, and changes nothing else. A pulse is
/// handed on as it came, and changes nothing.
pub proof fn only_panics_reach_the_tracker(
    state: ServiceModel,
    peer: PeerId,
    round: u64,
    lateness_ns: i64,
    arrival: LocalNs,
    stakes: Map<PeerId, u64>,
)
    ensures
        ({
            let (next, reaction) = state.received(peer, None, arrival, stakes);
            let stats = next.stats;
            &&& reaction == Reaction::Act(PanicAction::Nothing)
            &&& next == ServiceModel { stats, ..state }
            &&& stats == RoundStats { decode_errors: stats.decode_errors, ..state.stats }
            &&& one_more(state.stats.decode_errors, stats.decode_errors)
        }),
        state.received(peer, Some(Message::Pulse { round, lateness_ns }), arrival, stakes) == (
            state,
            Reaction::DeliverPulse { round, lateness_ns },
        ),
{
}

/// A panic that is heard is recorded as of its arrival, and what the tracker asks for is done,
/// whatever it is; a rejection asks for nothing. The panic on the air and the round stay as they
/// are. `ttl_ns` is the lifetime of an observation, as far as the clock can hold it.
pub proof fn heard_panics_are_acted_upon(
    state: ServiceModel,
    peer: PeerId,
    bucket: u64,
    arrival: LocalNs,
    ttl_ns: i64,
    stakes: Map<PeerId, u64>,
)
    requires
        ttl_ns == state.timing.panic_observation_ttl || ttl_ns == i64::MAX
            < state.timing.panic_observation_ttl,
    ensures
        ({
            let heard = state.received(peer, Some(Message::Panic { bucket }), arrival, stakes);
            let (next, reaction) = heard;
            let (tracker, outcome) = state.tracker.recorded(peer, bucket, arrival, ttl_ns, stakes);
            &&& next.tracker == tracker
            &&& outcome is Ok ==> reaction == Reaction::Act(outcome->Ok_0)
            &&& outcome is Err ==> reaction == Reaction::Act(PanicAction::Nothing)
            &&& next.broadcast == state.broadcast
            &&& next.pulse_sent == state.pulse_sent
            &&& next.synchronized_once == state.synchronized_once
            &&& next.timing == state.timing
        }),
{
}

/// Every panic that is heard is counted as received, one of a sender without stake as that, and
/// one of a staked sender that uses an old bucket as stale. No other counter moves.
pub proof fn heard_panics_are_counted(
    state: ServiceModel,
    peer: PeerId,
    bucket: u64,
    arrival: LocalNs,
    ttl_ns: i64,
    stakes: Map<PeerId, u64>,
)
    requires
        ttl_ns == state.timing.panic_observation_ttl || ttl_ns == i64::MAX
            < state.timing.panic_observation_ttl,
    ensures
        ({
            let message = Some(Message::Panic { bucket });
            let stats = state.received(peer, message, arrival, stakes).0.stats;
            let outcome = state.tracker.recorded(peer, bucket, arrival, ttl_ns, stakes).1;
            &&& stats == RoundStats {
                panics_received: stats.panics_received,
                unstaked_panics: stats.unstaked_panics,
                stale_panics: stats.stale_panics,
                ..state.stats
            }
            &&& one_more(state.stats.panics_received, stats.panics_received)
            &&& if !stakes.contains_key(peer) || stakes[peer] == 0 {
                one_more(state.stats.unstaked_panics, stats.unstaked_panics)
            } else {
                stats.unstaked_panics == state.stats.unstaked_panics
            }
            &&& if outcome == Err::<PanicAction, _>(PanicReject::StaleBucket) {
                one_more(state.stats.stale_panics, stats.stale_panics)
            } else {
                stats.stale_panics == state.stats.stale_panics
            }
        }),
{
}

/// A panic of a staked peer is counted from its arrival if its bucket is new, or still counts. If
/// it leaves more than two thirds of the stake behind the active panics, it makes the service
/// recover, unless the disturbance has led to a recovery already; if more than one third and
/// no more than two, amplify, unless it has already; otherwise it asks for nothing.
pub proof fn heard_quorums_are_answered(
    state: ServiceModel,
    peer: PeerId,
    bucket: u64,
    arrival: LocalNs,
    stakes: Map<PeerId, u64>,
)
    requires
        state.tracker.wf(),
        stakes.dom().finite(),
        stakes.contains_key(peer),
        stakes[peer] > 0,
        state.tracker.last_bucket.contains_key(peer) ==> {
            ||| bucket > state.tracker.last_bucket[peer]
            ||| bucket == state.tracker.last_bucket[peer] && state.tracker.active.contains_key(
                peer,
            ) && arrival@ - state.tracker.active[peer]@ <= state.timing.panic_observation_ttl
        },
    ensures
        ({
            let heard = state.received(peer, Some(Message::Panic { bucket }), arrival, stakes);
            let (next, reaction) = heard;
            let support = stake_sum(stakes, next.tracker.active.dom());
            let total = total_stake(stakes);
            &&& next.tracker.active.contains_key(peer)
            &&& next.tracker.active[peer] == arrival
            &&& next.tracker.last_bucket[peer] == bucket
            &&& reaction == Reaction::Act(PanicAction::Recover) <==> 3 * support > 2 * total
                && !state.tracker.recovery_emitted
            &&& reaction == Reaction::Act(PanicAction::Amplify) <==> total < 3 * support && 3
                * support <= 2 * total && !state.tracker.amplified
            &&& reaction is Act
        }),
{
    accepted_panics_mark_the_disturbance(
        state.tracker,
        peer,
        bucket,
        arrival,
        state.ttl_ns(),
        stakes,
    );
}

/// Whenever the service handles a panic of a staked sender, be it heard, newly armed or sent
/// again, it counts another peer afterwards exactly if it counted it before and no more time has
/// passed since than the lifetime of an observation. A lifetime at the end of the clock's range
/// or beyond it never runs out.
pub proof fn observations_live_as_long_as_the_constant_says(
    state: ServiceModel,
    peer: PeerId,
    bucket: u64,
    now: LocalNs,
    queued: bool,
    stakes: Map<PeerId, u64>,
    other: PeerId,
)
    ensures
        ({
            let lifetime = state.timing.panic_observation_ttl;
            let kept = state.tracker.active.contains_key(other) && (now@
                - state.tracker.active[other]@ <= lifetime || lifetime >= i64::MAX);
            let me = state.tracker.me;
            let ours = stakes.contains_key(me) && stakes[me] > 0 && other != me;
            let silent = state.broadcast is None || state.broadcast->0.relay_only;
            let heard = state.received(peer, Some(Message::Panic { bucket }), now, stakes).0;
            let armed = state.armed(now, stakes).0;
            let sent = state.retransmitted(now, queued, stakes).0;
            &&& stakes.contains_key(peer) && stakes[peer] > 0 && other != peer ==> {
                &&& heard.tracker.active.contains_key(other) <==> kept
                &&& kept ==> heard.tracker.active[other] == state.tracker.active[other]
            }
            &&& ours && silent ==> {
                &&& armed.tracker.active.contains_key(other) <==> kept
                &&& kept ==> armed.tracker.active[other] == state.tracker.active[other]
            }
            &&& ours && !silent ==> {
                &&& sent.tracker.active.contains_key(other) <==> kept
                &&& kept ==> sent.tracker.active[other] == state.tracker.active[other]
            }
        }),
{
}

/// A service that arms puts a panic of its own on the air, to be sent at once: under a bucket that
/// the wall clock has reached and that it has not used, and under the earliest such. The panic is
/// recorded as a panic of this validator. The round and the counters stay as they are.
pub proof fn arming_puts_our_panic_on_the_air(
    state: ServiceModel,
    now: LocalNs,
    ttl_ns: i64,
    stakes: Map<PeerId, u64>,
    candidate: u64,
)
    requires
        state.broadcast is None || state.broadcast->0.relay_only,
        ttl_ns == state.timing.panic_observation_ttl || ttl_ns == i64::MAX
            < state.timing.panic_observation_ttl,
    ensures
        ({
            let (next, action) = state.armed(now, stakes);
            let me = state.tracker.me;
            let used = state.tracker.last_bucket.contains_key(me);
            let last = state.tracker.last_bucket[me];
            let wall_clock_bucket = state.timing.bucket(now);
            let bucket = next.broadcast->0.bucket;
            let (tracker, outcome) = state.tracker.recorded(me, bucket, now, ttl_ns, stakes);
            &&& next.broadcast is Some
            &&& next.broadcast->0.next_at == now
            &&& !next.broadcast->0.relay_only
            &&& bucket >= wall_clock_bucket
            &&& used && last < u64::MAX ==> bucket > last
            &&& used && last == u64::MAX ==> bucket == u64::MAX
            &&& candidate >= wall_clock_bucket && (used ==> candidate > last) ==> bucket
                <= candidate
            &&& next.tracker == tracker
            &&& outcome is Ok ==> action == outcome->Ok_0
            &&& outcome is Err ==> action == PanicAction::Nothing
            &&& next.timing == state.timing
            &&& next.pulse_sent == state.pulse_sent
            &&& next.synchronized_once == state.synchronized_once
            &&& next.stats == state.stats
        }),
{
}

/// A service whose own panic is on the air does not arm another: nothing changes, and nothing is
/// asked for.
pub proof fn panicking_services_do_not_arm(
    state: ServiceModel,
    now: LocalNs,
    stakes: Map<PeerId, u64>,
)
    requires
        state.broadcast is Some,
        !state.broadcast->0.relay_only,
    ensures
        state.armed(now, stakes) == (state, PanicAction::Nothing),
{
}

/// An amplification is counted, and then arms; it restarts the fine loop exactly when arming asks
/// for a recovery.
pub proof fn amplifying_is_counted_arming(
    state: ServiceModel,
    armed_at: LocalNs,
    stakes: Map<PeerId, u64>,
)
    ensures
        ({
            let (next, restarts) = state.applied(PanicAction::Amplify, armed_at, stakes);
            let (armed, asked) = state.armed(armed_at, stakes);
            &&& next.broadcast == armed.broadcast
            &&& next.tracker == armed.tracker
            &&& next.timing == armed.timing
            &&& next.pulse_sent == armed.pulse_sent
            &&& next.synchronized_once == armed.synchronized_once
            &&& next.stats == RoundStats {
                panic_amplifications: next.stats.panic_amplifications,
                ..state.stats
            }
            &&& one_more(state.stats.panic_amplifications, next.stats.panic_amplifications)
            &&& restarts <==> asked == PanicAction::Recover
        }),
{
}

/// A recovery always restarts the fine loop. Up to the restart it changes nothing where a panic is
/// on the air, and arms where none is. No action does nothing.
pub proof fn recovering_arms_only_in_silence(
    state: ServiceModel,
    armed_at: LocalNs,
    stakes: Map<PeerId, u64>,
)
    ensures
        state.broadcast is Some ==> state.applied(PanicAction::Recover, armed_at, stakes) == (
            state,
            true,
        ),
        state.broadcast is None ==> state.applied(PanicAction::Recover, armed_at, stakes) == (
            state.armed(armed_at, stakes).0,
            true,
        ),
        state.applied(PanicAction::Nothing, armed_at, stakes) == (state, false),
{
}

/// A restarted fine loop pulses first one period after the restart, and a panic is sent again one
/// panic interval after it was sent: to the nanosecond, or at the end of the clock where that
/// comes first.
pub proof fn waits_are_whole_periods_and_intervals(state: ServiceModel, now: LocalNs)
    ensures
        now@ + state.timing.period <= i64::MAX && state.timing.period <= i64::MAX
            ==> state.restart_at(now)@ == now@ + state.timing.period,
        state.timing.period <= i64::MAX < now@ + state.timing.period ==> state.restart_at(now)@
            == i64::MAX,
        i64::MAX <= state.timing.period && now@ >= 0 ==> state.restart_at(now)@ == i64::MAX,
        i64::MAX <= state.timing.period && now@ < 0 ==> state.restart_at(now)@ == now@ + i64::MAX,
        now@ + state.timing.panic_interval <= i64::MAX && state.timing.panic_interval <= i64::MAX
            ==> state.retransmit_at(now)@ == now@ + state.timing.panic_interval,
        state.timing.panic_interval <= i64::MAX < now@ + state.timing.panic_interval
            ==> state.retransmit_at(now)@ == i64::MAX,
        i64::MAX <= state.timing.panic_interval && now@ >= 0 ==> state.retransmit_at(now)@
            == i64::MAX,
        i64::MAX <= state.timing.panic_interval && now@ < 0 ==> state.retransmit_at(now)@ == now@
            + i64::MAX,
{
}

/// A panic that was sent stays on the air as it is, to be sent again a panic interval later. One
/// of our own is recorded once more, and what the tracker asks for is asked for; a relayed one is
/// not recorded. The transmission is counted, and so is a lack of room for it; no other counter
/// moves, and the round is left alone.
pub proof fn sent_panics_stay_on_the_air(
    state: ServiceModel,
    now: LocalNs,
    queued: bool,
    ttl_ns: i64,
    stakes: Map<PeerId, u64>,
)
    requires
        state.broadcast is Some,
        ttl_ns == state.timing.panic_observation_ttl || ttl_ns == i64::MAX
            < state.timing.panic_observation_ttl,
    ensures
        ({
            let (next, action) = state.retransmitted(now, queued, stakes);
            let panic = state.broadcast->0;
            let interval = state.timing.panic_interval;
            let me = state.tracker.me;
            let (tracker, outcome) = state.tracker.recorded(
                me,
                panic.bucket,
                now,
                ttl_ns,
                stakes,
            );
            &&& next.broadcast is Some
            &&& next.broadcast->0.bucket == panic.bucket
            &&& next.broadcast->0.relay_only == panic.relay_only
            &&& now@ + interval <= i64::MAX && interval <= i64::MAX ==> next.broadcast->0.next_at@
                == now@ + interval
            &&& next.broadcast->0.next_at == state.retransmit_at(now)
            &&& panic.relay_only ==> next.tracker == state.tracker && action
                == PanicAction::Nothing
            &&& !panic.relay_only ==> next.tracker == tracker
            &&& !panic.relay_only && outcome is Ok ==> action == outcome->Ok_0
            &&& !panic.relay_only && outcome is Err ==> action == PanicAction::Nothing
            &&& next.timing == state.timing
            &&& next.pulse_sent == state.pulse_sent
            &&& next.synchronized_once == state.synchronized_once
            &&& next.stats == RoundStats {
                panics_sent: next.stats.panics_sent,
                egress_full: next.stats.egress_full,
                ..state.stats
            }
            &&& one_more(state.stats.panics_sent, next.stats.panics_sent)
            &&& queued ==> next.stats.egress_full == state.stats.egress_full
            &&& !queued ==> one_more(state.stats.egress_full, next.stats.egress_full)
        }),
{
}

/// Once the fine loop is restarted, the panic on the air is relayed under its bucket, a panic
/// interval later at the earliest, and a service without one stays silent. Nobody is counted and
/// the disturbance is over, but every bucket stays on record. The next pulse is still to be sent,
/// the recovery is counted, and nothing else changes.
pub proof fn restarts_begin_anew(state: ServiceModel, now: LocalNs, peer: PeerId)
    ensures
        ({
            let next = state.recovered(now);
            let interval = state.timing.panic_interval;
            &&& next.broadcast is Some <==> state.broadcast is Some
            &&& state.broadcast matches Some(panic) ==> {
                &&& next.broadcast->0.bucket == panic.bucket
                &&& next.broadcast->0.relay_only
                &&& now@ + interval <= i64::MAX && interval <= i64::MAX
                    ==> next.broadcast->0.next_at@ == now@ + interval
                &&& next.broadcast->0.next_at == state.retransmit_at(now)
            }
            &&& next.tracker.me == state.tracker.me
            &&& !next.tracker.active.contains_key(peer)
            &&& next.tracker.last_bucket == state.tracker.last_bucket
            &&& !next.tracker.amplified
            &&& !next.tracker.recovery_emitted
            &&& !next.pulse_sent
            &&& next.timing == state.timing
            &&& next.synchronized_once == state.synchronized_once
            &&& next.stats == RoundStats { recoveries: next.stats.recoveries, ..state.stats }
            &&& one_more(state.stats.recoveries, next.stats.recoveries)
        }),
{
}

/// Every close ends the round's pulse. A synchronized one takes the panic off the air and makes
/// the service synchronized once and for all. One without a quorum leaves a service that never was
/// synchronized silent, and makes one that was arm. Closing counts nothing.
pub proof fn closes_follow_the_outcome(
    state: ServiceModel,
    outcome: RoundOutcome,
    armed_at: LocalNs,
    stakes: Map<PeerId, u64>,
)
    ensures
        ({
            let (next, action) = state.round_closed(outcome, armed_at, stakes);
            let (armed, asked) = state.armed(armed_at, stakes);
            let lost = outcome == RoundOutcome::NoQuorum;
            &&& !next.pulse_sent
            &&& next.timing == state.timing
            &&& next.stats == state.stats
            &&& next.synchronized_once <==> state.synchronized_once || !lost
            &&& !lost ==> next.broadcast is None && next.tracker == state.tracker && action
                == PanicAction::Nothing
            &&& lost && !state.synchronized_once ==> next.broadcast == state.broadcast
                && next.tracker == state.tracker && action == PanicAction::Nothing
            &&& lost && state.synchronized_once ==> next.broadcast == armed.broadcast
                && next.tracker == armed.tracker && action == asked
        }),
{
}

/// Lateness is the time past due, none before, and at most what the clock can hold.
pub proof fn lateness_stops_at_the_end_of_the_clock(now: LocalNs, due_at: LocalNs)
    ensures
        lateness(now, due_at) >= 0,
        now@ <= due_at@ ==> lateness(now, due_at) == 0,
        due_at@ <= now@ <= due_at@ + i64::MAX ==> lateness(now, due_at) == now@ - due_at@,
        now@ > due_at@ + i64::MAX ==> lateness(now, due_at) == i64::MAX,
{
}

} // verus!
