use clock_sync::clock::LocalNs;
use clock_sync::peer::{peer_id, PeerId};
use clock_sync::recovery::PanicAction;
use clock_sync::round::{Config, Message, PulseReject, RoundOutcome, RoundStats};
use clock_sync::service::{PanicBroadcast, Reaction, ServiceState, Step, MAX_WAIT_NS};
use clock_sync::stake::Stakes;
use clock_sync::timing::{FirstPulse, ServiceTiming};
use solana_pubkey::Pubkey;

const TIMING: ServiceTiming = ServiceTiming {
    period: 1_000,
    window: 400,
    absorption_half_width: 100,
    panic_interval: 50,
    panic_observation_ttl: 120,
};

fn at(ns: i64) -> LocalNs {
    LocalNs::from_ns(ns)
}

fn validators(stakes: &[u64]) -> (Vec<PeerId>, Stakes, ServiceState) {
    let peers: Vec<PeerId> = stakes
        .iter()
        .map(|_| peer_id(&Pubkey::new_unique()))
        .collect();
    let stake_map = peers.iter().copied().zip(stakes.iter().copied()).collect();
    let state = ServiceState::new(peers[0], TIMING);
    (peers, stake_map, state)
}

fn on_the_air(bucket: u64, next_at: i64, relay_only: bool) -> Option<PanicBroadcast> {
    Some(PanicBroadcast { bucket, next_at: at(next_at), relay_only })
}

#[test]
fn panic_timing_needs_an_interval_and_a_longer_lifetime() {
    assert!(TIMING.is_valid());
    assert!(ServiceTiming { panic_observation_ttl: 50, ..TIMING }.is_valid());
    assert!(!ServiceTiming { panic_observation_ttl: 49, ..TIMING }.is_valid());
    assert!(!ServiceTiming { panic_interval: 0, ..TIMING }.is_valid());
}

#[test]
fn fine_loop_gets_the_timing_in_nanoseconds() {
    assert_eq!(
        TIMING.config(),
        Config { period_ns: 1_000, window_ns: 400, absorption_half_width_ns: 100 }
    );
    let huge = ServiceTiming {
        window: (1u128 << 64) + 5,
        period: 1u128 << 63,
        panic_interval: u128::MAX,
        panic_observation_ttl: u128::MAX,
        ..TIMING
    };
    assert_eq!(huge.config().window_ns, i64::MAX);
    assert_eq!(huge.config().period_ns, i64::MAX);
    assert_eq!(huge.period_ns(), i64::MAX);
    assert_eq!(huge.panic_interval_ns(), i64::MAX);
    assert_eq!(huge.panic_observation_ttl_ns(), i64::MAX);
    assert_eq!(TIMING.panic_observation_ttl_ns(), 120);
}

#[test]
fn first_round_is_the_next_on_the_wall_clock() {
    assert_eq!(TIMING.first_pulse(at(10_500)), FirstPulse { round: 11, due_at: at(11_000) });
    assert_eq!(TIMING.first_pulse(at(11_000)), FirstPulse { round: 12, due_at: at(12_000) });
    assert_eq!(TIMING.first_pulse(at(-1)), FirstPulse { round: 0, due_at: at(0) });
    assert_eq!(
        TIMING.first_pulse(at(-1_500)),
        FirstPulse { round: u64::MAX, due_at: at(-1_000) }
    );
    assert_eq!(TIMING.first_pulse(at(i64::MAX)).due_at, at(i64::MAX));
    assert!(TIMING.has_first_pulse());
    assert!(!ServiceTiming { period: 0, ..TIMING }.has_first_pulse());
}

#[test]
fn buckets_are_two_intervals_wide() {
    assert_eq!(TIMING.bucket_at(at(1_099)), 10);
    assert_eq!(TIMING.bucket_at(at(1_100)), 11);
    assert_eq!(TIMING.bucket_at(at(-1)), u64::MAX);
    for panic_interval in [1u128 << 62, 1u128 << 63, u128::MAX] {
        let wide = ServiceTiming { panic_interval, ..TIMING };
        assert_eq!(wide.bucket_at(at(5)), 0);
        assert_eq!(wide.bucket_at(at(i64::MAX)), 1);
        assert_eq!(wide.bucket_at(at(-5)), u64::MAX);
    }
}

#[test]
fn clock_arithmetic_stops_at_the_ends() {
    assert_eq!(at(5).saturating_add(-7), at(-2));
    assert_eq!(at(i64::MAX).saturating_add(1), at(i64::MAX));
    assert_eq!(at(i64::MIN).saturating_add(-1), at(i64::MIN));
    assert_eq!(at(5).saturating_sub(at(7)), -2);
    assert_eq!(at(i64::MAX).saturating_sub(at(-1)), i64::MAX);
    assert_eq!(at(i64::MIN).saturating_sub(at(1)), i64::MIN);
    assert_eq!(at(9).ns(), 9);
    assert!(at(3) < at(4));
}

#[test]
fn round_goes_from_pulse_to_close() {
    let (_, stakes, mut state) = validators(&[1, 1]);
    assert_eq!(state.next_step(at(900), at(1_000), at(1_400)), Step::Wait { timeout_ns: 100 });
    assert_eq!(state.next_step(at(1_003), at(1_000), at(1_400)), Step::SendPulse);
    assert_eq!(state.time_pulse(at(1_003), at(1_000)), 3);
    state.pulse_handed_over(true);
    assert_eq!(state.stats.send_lateness_ns, 3);
    assert_eq!(state.stats.egress_full, 0);
    assert_eq!(
        state.next_step(at(1_004), at(1_000), at(1_400)),
        Step::Wait { timeout_ns: 396 }
    );
    assert_eq!(state.next_step(at(1_400), at(1_000), at(1_400)), Step::CloseRound);
    assert_eq!(
        state.round_closed(RoundOutcome::Absorption, at(1_401), &stakes),
        PanicAction::Nothing
    );
    assert!(state.synchronized_once);
    assert!(!state.pulse_sent);
}

#[test]
fn early_pulse_is_not_late_and_full_egress_is_counted() {
    let (_, _, mut state) = validators(&[1]);
    assert_eq!(state.time_pulse(at(990), at(1_000)), 0);
    state.pulse_handed_over(false);
    assert_eq!(state.stats, RoundStats { egress_full: 1, ..RoundStats::default() });
    assert!(state.pulse_sent);
}

#[test]
fn waits_are_bounded() {
    let (_, _, state) = validators(&[1]);
    let far = at(10_000_000_000);
    assert_eq!(state.next_step(at(0), far, far), Step::Wait { timeout_ns: MAX_WAIT_NS });
    assert_eq!(
        state.next_step(at(i64::MIN), at(i64::MAX), far),
        Step::Wait { timeout_ns: MAX_WAIT_NS }
    );
}

#[test]
fn missing_quorum_is_ignored_before_the_first_synchrony() {
    let (_, stakes, mut state) = validators(&[1, 1, 1, 1]);
    assert_eq!(
        state.round_closed(RoundOutcome::NoQuorum, at(1_000), &stakes),
        PanicAction::Nothing
    );
    assert_eq!(state.broadcast, None);
}

#[test]
fn missing_quorum_arms_a_panic_and_synchrony_ends_it() {
    let (_, stakes, mut state) = validators(&[1, 1, 1, 1]);
    state.round_closed(RoundOutcome::Midpoint, at(1_000), &stakes);
    assert_eq!(
        state.round_closed(RoundOutcome::NoQuorum, at(2_040), &stakes),
        PanicAction::Nothing
    );
    assert_eq!(state.broadcast, on_the_air(20, 2_040, false));
    state.round_closed(RoundOutcome::NoQuorum, at(3_040), &stakes);
    assert_eq!(state.broadcast, on_the_air(20, 2_040, false));
    state.round_closed(RoundOutcome::Midpoint, at(4_000), &stakes);
    assert_eq!(state.broadcast, None);
}

#[test]
fn panic_is_retransmitted_before_the_round_is_attended_to() {
    let (_, stakes, mut state) = validators(&[1, 1, 1, 1]);
    assert_eq!(state.arm_panic(at(2_040), &stakes), PanicAction::Nothing);
    assert_eq!(
        state.next_step(at(2_040), at(2_000), at(2_000)),
        Step::RetransmitPanic { bucket: 20 }
    );
    assert_eq!(state.panic_handed_over(at(2_041), true, &stakes), PanicAction::Nothing);
    assert_eq!(state.broadcast, on_the_air(20, 2_091, false));
    assert_eq!(state.stats.panics_sent, 1);
    assert_eq!(state.next_step(at(2_050), at(2_060), at(2_060)), Step::Wait { timeout_ns: 10 });
    assert_eq!(state.next_step(at(2_050), at(3_000), at(3_000)), Step::Wait { timeout_ns: 41 });
    assert_eq!(state.panic_handed_over(at(2_091), false, &stakes), PanicAction::Nothing);
    assert_eq!(state.stats.panics_sent, 2);
    assert_eq!(state.stats.egress_full, 1);
}

#[test]
fn retransmission_in_time_keeps_our_panic_counted() {
    let (peers, stakes, mut state) = validators(&[1, 1, 1, 1]);
    state.arm_panic(at(2_000), &stakes);
    state.panic_handed_over(at(2_100), true, &stakes);
    state.panic_handed_over(at(2_220), true, &stakes);
    let panic = Some(Message::Panic { bucket: 3 });
    assert_eq!(
        state.handle_datagram(peers[1], panic, at(2_300), &stakes),
        Reaction::Act(PanicAction::Amplify)
    );
}

#[test]
fn amplification_arms_and_recovers_on_a_quorum() {
    let (peers, stakes, mut state) = validators(&[2, 2, 1]);
    let panic = Some(Message::Panic { bucket: 3 });
    let reaction = state.handle_datagram(peers[1], panic, at(2_000), &stakes);
    assert_eq!(reaction, Reaction::Act(PanicAction::Amplify));
    assert_eq!(
        state.apply_panic_action(PanicAction::Amplify, at(2_001), at(2_002), &stakes),
        Some(at(3_002))
    );
    assert_eq!(state.broadcast, on_the_air(20, 2_001, false));
    assert_eq!(state.stats.panic_amplifications, 1);
    state.pulse_sent = true;
    state.complete_recovery(at(2_003));
    assert_eq!(state.broadcast, on_the_air(20, 2_053, true));
    assert_eq!(state.stats.recoveries, 1);
    assert!(!state.pulse_sent);
}

#[test]
fn amplification_without_a_quorum_only_arms() {
    let (peers, stakes, mut state) = validators(&[1, 3, 4]);
    let panic = Some(Message::Panic { bucket: 3 });
    let reaction = state.handle_datagram(peers[1], panic, at(2_000), &stakes);
    assert_eq!(reaction, Reaction::Act(PanicAction::Amplify));
    assert_eq!(
        state.apply_panic_action(PanicAction::Amplify, at(2_001), at(2_002), &stakes),
        None
    );
    assert_eq!(state.broadcast, on_the_air(20, 2_001, false));
}

#[test]
fn recovery_without_a_panic_on_the_air_arms_one() {
    let (_, stakes, mut state) = validators(&[1, 1, 1]);
    assert_eq!(
        state.apply_panic_action(PanicAction::Recover, at(2_001), at(2_002), &stakes),
        Some(at(3_002))
    );
    assert_eq!(state.broadcast, on_the_air(20, 2_001, false));
}

#[test]
fn relay_does_not_count_and_gives_way_to_a_new_panic() {
    let (_, stakes, mut state) = validators(&[1, 1, 1]);
    state.synchronized_once = true;
    state.arm_panic(at(2_000), &stakes);
    state.complete_recovery(at(2_001));
    assert_eq!(state.panic_handed_over(at(2_051), true, &stakes), PanicAction::Nothing);
    assert_eq!(state.broadcast, on_the_air(20, 2_101, true));
    assert_eq!(
        state.round_closed(RoundOutcome::NoQuorum, at(2_060), &stakes),
        PanicAction::Nothing
    );
    assert_eq!(state.broadcast, on_the_air(21, 2_060, false));
}

#[test]
fn next_panic_carries_a_later_bucket_after_a_clock_rollback() {
    let (_, stakes, mut state) = validators(&[1, 1, 1]);
    state.arm_panic(at(2_000), &stakes);
    state.complete_recovery(at(2_001));
    state.arm_panic(at(500), &stakes);
    assert_eq!(state.broadcast, on_the_air(21, 500, false));
    assert_eq!(state.arm_panic(at(9_000), &stakes), PanicAction::Nothing);
    assert_eq!(state.broadcast, on_the_air(21, 500, false));
}

#[test]
fn nothing_is_nothing() {
    let (_, stakes, mut state) = validators(&[1]);
    assert_eq!(
        state.apply_panic_action(PanicAction::Nothing, at(0), at(0), &stakes),
        None
    );
    assert_eq!(state.broadcast, None);
    assert_eq!(state.stats, RoundStats::default());
}

#[test]
fn endless_lifetime_lets_observations_count_on() {
    let timing = ServiceTiming {
        panic_interval: 1u128 << 63,
        panic_observation_ttl: 1u128 << 63,
        ..TIMING
    };
    let (peers, stakes, _) = validators(&[1, 1, 1, 1]);
    let mut state = ServiceState::new(peers[0], timing);
    assert_eq!(state.arm_panic(at(0), &stakes), PanicAction::Nothing);
    let panic = Some(Message::Panic { bucket: 3 });
    assert_eq!(
        state.handle_datagram(peers[1], panic, at(i64::MAX), &stakes),
        Reaction::Act(PanicAction::Amplify)
    );
}

#[test]
fn datagrams_are_counted_by_what_becomes_of_them() {
    let (peers, stakes, mut state) = validators(&[1, 1, 1, 1]);
    let stranger = peer_id(&Pubkey::new_unique());
    let nothing = Reaction::Act(PanicAction::Nothing);
    assert_eq!(state.handle_datagram(peers[1], None, at(0), &stakes), nothing);
    let pulse = Some(Message::Pulse { round: 9, lateness_ns: 2 });
    assert_eq!(
        state.handle_datagram(peers[1], pulse, at(0), &stakes),
        Reaction::DeliverPulse { round: 9, lateness_ns: 2 }
    );
    let panic = Some(Message::Panic { bucket: 3 });
    assert_eq!(state.handle_datagram(stranger, panic, at(0), &stakes), nothing);
    assert_eq!(state.handle_datagram(peers[1], panic, at(0), &stakes), nothing);
    let earlier = Some(Message::Panic { bucket: 2 });
    assert_eq!(state.handle_datagram(peers[1], earlier, at(0), &stakes), nothing);
    assert_eq!(
        state.stats,
        RoundStats {
            decode_errors: 1,
            panics_received: 3,
            unstaked_panics: 1,
            stale_panics: 1,
            ..RoundStats::default()
        }
    );
}

#[test]
fn refused_pulses_are_counted_by_reason() {
    let (_, _, mut state) = validators(&[1]);
    state.pulse_delivered(Ok(()));
    state.pulse_delivered(Err(PulseReject::StaleRound));
    state.pulse_delivered(Err(PulseReject::FarFutureRound));
    state.pulse_delivered(Err(PulseReject::FarFutureRound));
    state.stats.duplicate_peer = u64::MAX;
    state.pulse_delivered(Err(PulseReject::DuplicatePeer));
    assert_eq!(
        state.stats,
        RoundStats {
            stale_round: 1,
            far_future_round: 2,
            duplicate_peer: u64::MAX,
            ..RoundStats::default()
        }
    );
}
