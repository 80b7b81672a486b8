use clock_sync::clock::LocalNs;
use clock_sync::driver::{Command, Event, ServiceLoop};
use clock_sync::peer::{peer_id, PeerId};
use clock_sync::recovery::PanicAction;
use clock_sync::round::{Message, PulseReject, RoundOutcome, RoundStats};
use clock_sync::stake::Stakes;
use clock_sync::timing::ServiceTiming;
use solana_pubkey::Pubkey;

const TIMING: ServiceTiming = ServiceTiming {
    period: 1_000,
    window: 400,
    absorption_half_width: 100,
    panic_interval: 50,
    panic_observation_ttl: 120,
};

fn at(ns: i64) -> LocalNs {
    LocalNs::from_ns(ns)
}

fn scheduled(now: i64, pulse_due_at: i64, round_close_at: i64) -> Event {
    Event::Scheduled {
        now: at(now),
        pulse_due_at: at(pulse_due_at),
        round_close_at: at(round_close_at),
    }
}

fn closed(outcome: RoundOutcome, now: i64) -> Event {
    Event::RoundClosed { outcome, now: at(now) }
}

fn validators(stakes: &[u64]) -> (Vec<PeerId>, Stakes, ServiceLoop) {
    let peers: Vec<PeerId> = stakes
        .iter()
        .map(|_| peer_id(&Pubkey::new_unique()))
        .collect();
    let stake_map = peers.iter().copied().zip(stakes.iter().copied()).collect();
    let service = ServiceLoop::new(peers[0], TIMING);
    (peers, stake_map, service)
}

/// Feeds the events in turn and checks the command that follows each.
fn drive(service: &mut ServiceLoop, stakes: &Stakes, steps: &[(Event, Command)]) {
    for (event, command) in steps {
        service.step(*event, stakes);
        assert_eq!(service.command(), *command, "after {event:?}");
    }
}

/// One whole round, from scheduling its pulse to closing it.
fn round(outcome: RoundOutcome, closed_at: i64, then: Command) -> Vec<(Event, Command)> {
    vec![
        (scheduled(1_003, 1_000, 1_400), Command::TimePulse),
        (
            Event::PulseTimed { round: 7, now: at(1_005), pulse_due_at: at(1_000) },
            Command::SendPulse { round: 7, lateness_ns: 5 },
        ),
        (Event::PulseSent { queued: true }, Command::Schedule),
        (scheduled(1_400, 1_000, 1_400), Command::CloseRound),
        (closed(outcome, closed_at), then),
    ]
}

#[test]
fn round_runs_from_pulse_to_close() {
    let (_, stakes, mut service) = validators(&[1, 1]);
    assert_eq!(service.command(), Command::Schedule);
    drive(&mut service, &stakes, &[
        (scheduled(900, 1_000, 1_400), Command::Listen { timeout_ns: 100 }),
        (Event::Quiet, Command::Schedule),
    ]);
    drive(&mut service, &stakes, &round(RoundOutcome::Midpoint, 1_401, Command::Schedule));
    assert_eq!(service.stats(), RoundStats { send_lateness_ns: 5, ..RoundStats::default() });
}

#[test]
fn lost_quorum_is_broadcast_and_retransmitted() {
    let (_, stakes, mut service) = validators(&[1, 1, 1, 1]);
    drive(&mut service, &stakes, &round(RoundOutcome::NoQuorum, 1_401, Command::Schedule));
    drive(&mut service, &stakes, &[(
        scheduled(1_402, 2_000, 2_400),
        Command::Listen { timeout_ns: 598 },
    ), (Event::Quiet, Command::Schedule)]);
    drive(&mut service, &stakes, &round(RoundOutcome::Absorption, 1_401, Command::Schedule));
    drive(&mut service, &stakes, &round(RoundOutcome::NoQuorum, 1_401, Command::Schedule));
    drive(&mut service, &stakes, &[
        (scheduled(1_402, 1_000, 1_400), Command::SendPanic { bucket: 14, sent_at: at(1_402) }),
        (Event::PanicSent { queued: false }, Command::Schedule),
        (scheduled(1_403, 2_000, 2_400), Command::Listen { timeout_ns: 49 }),
        (Event::Quiet, Command::Schedule),
        (scheduled(1_452, 2_000, 2_400), Command::SendPanic { bucket: 14, sent_at: at(1_452) }),
    ]);
    assert_eq!(service.stats().egress_full, 1);
    assert_eq!(service.stats().panics_sent, 1);
}

#[test]
fn quorum_of_panics_restarts_the_fine_loop_and_is_relayed() {
    let (peers, stakes, mut service) = validators(&[2, 2, 1]);
    let heard = Event::Heard {
        peer: peers[1],
        message: Some(Message::Panic { bucket: 3 }),
        arrival: at(2_000),
    };
    drive(&mut service, &stakes, &[
        (scheduled(1_990, 3_000, 3_400), Command::Listen { timeout_ns: 1_010 }),
        (heard, Command::ReadClock { action: PanicAction::Amplify }),
        (
            Event::ClockRead { armed_at: at(2_001), restart_from: at(2_002) },
            Command::Restart { first_next: at(3_002) },
        ),
        (Event::Restarted { now: at(2_003) }, Command::Schedule),
        (scheduled(2_053, 3_002, 3_402), Command::SendPanic { bucket: 20, sent_at: at(2_053) }),
        (Event::PanicSent { queued: true }, Command::Schedule),
    ]);
    assert_eq!(service.stats().panic_amplifications, 1);
    assert_eq!(service.stats().recoveries, 1);
}

#[test]
fn lone_validator_restarts_over_its_own_panic() {
    let (_, stakes, mut service) = validators(&[1]);
    drive(&mut service, &stakes, &round(RoundOutcome::Midpoint, 1_401, Command::Schedule));
    drive(
        &mut service,
        &stakes,
        &round(
            RoundOutcome::NoQuorum,
            1_401,
            Command::ReadClock { action: PanicAction::Recover },
        ),
    );
    drive(&mut service, &stakes, &[(
        Event::ClockRead { armed_at: at(1_402), restart_from: at(1_403) },
        Command::Restart { first_next: at(2_403) },
    )]);
}

#[test]
fn pulses_are_delivered_and_refusals_counted() {
    let (peers, stakes, mut service) = validators(&[1, 1]);
    let pulse = Event::Heard {
        peer: peers[1],
        message: Some(Message::Pulse { round: 4, lateness_ns: 6 }),
        arrival: at(10),
    };
    let garbage = Event::Heard { peer: peers[1], message: None, arrival: at(20) };
    let listen = (scheduled(0, 1_000, 1_400), Command::Listen { timeout_ns: 1_000 });
    let deliver = Command::DeliverPulse { round: 4, lateness_ns: 6 };
    drive(&mut service, &stakes, &[
        listen,
        (pulse, deliver),
        (Event::PulseTaken, Command::Schedule),
        listen,
        (pulse, deliver),
        (Event::PulseRefused { reason: PulseReject::DuplicatePeer }, Command::Schedule),
        listen,
        (garbage, Command::Schedule),
    ]);
    assert_eq!(
        service.stats(),
        RoundStats { duplicate_peer: 1, decode_errors: 1, ..RoundStats::default() }
    );
    service.set_stats(RoundStats::default());
    assert_eq!(service.stats(), RoundStats::default());
}

#[test]
fn loop_stops_on_request_and_on_disconnection() {
    let (_, stakes, mut service) = validators(&[1]);
    drive(&mut service, &stakes, &[
        (Event::ExitRequested, Command::Stop),
        (scheduled(0, 0, 0), Command::Stop),
        (Event::Quiet, Command::Stop),
    ]);
    let (_, stakes, mut service) = validators(&[1]);
    drive(&mut service, &stakes, &[
        (scheduled(0, 5, 9), Command::Listen { timeout_ns: 5 }),
        (Event::Disconnected, Command::Stop),
    ]);
}

#[test]
fn unexpected_events_change_nothing() {
    let (_, stakes, mut service) = validators(&[1]);
    drive(&mut service, &stakes, &[
        (Event::PulseSent { queued: false }, Command::Schedule),
        (Event::Restarted { now: at(0) }, Command::Schedule),
        (closed(RoundOutcome::NoQuorum, 0), Command::Schedule),
        (Event::Disconnected, Command::Schedule),
    ]);
    assert_eq!(service.stats(), RoundStats::default());
}

#[test]
fn longest_panic_interval_still_gives_a_bucket() {
    let timing = ServiceTiming {
        panic_interval: 1u128 << 63,
        panic_observation_ttl: 1u128 << 63,
        ..TIMING
    };
    let me = peer_id(&Pubkey::new_unique());
    let stakes = Stakes::new();
    let mut service = ServiceLoop::new(me, timing);
    drive(&mut service, &stakes, &round(RoundOutcome::Midpoint, 1_401, Command::Schedule));
    drive(&mut service, &stakes, &round(RoundOutcome::NoQuorum, 1_401, Command::Schedule));
    drive(&mut service, &stakes, &[(
        scheduled(1_402, 2_000, 2_400),
        Command::SendPanic { bucket: 0, sent_at: at(1_402) },
    )]);
}

#[test]
fn synchronized_service_stays_off_the_air_until_called() {
    let (peers, stakes, mut service) = validators(&[1, 1, 1, 1]);
    let heard = |peer: usize| Event::Heard {
        peer: peers[peer],
        message: Some(Message::Panic { bucket: 3 }),
        arrival: at(1_500),
    };
    let listen = (scheduled(1_450, 2_000, 2_400), Command::Listen { timeout_ns: 550 });
    drive(&mut service, &stakes, &round(RoundOutcome::Midpoint, 1_401, Command::Schedule));
    drive(&mut service, &stakes, &[listen, (heard(1), Command::Schedule)]);
    drive(&mut service, &stakes, &round(RoundOutcome::Absorption, 1_401, Command::Schedule));
    drive(&mut service, &stakes, &[
        listen,
        (heard(2), Command::ReadClock { action: PanicAction::Amplify }),
    ]);
}

#[test]
fn restart_skips_the_close_of_the_round() {
    let (peers, stakes, mut service) = validators(&[2, 2, 1]);
    let heard = Event::Heard {
        peer: peers[1],
        message: Some(Message::Panic { bucket: 3 }),
        arrival: at(1_010),
    };
    let opening = round(RoundOutcome::Midpoint, 1_401, Command::Schedule);
    drive(&mut service, &stakes, &opening[..3]);
    drive(&mut service, &stakes, &[
        (scheduled(1_006, 1_000, 1_400), Command::Listen { timeout_ns: 394 }),
        (heard, Command::ReadClock { action: PanicAction::Amplify }),
        (
            Event::ClockRead { armed_at: at(1_011), restart_from: at(1_012) },
            Command::Restart { first_next: at(2_012) },
        ),
        (Event::Restarted { now: at(1_013) }, Command::Schedule),
        (scheduled(1_014, 1_000, 1_400), Command::TimePulse),
    ]);
}
