//! What holds of the service loop in every history.
use crate::clock::LocalNs;
use crate::driver::{Command, Event, LoopModel};
use crate::peer::PeerId;
use crate::recovery::PanicAction;
use crate::recovery_laws::operations_keep_trackers_well_formed;
use crate::round::{counted, Message, PulseReject, RoundOutcome, RoundStats};
use crate::round_laws::{one_more, refused_pulses_are_counted_by_reason};
use crate::service::{Reaction, ServiceModel};
use crate::service_laws::{
    amplifying_is_counted_arming, closes_follow_the_outcome, heard_panics_are_acted_upon,
    heard_quorums_are_answered, observations_live_as_long_as_the_constant_says,
    only_panics_reach_the_tracker, pulses_leave_the_panics_alone, recovering_arms_only_in_silence,
    sent_panics_stay_on_the_air, steps_follow_the_times,
};
use crate::stake::{stake_sum, total_stake};
use crate::timing::ServiceTiming;
use vstd::prelude::*;

verus! {

/// An event, and the stakes at that time.
pub struct Occurrence {
    pub event: Event,
    pub stakes: Map<PeerId, u64>,
}

/// The loop after the first `count` of `history`.
pub open spec fn loop_after(start: LoopModel, history: Seq<Occurrence>, count: nat) -> LoopModel
    decreases count,
{
    if count == 0 {
        start
    } else {
        let last = history[count - 1];
        loop_after(start, history, (count - 1) as nat).stepped(last.event, last.stakes)
    }
}

/// An event that the pending command cannot have is ignored, and a loop that has stopped stays
/// as it is.
pub proof fn unexpected_events_are_ignored(
    service: LoopModel,
    event: Event,
    stakes: Map<PeerId, u64>,
)
    ensures
        !service.expects(event) ==> service.stepped(event, stakes) == service,
        service.pending == Command::Stop ==> service.stepped(event, stakes) == service,
{
}

/// The loop stops exactly when it is asked to exit while it schedules, or when no datagram can
/// arrive any more while it listens.
pub proof fn loop_stops_only_when_told(
    service: LoopModel,
    event: Event,
    stakes: Map<PeerId, u64>,
)
    requires
        service.pending != Command::Stop,
    ensures
        service.stepped(event, stakes).pending == Command::Stop <==> {
            ||| service.pending == Command::Schedule && event is ExitRequested
            ||| service.pending is Listen && event is Disconnected
        },
{
}

/// How many events at most separate the command from the next look at the exit flag.
pub open spec fn events_until_schedule(command: Command) -> nat {
    match command {
        Command::Schedule => 0,
        Command::Stop => 0,
        Command::SendPulse { .. } => 1,
        Command::DeliverPulse { .. } => 1,
        Command::Restart { .. } => 1,
        Command::TimePulse => 2,
        Command::ReadClock { .. } => 2,
        Command::SendPanic { .. } => 3,
        Command::CloseRound => 3,
        Command::Listen { .. } => 3,
    }
}

/// The loop keeps coming back to where it looks whether to exit: every expected event brings it
/// closer.
pub proof fn loop_comes_back_to_the_exit_flag(
    service: LoopModel,
    event: Event,
    stakes: Map<PeerId, u64>,
)
    requires
        service.pending != Command::Schedule,
        service.expects(event),
    ensures
        events_until_schedule(service.stepped(event, stakes).pending) < events_until_schedule(
            service.pending,
        ),
{
}

proof fn lemma_arming_keeps_trackers_well_formed(
    state: ServiceModel,
    now: LocalNs,
    stakes: Map<PeerId, u64>,
)
    requires
        state.tracker.wf(),
    ensures
        state.armed(now, stakes).0.tracker.wf(),
{
    let bucket = state.tracker.local_bucket(state.timing.bucket(now));
    operations_keep_trackers_well_formed(
        state.tracker,
        state.tracker.me,
        bucket,
        now,
        state.ttl_ns(),
        stakes,
    );
}

proof fn lemma_steps_keep_loops_well_formed(
    service: LoopModel,
    event: Event,
    stakes: Map<PeerId, u64>,
)
    requires
        service.wf(),
    ensures
        service.stepped(event, stakes).wf(),
{
    lemma_step_keeps_identity_and_timing(service, event, stakes);
    let state = service.state;
    match (service.pending, event) {
        (Command::SendPanic { sent_at, .. }, Event::PanicSent { .. }) => {
            operations_keep_trackers_well_formed(
                state.tracker,
                state.tracker.me,
                state.broadcast->0.bucket,
                sent_at,
                state.ttl_ns(),
                stakes,
            );
        },
        (Command::CloseRound, Event::RoundClosed { now, .. }) => {
            lemma_arming_keeps_trackers_well_formed(
                ServiceModel { pulse_sent: false, ..state },
                now,
                stakes,
            );
        },
        (Command::Listen { .. }, Event::Heard { peer, message, arrival }) => {
            if let Some(Message::Panic { bucket }) = message {
                operations_keep_trackers_well_formed(
                    state.tracker,
                    peer,
                    bucket,
                    arrival,
                    state.ttl_ns(),
                    stakes,
                );
            }
        },
        (Command::ReadClock { action }, Event::ClockRead { armed_at, .. }) => {
            let amplified = ServiceModel {
                stats: RoundStats {
                    panic_amplifications: counted(state.stats.panic_amplifications),
                    ..state.stats
                },
                ..state
            };
            lemma_arming_keeps_trackers_well_formed(amplified, armed_at, stakes);
            lemma_arming_keeps_trackers_well_formed(state, armed_at, stakes);
        },
        _ => {},
    }
}

proof fn lemma_loops_stay_well_formed(
    start: LoopModel,
    history: Seq<Occurrence>,
    count: nat,
)
    requires
        start.wf(),
        count <= history.len(),
    ensures
        loop_after(start, history, count).wf(),
    decreases count,
{
    if count > 0 {
        lemma_loops_stay_well_formed(start, history, (count - 1) as nat);
        let before = loop_after(start, history, (count - 1) as nat);
        let last = history[count - 1];
        lemma_steps_keep_loops_well_formed(before, last.event, last.stakes);
    }
}

/// Every loop that a new service can reach is well formed.
pub proof fn reachable_loops_are_well_formed(
    identity: PeerId,
    timing: ServiceTiming,
    history: Seq<Occurrence>,
    count: nat,
)
    requires
        timing.has_valid_panic_timing(),
        count <= history.len(),
    ensures
        loop_after(LoopModel::initial(identity, timing), history, count).wf(),
{
    lemma_loops_stay_well_formed(LoopModel::initial(identity, timing), history, count);
}

/// The event completes the sending of a pulse.
pub open spec fn sends_pulse(service: LoopModel, event: Event) -> bool {
    service.pending is SendPulse && event is PulseSent
}

/// The event closes the round.
pub open spec fn closes_round(service: LoopModel, event: Event) -> bool {
    service.pending == Command::CloseRound && event is RoundClosed
}

/// The event restarts the fine loop.
pub open spec fn restarts(service: LoopModel, event: Event) -> bool {
    service.pending is Restart && event is Restarted
}

/// How many pulses are sent from `from` on, before `to`.
pub open spec fn pulses_between(
    start: LoopModel,
    history: Seq<Occurrence>,
    from: nat,
    to: nat,
) -> nat
    decreases to,
{
    if from >= to {
        0
    } else {
        let last = (to - 1) as nat;
        pulses_between(start, history, from, last) + if sends_pulse(
            loop_after(start, history, last),
            history[last as int].event,
        ) {
            1
        } else {
            0nat
        }
    }
}

/// How many rounds are closed from `from` on, before `to`.
pub open spec fn closes_between(
    start: LoopModel,
    history: Seq<Occurrence>,
    from: nat,
    to: nat,
) -> nat
    decreases to,
{
    if from >= to {
        0
    } else {
        let last = (to - 1) as nat;
        closes_between(start, history, from, last) + if closes_round(
            loop_after(start, history, last),
            history[last as int].event,
        ) {
            1
        } else {
            0nat
        }
    }
}

/// Some occurrence from `from` on, before `to`, restarts the fine loop.
pub open spec fn restarts_between(
    start: LoopModel,
    history: Seq<Occurrence>,
    from: nat,
    to: nat,
) -> bool {
    exists|i: nat|
        from <= i < to && restarts(
            loop_after(start, history, i),
            (#[trigger] history[i as int]).event,
        )
}

proof fn lemma_step_moves_pulse_flag(
    service: LoopModel,
    event: Event,
    stakes: Map<PeerId, u64>,
)
    requires
        service.wf(),
    ensures
        service.stepped(event, stakes).state.pulse_sent == if sends_pulse(service, event) {
            true
        } else if closes_round(service, event) || restarts(service, event) {
            false
        } else {
            service.state.pulse_sent
        },
        sends_pulse(service, event) ==> !service.state.pulse_sent,
        closes_round(service, event) ==> service.state.pulse_sent,
{
}

/// Pulses and closes take turns: as long as the fine loop is not restarted, as many rounds are
/// closed as pulses are sent, but for a round that was open at the start and one that is left
/// open at the end.
pub proof fn pulses_and_closes_take_turns(
    start: LoopModel,
    history: Seq<Occurrence>,
    from: nat,
    to: nat,
)
    requires
        start.wf(),
        from <= to <= history.len(),
        !restarts_between(start, history, from, to),
    ensures
        pulses_between(start, history, from, to) + if loop_after(
            start,
            history,
            from,
        ).state.pulse_sent {
            1nat
        } else {
            0
        } == closes_between(start, history, from, to) + if loop_after(
            start,
            history,
            to,
        ).state.pulse_sent {
            1nat
        } else {
            0
        },
    decreases to,
{
    if from < to {
        let last = (to - 1) as nat;
        let before = loop_after(start, history, last);
        let occurrence = history[last as int];
        assert(!restarts(before, occurrence.event));
        assert(!restarts_between(start, history, from, last)) by {
            if restarts_between(start, history, from, last) {
                let i = choose|i: nat|
                    from <= i < last && restarts(
                        loop_after(start, history, i),
                        (#[trigger] history[i as int]).event,
                    );
                assert(restarts(loop_after(start, history, i), history[i as int].event));
            }
        }
        pulses_and_closes_take_turns(start, history, from, last);
        lemma_loops_stay_well_formed(start, history, last);
        lemma_step_moves_pulse_flag(before, occurrence.event, occurrence.stakes);
    }
}

/// A round has one pulse: between a pulse that was sent and a later one that is about to be, a
/// round is closed or the fine loop restarted. Where it is not restarted, one round more is closed
/// than pulses are sent in between: between two pulses that follow each other, exactly one.
pub proof fn rounds_have_one_pulse(
    start: LoopModel,
    history: Seq<Occurrence>,
    first: nat,
    second: nat,
)
    requires
        start.wf(),
        first < second < history.len(),
        sends_pulse(loop_after(start, history, first), history[first as int].event),
        loop_after(start, history, second).pending is SendPulse,
    ensures
        !restarts_between(start, history, first + 1, second) ==> closes_between(
            start,
            history,
            first + 1,
            second,
        ) == pulses_between(start, history, first + 1, second) + 1,
        !restarts_between(start, history, first + 1, second) && pulses_between(
            start,
            history,
            first + 1,
            second,
        ) == 0 ==> closes_between(start, history, first + 1, second) == 1,
{
    lemma_loops_stay_well_formed(start, history, first);
    lemma_loops_stay_well_formed(start, history, second);
    let before = loop_after(start, history, first);
    let occurrence = history[first as int];
    lemma_step_moves_pulse_flag(before, occurrence.event, occurrence.stakes);
    if !restarts_between(start, history, first + 1, second) {
        pulses_and_closes_take_turns(start, history, first + 1, second);
    }
}

proof fn lemma_service_keeps_identity_and_timing(
    state: ServiceModel,
    peer: PeerId,
    message: Option<Message>,
    outcome: RoundOutcome,
    action: PanicAction,
    now: LocalNs,
    queued: bool,
    stakes: Map<PeerId, u64>,
)
    ensures
        state.armed(now, stakes).0.timing == state.timing,
        state.armed(now, stakes).0.tracker.me == state.tracker.me,
        state.retransmitted(now, queued, stakes).0.timing == state.timing,
        state.retransmitted(now, queued, stakes).0.tracker.me == state.tracker.me,
        state.received(peer, message, now, stakes).0.timing == state.timing,
        state.received(peer, message, now, stakes).0.tracker.me == state.tracker.me,
        state.round_closed(outcome, now, stakes).0.timing == state.timing,
        state.round_closed(outcome, now, stakes).0.tracker.me == state.tracker.me,
        state.applied(action, now, stakes).0.timing == state.timing,
        state.applied(action, now, stakes).0.tracker.me == state.tracker.me,
{
}

proof fn lemma_step_keeps_identity_and_timing(
    service: LoopModel,
    event: Event,
    stakes: Map<PeerId, u64>,
)
    ensures
        service.stepped(event, stakes).state.timing == service.state.timing,
        service.stepped(event, stakes).state.tracker.me == service.state.tracker.me,
{
    let state = service.state;
    let me = state.tracker.me;
    let nothing = PanicAction::Nothing;
    let synchronized = RoundOutcome::Midpoint;
    match (service.pending, event) {
        (Command::SendPanic { sent_at, .. }, Event::PanicSent { queued }) => {
            lemma_service_keeps_identity_and_timing(
                state, me, None, synchronized, nothing, sent_at, queued, stakes,
            );
        },
        (Command::CloseRound, Event::RoundClosed { outcome, now }) => {
            lemma_service_keeps_identity_and_timing(
                state, me, None, outcome, nothing, now, true, stakes,
            );
        },
        (Command::Listen { .. }, Event::Heard { peer, message, arrival }) => {
            lemma_service_keeps_identity_and_timing(
                state, peer, message, synchronized, nothing, arrival, true, stakes,
            );
        },
        (Command::ReadClock { action }, Event::ClockRead { armed_at, .. }) => {
            lemma_service_keeps_identity_and_timing(
                state, me, None, synchronized, action, armed_at, true, stakes,
            );
        },
        _ => {},
    }
}

/// Whatever the service goes through, its constants and its identity stay the same.
pub proof fn identity_and_timing_never_change(
    start: LoopModel,
    history: Seq<Occurrence>,
    count: nat,
)
    requires
        count <= history.len(),
    ensures
        loop_after(start, history, count).state.timing == start.state.timing,
        loop_after(start, history, count).state.tracker.me == start.state.tracker.me,
    decreases count,
{
    if count > 0 {
        identity_and_timing_never_change(start, history, (count - 1) as nat);
        let before = loop_after(start, history, (count - 1) as nat);
        let last = history[count - 1];
        lemma_step_keeps_identity_and_timing(before, last.event, last.stakes);
    }
}

/// No panic is on the air, and no step of the panic recovery is pending.
pub open spec fn is_off_the_air(service: LoopModel) -> bool {
    &&& service.state.broadcast is None
    &&& !(service.pending is SendPanic)
    &&& !(service.pending is ReadClock)
    &&& !(service.pending is Restart)
}

/// The occurrence calls for a panic: a service that has been synchronized closes a round without
/// a quorum, or a panic that is heard asks for an action.
pub open spec fn calls_for_panic(service: LoopModel, occurrence: Occurrence) -> bool {
    match (service.pending, occurrence.event) {
        (Command::CloseRound, Event::RoundClosed { outcome, .. }) => outcome
            == RoundOutcome::NoQuorum && service.state.synchronized_once,
        (Command::Listen { .. }, Event::Heard { peer, message, arrival }) => {
            let reaction = service.state.received(peer, message, arrival, occurrence.stakes).1;
            reaction matches Reaction::Act(action) && action != PanicAction::Nothing
        },
        _ => false,
    }
}

/// A service that is off the air leaves it exactly when an occurrence calls for a panic.
pub proof fn only_a_call_puts_a_panic_on_the_air(service: LoopModel, occurrence: Occurrence)
    requires
        is_off_the_air(service),
    ensures
        is_off_the_air(service.stepped(occurrence.event, occurrence.stakes)) <==> !calls_for_panic(
            service,
            occurrence,
        ),
{
}

/// From any service that is off the air, no panic goes on the air before a round is closed
/// without a quorum by a service that has been synchronized, or a panic that is heard asks for an
/// action.
pub proof fn services_stay_off_the_air_until_called(
    start: LoopModel,
    history: Seq<Occurrence>,
    count: nat,
)
    requires
        start.wf(),
        is_off_the_air(start),
        count <= history.len(),
        forall|i: nat|
            i < count ==> !calls_for_panic(
                loop_after(start, history, i),
                #[trigger] history[i as int],
            ),
    ensures
        is_off_the_air(loop_after(start, history, count)),
    decreases count,
{
    if count > 0 {
        let last = (count - 1) as nat;
        services_stay_off_the_air_until_called(start, history, last);
        assert(!calls_for_panic(loop_after(start, history, last), history[last as int]));
        only_a_call_puts_a_panic_on_the_air(
            loop_after(start, history, last),
            history[last as int],
        );
    }
}

/// A service that has never closed a synchronized round, and hears of nobody's panic, puts no
/// panic on the air: it takes a synchronized round or a panic of another to start one.
pub proof fn quiet_services_stay_off_the_air(
    identity: PeerId,
    timing: ServiceTiming,
    history: Seq<Occurrence>,
    count: nat,
)
    requires
        count <= history.len(),
        forall|i: int|
            0 <= i < count ==> {
                let event = (#[trigger] history[i]).event;
                &&& event matches Event::RoundClosed { outcome, .. } ==> outcome
                    == RoundOutcome::NoQuorum
                &&& event matches Event::Heard { message, .. } ==> !(message matches Some(
                    Message::Panic { .. },
                ))
            },
    ensures
        ({
            let service = loop_after(LoopModel::initial(identity, timing), history, count);
            &&& is_off_the_air(service)
            &&& !service.state.synchronized_once
        }),
    decreases count,
{
    if count > 0 {
        quiet_services_stay_off_the_air(identity, timing, history, (count - 1) as nat);
        let _ = history[count - 1];
    }
}

/// A restart is always followed by relaying: once the fine loop is restarted, the panic on the
/// air is relayed under its bucket and nothing is counted.
pub proof fn restarts_turn_into_relays(
    service: LoopModel,
    event: Event,
    stakes: Map<PeerId, u64>,
)
    requires
        service.wf(),
        service.pending is Restart,
        event is Restarted,
    ensures
        ({
            let next = service.stepped(event, stakes);
            &&& next.pending == Command::Schedule
            &&& next.state.broadcast is Some
            &&& next.state.broadcast->0.relay_only
            &&& next.state.broadcast->0.bucket == service.state.broadcast->0.bucket
            &&& next.state.tracker.active == Map::<PeerId, LocalNs>::empty()
            &&& !next.state.pulse_sent
        }),
{
}

/// A recovery that was decided is carried out: reading the clock for it leads to a restart.
pub proof fn decided_recoveries_restart(
    service: LoopModel,
    event: Event,
    stakes: Map<PeerId, u64>,
)
    requires
        service.pending == (Command::ReadClock { action: PanicAction::Recover }),
        event is ClockRead,
    ensures
        service.stepped(event, stakes).pending is Restart,
{
}

/// A new loop starts by scheduling: it has sent and heard nothing.
pub proof fn new_loops_start_by_scheduling(identity: PeerId, timing: ServiceTiming)
    ensures
        LoopModel::initial(identity, timing).pending == Command::Schedule,
        LoopModel::initial(identity, timing).state == ServiceModel::initial(identity, timing),
{
}

/// The loop moves only on what can come of the command that it waits for: a request to exit or a
/// schedule while it schedules, the transmission of what it sends, the time of the pulse it times,
/// the close of the round it closes, a datagram, silence or a disconnection while it listens, an
/// answer to the pulse it delivers, the clock it reads, and the restart it makes.
pub proof fn only_the_awaited_moves_the_loop(
    service: LoopModel,
    event: Event,
    stakes: Map<PeerId, u64>,
)
    ensures
        service.stepped(event, stakes) != service ==> {
            ||| service.pending is Schedule && (event is ExitRequested || event is Scheduled)
            ||| service.pending is SendPanic && event is PanicSent
            ||| service.pending is TimePulse && event is PulseTimed
            ||| service.pending is SendPulse && event is PulseSent
            ||| service.pending is CloseRound && event is RoundClosed
            ||| service.pending is Listen && (event is Heard || event is Quiet
                || event is Disconnected)
            ||| service.pending is DeliverPulse && (event is PulseTaken || event is PulseRefused)
            ||| service.pending is ReadClock && event is ClockRead
            ||| service.pending is Restart && event is Restarted
        },
{
}

/// Exits, silence and disconnections change nothing but the command: the first and the last stop
/// the loop, silence makes it schedule again.
pub proof fn stops_and_silence_keep_the_state(service: LoopModel, stakes: Map<PeerId, u64>)
    ensures
        service.pending is Schedule ==> service.stepped(Event::ExitRequested, stakes)
            == (LoopModel { pending: Command::Stop, ..service }),
        service.pending is Listen ==> service.stepped(Event::Quiet, stakes) == (LoopModel {
            pending: Command::Schedule,
            ..service
        }),
        service.pending is Listen ==> service.stepped(Event::Disconnected, stakes)
            == (LoopModel { pending: Command::Stop, ..service }),
{
}

/// A schedule leads to what is due at that time, and changes nothing else. The panic on the air is
/// sent when its time has come, under its bucket and as of now. Otherwise the round is closed when
/// its pulse is sent and its close has come, and the pulse is timed when it is not sent and its
/// time has come. Otherwise the loop listens: until the first of these times, or a tenth of a
/// second.
pub proof fn schedules_lead_to_what_is_due(
    service: LoopModel,
    now: LocalNs,
    pulse_due_at: LocalNs,
    round_close_at: LocalNs,
    stakes: Map<PeerId, u64>,
)
    requires
        service.pending is Schedule,
    ensures
        ({
            let event = Event::Scheduled { now, pulse_due_at, round_close_at };
            let next = service.stepped(event, stakes);
            let state = service.state;
            let panic_due = state.broadcast matches Some(panic) && panic.next_at@ <= now@;
            let round_at = if state.pulse_sent {
                round_close_at@
            } else {
                pulse_due_at@
            };
            &&& next.state == state
            &&& panic_due ==> next.pending == (Command::SendPanic {
                bucket: state.broadcast->0.bucket,
                sent_at: now,
            })
            &&& next.pending is SendPanic ==> panic_due
            &&& next.pending is CloseRound <==> !panic_due && state.pulse_sent && round_close_at@
                <= now@
            &&& next.pending is TimePulse <==> !panic_due && !state.pulse_sent && pulse_due_at@
                <= now@
            &&& next.pending is Listen <==> !panic_due && now@ < round_at
            &&& next.pending matches Command::Listen { timeout_ns } ==> {
                &&& 0 < timeout_ns <= 100_000_000
                &&& now@ + timeout_ns <= round_at
                &&& state.broadcast matches Some(panic) ==> now@ + timeout_ns <= panic.next_at@
                &&& timeout_ns < 100_000_000 ==> {
                    ||| now@ + timeout_ns == round_at
                    ||| state.broadcast matches Some(panic) && now@ + timeout_ns
                        == panic.next_at@
                }
            }
        }),
{
    steps_follow_the_times(
        service.state,
        now,
        pulse_due_at,
        round_close_at,
        service.state.broadcast->0.bucket,
    );
}

/// A pulse is sent for the round that was read, late by the time past its due time, and that
/// lateness is noted. Nothing else changes.
pub proof fn pulses_are_sent_as_timed(
    service: LoopModel,
    round: u64,
    now: LocalNs,
    pulse_due_at: LocalNs,
    stakes: Map<PeerId, u64>,
)
    requires
        service.pending is TimePulse,
    ensures
        ({
            let next = service.stepped(Event::PulseTimed { round, now, pulse_due_at }, stakes);
            let lateness_ns = next.state.stats.send_lateness_ns;
            &&& next.pending == (Command::SendPulse { round, lateness_ns })
            &&& now@ <= pulse_due_at@ ==> lateness_ns == 0
            &&& pulse_due_at@ <= now@ <= pulse_due_at@ + i64::MAX ==> lateness_ns == now@
                - pulse_due_at@
            &&& now@ > pulse_due_at@ + i64::MAX ==> lateness_ns == i64::MAX
            &&& next.state == ServiceModel {
                stats: RoundStats { send_lateness_ns: lateness_ns, ..service.state.stats },
                ..service.state
            }
        }),
{
}

/// Once the pulse is handed over, the round's pulse is sent, whether or not there was room for it,
/// and the loop schedules. The panics stay as they are, and only the lack of room is counted.
pub proof fn sent_pulses_belong_to_the_round(
    service: LoopModel,
    queued: bool,
    stakes: Map<PeerId, u64>,
)
    requires
        service.pending is SendPulse,
    ensures
        ({
            let next = service.stepped(Event::PulseSent { queued }, stakes);
            let stats = next.state.stats;
            &&& next.pending == Command::Schedule
            &&& next.state == ServiceModel { pulse_sent: true, stats, ..service.state }
            &&& stats == RoundStats { egress_full: stats.egress_full, ..service.state.stats }
            &&& queued ==> stats.egress_full == service.state.stats.egress_full
            &&& !queued ==> one_more(service.state.stats.egress_full, stats.egress_full)
        }),
{
    pulses_leave_the_panics_alone(service.state, 0, queued, Ok(()));
}

/// A pulse that is heard is delivered as it came, and changes nothing before the answer. The
/// answer is counted under its reason, and the loop schedules.
pub proof fn heard_pulses_are_delivered(
    service: LoopModel,
    peer: PeerId,
    round: u64,
    lateness_ns: i64,
    arrival: LocalNs,
    reason: PulseReject,
    stakes: Map<PeerId, u64>,
)
    ensures
        service.pending is Listen ==> service.stepped(
            Event::Heard { peer, message: Some(Message::Pulse { round, lateness_ns }), arrival },
            stakes,
        ) == (LoopModel {
            state: service.state,
            pending: Command::DeliverPulse { round, lateness_ns },
        }),
        service.pending is DeliverPulse ==> service.stepped(Event::PulseTaken, stakes)
            == (LoopModel { state: service.state, pending: Command::Schedule }),
        service.pending is DeliverPulse ==> ({
            let next = service.stepped(Event::PulseRefused { reason }, stakes);
            let before = service.state.stats;
            let stats = next.state.stats;
            &&& next.pending == Command::Schedule
            &&& next.state == ServiceModel { stats, ..service.state }
            &&& stats == RoundStats {
                stale_round: stats.stale_round,
                far_future_round: stats.far_future_round,
                duplicate_peer: stats.duplicate_peer,
                ..before
            }
            &&& if reason == PulseReject::StaleRound {
                one_more(before.stale_round, stats.stale_round)
            } else {
                stats.stale_round == before.stale_round
            }
            &&& if reason == PulseReject::FarFutureRound {
                one_more(before.far_future_round, stats.far_future_round)
            } else {
                stats.far_future_round == before.far_future_round
            }
            &&& if reason == PulseReject::DuplicatePeer {
                one_more(before.duplicate_peer, stats.duplicate_peer)
            } else {
                stats.duplicate_peer == before.duplicate_peer
            }
        }),
{
    refused_pulses_are_counted_by_reason(service.state.stats, Ok(()));
    refused_pulses_are_counted_by_reason(service.state.stats, Err(reason));
}

/// A datagram that cannot be decoded is counted as that; then the loop schedules.
pub proof fn undecodable_datagrams_are_only_counted(
    service: LoopModel,
    peer: PeerId,
    arrival: LocalNs,
    stakes: Map<PeerId, u64>,
)
    requires
        service.pending is Listen,
    ensures
        ({
            let next = service.stepped(Event::Heard { peer, message: None, arrival }, stakes);
            let stats = next.state.stats;
            &&& next.pending == Command::Schedule
            &&& next.state == ServiceModel { stats, ..service.state }
            &&& stats == RoundStats { decode_errors: stats.decode_errors, ..service.state.stats }
            &&& one_more(service.state.stats.decode_errors, stats.decode_errors)
        }),
{
    only_panics_reach_the_tracker(service.state, peer, 0, 0, arrival, stakes);
}

/// A panic that is heard changes the service as the tracker records it, and whatever action the
/// tracker asks for is taken up next: the clock is read for it. Where it asks for none, or rejects
/// the panic, the loop schedules.
pub proof fn heard_panics_lead_to_their_action(
    service: LoopModel,
    peer: PeerId,
    bucket: u64,
    arrival: LocalNs,
    ttl_ns: i64,
    stakes: Map<PeerId, u64>,
)
    requires
        service.pending is Listen,
        ttl_ns == service.state.timing.panic_observation_ttl || ttl_ns == i64::MAX
            < service.state.timing.panic_observation_ttl,
    ensures
        ({
            let message = Some(Message::Panic { bucket });
            let next = service.stepped(Event::Heard { peer, message, arrival }, stakes);
            let (tracker, outcome) = service.state.tracker.recorded(
                peer,
                bucket,
                arrival,
                ttl_ns,
                stakes,
            );
            let asked = if outcome is Ok {
                outcome->Ok_0
            } else {
                PanicAction::Nothing
            };
            &&& next.state == service.state.received(peer, message, arrival, stakes).0
            &&& next.state.tracker == tracker
            &&& next.state.broadcast == service.state.broadcast
            &&& next.state.pulse_sent == service.state.pulse_sent
            &&& next.state.synchronized_once == service.state.synchronized_once
            &&& asked == PanicAction::Nothing ==> next.pending == Command::Schedule
            &&& asked != PanicAction::Nothing ==> next.pending == (Command::ReadClock {
                action: asked,
            })
        }),
{
    heard_panics_are_acted_upon(service.state, peer, bucket, arrival, ttl_ns, stakes);
}

/// A panic of a staked peer, under a new bucket or one that still counts, makes the loop read the clock for a recovery
/// exactly when it brings the active panics above two thirds of the stake and the disturbance has
/// not led to a recovery; for an amplification exactly when it brings them above one third and not
/// above two, and the disturbance was not amplified; and schedule otherwise.
pub proof fn heard_quorums_lead_to_recovery(
    service: LoopModel,
    peer: PeerId,
    bucket: u64,
    arrival: LocalNs,
    stakes: Map<PeerId, u64>,
)
    requires
        service.pending is Listen,
        service.state.tracker.wf(),
        stakes.dom().finite(),
        stakes.contains_key(peer),
        stakes[peer] > 0,
        service.state.tracker.last_bucket.contains_key(peer) ==> {
            ||| bucket > service.state.tracker.last_bucket[peer]
            ||| bucket == service.state.tracker.last_bucket[peer]
                && service.state.tracker.active.contains_key(peer) && arrival@
                - service.state.tracker.active[peer]@ <= service.state.timing.panic_observation_ttl
        },
    ensures
        ({
            let message = Some(Message::Panic { bucket });
            let next = service.stepped(Event::Heard { peer, message, arrival }, stakes);
            let support = stake_sum(stakes, next.state.tracker.active.dom());
            let total = total_stake(stakes);
            let tracker = service.state.tracker;
            let recovers = 3 * support > 2 * total && !tracker.recovery_emitted;
            let amplifies = total < 3 * support && 3 * support <= 2 * total && !tracker.amplified;
            &&& next.state.tracker.active.contains_key(peer)
            &&& next.state.tracker.active[peer] == arrival
            &&& recovers ==> next.pending == (Command::ReadClock { action: PanicAction::Recover })
            &&& amplifies ==> next.pending == (Command::ReadClock { action: PanicAction::Amplify })
            &&& !recovers && !amplifies ==> next.pending == Command::Schedule
        }),
{
    heard_quorums_are_answered(service.state, peer, bucket, arrival, stakes);
}

/// A panic that was sent stays on the air under its bucket, to be sent again a panic interval
/// after the time it counts as sent, and the transmission is counted. If it is our own, it is
/// recorded as of that time, and the action that the tracker asks for is taken up next; otherwise
/// nothing is recorded and the loop schedules.
pub proof fn sent_panics_lead_to_their_action(
    service: LoopModel,
    bucket: u64,
    sent_at: LocalNs,
    queued: bool,
    ttl_ns: i64,
    stakes: Map<PeerId, u64>,
)
    requires
        service.pending == (Command::SendPanic { bucket, sent_at }),
        service.state.broadcast is Some,
        ttl_ns == service.state.timing.panic_observation_ttl || ttl_ns == i64::MAX
            < service.state.timing.panic_observation_ttl,
    ensures
        ({
            let next = service.stepped(Event::PanicSent { queued }, stakes);
            let panic = service.state.broadcast->0;
            let interval = service.state.timing.panic_interval;
            let before = service.state.stats;
            let (tracker, outcome) = service.state.tracker.recorded(
                service.state.tracker.me,
                panic.bucket,
                sent_at,
                ttl_ns,
                stakes,
            );
            let asked = if !panic.relay_only && outcome is Ok {
                outcome->Ok_0
            } else {
                PanicAction::Nothing
            };
            &&& next.state == service.state.retransmitted(sent_at, queued, stakes).0
            &&& next.state.broadcast is Some
            &&& next.state.broadcast->0.bucket == panic.bucket
            &&& next.state.broadcast->0.relay_only == panic.relay_only
            &&& sent_at@ + interval <= i64::MAX && interval <= i64::MAX
                ==> next.state.broadcast->0.next_at@ == sent_at@ + interval
            &&& next.state.tracker == if panic.relay_only {
                service.state.tracker
            } else {
                tracker
            }
            &&& next.state.pulse_sent == service.state.pulse_sent
            &&& one_more(before.panics_sent, next.state.stats.panics_sent)
            &&& asked == PanicAction::Nothing ==> next.pending == Command::Schedule
            &&& asked != PanicAction::Nothing ==> next.pending == (Command::ReadClock {
                action: asked,
            })
        }),
{
    sent_panics_stay_on_the_air(service.state, sent_at, queued, ttl_ns, stakes);
}

/// A synchronized close takes the panic off the air and makes the loop schedule. One without a
/// quorum leaves what is on the air there; it starts a panic exactly when the service has been
/// synchronized and no panic of its own is on the air, and then the action that the tracker asks
/// for is taken up next. The round's pulse is to be sent again either way.
pub proof fn closes_lead_to_their_action(
    service: LoopModel,
    outcome: RoundOutcome,
    now: LocalNs,
    stakes: Map<PeerId, u64>,
)
    requires
        service.pending is CloseRound,
    ensures
        ({
            let next = service.stepped(Event::RoundClosed { outcome, now }, stakes);
            let state = service.state;
            let lost = outcome == RoundOutcome::NoQuorum;
            let silent = state.broadcast is None || state.broadcast->0.relay_only;
            let asked = state.armed(now, stakes).1;
            &&& next.state == state.round_closed(outcome, now, stakes).0
            &&& !next.state.pulse_sent
            &&& next.state.synchronized_once <==> state.synchronized_once || !lost
            &&& !lost ==> next.state.broadcast is None && next.pending == Command::Schedule
            &&& lost && !(state.synchronized_once && silent) ==> next.state.broadcast
                == state.broadcast && next.state.tracker == state.tracker && next.pending
                == Command::Schedule
            &&& lost && state.synchronized_once && silent ==> {
                &&& next.state.broadcast is Some
                &&& next.state.broadcast->0.next_at == now
                &&& !next.state.broadcast->0.relay_only
                &&& asked == PanicAction::Nothing ==> next.pending == Command::Schedule
                &&& asked != PanicAction::Nothing ==> next.pending == (Command::ReadClock {
                    action: asked,
                })
            }
        }),
{
    closes_follow_the_outcome(service.state, outcome, now, stakes);
}

/// A recovery restarts the fine loop with its first pulse exactly one period after the second
/// reading of the clock, where the clock reaches that far, and at the clock's end where it does
/// not. Where a panic is on the air nothing else changes; where none is, one of our own goes on
/// the air as of the first reading.
pub proof fn recoveries_restart_a_period_ahead(
    service: LoopModel,
    armed_at: LocalNs,
    restart_from: LocalNs,
    stakes: Map<PeerId, u64>,
)
    requires
        service.pending == (Command::ReadClock { action: PanicAction::Recover }),
    ensures
        ({
            let next = service.stepped(Event::ClockRead { armed_at, restart_from }, stakes);
            let period = service.state.timing.period;
            &&& next.pending is Restart
            &&& next.pending matches Command::Restart { first_next } ==> {
                &&& period <= i64::MAX && restart_from@ + period <= i64::MAX ==> first_next@
                    == restart_from@ + period
                &&& period <= i64::MAX < restart_from@ + period ==> first_next@ == i64::MAX
                &&& first_next == service.state.restart_at(restart_from)
            }
            &&& service.state.broadcast is Some ==> next.state == service.state
            &&& service.state.broadcast is None ==> {
                &&& next.state == service.state.armed(armed_at, stakes).0
                &&& next.state.broadcast is Some
                &&& next.state.broadcast->0.next_at == armed_at
                &&& !next.state.broadcast->0.relay_only
            }
        }),
{
}

/// An amplification is counted and leaves a panic of our own on the air: the one that is there, or
/// a new one as of the first reading of the clock. If that asks for a recovery, the fine loop is
/// restarted with its first pulse one period after the second reading; otherwise the loop
/// schedules.
pub proof fn amplifications_restart_or_schedule(
    service: LoopModel,
    armed_at: LocalNs,
    restart_from: LocalNs,
    stakes: Map<PeerId, u64>,
)
    requires
        service.pending == (Command::ReadClock { action: PanicAction::Amplify }),
    ensures
        ({
            let next = service.stepped(Event::ClockRead { armed_at, restart_from }, stakes);
            let state = service.state;
            let period = state.timing.period;
            let silent = state.broadcast is None || state.broadcast->0.relay_only;
            let asked = state.armed(armed_at, stakes).1;
            &&& next.state == state.applied(PanicAction::Amplify, armed_at, stakes).0
            &&& next.state.broadcast is Some
            &&& !next.state.broadcast->0.relay_only
            &&& silent ==> next.state.broadcast->0.next_at == armed_at
            &&& !silent ==> next.state.broadcast == state.broadcast && next.state.tracker
                == state.tracker
            &&& one_more(state.stats.panic_amplifications, next.state.stats.panic_amplifications)
            &&& asked != PanicAction::Recover ==> next.pending == Command::Schedule
            &&& asked == PanicAction::Recover ==> next.pending is Restart
            &&& next.pending matches Command::Restart { first_next } ==> {
                &&& period <= i64::MAX && restart_from@ + period <= i64::MAX ==> first_next@
                    == restart_from@ + period
                &&& period <= i64::MAX < restart_from@ + period ==> first_next@ == i64::MAX
                &&& first_next == state.restart_at(restart_from)
            }
        }),
{
    amplifying_is_counted_arming(service.state, armed_at, stakes);
}

/// A restart counts the recovery and makes the loop schedule. The panic on the air is relayed
/// under its bucket a panic interval later; nobody is counted any more.
pub proof fn restarts_are_counted_and_relayed(
    service: LoopModel,
    now: LocalNs,
    stakes: Map<PeerId, u64>,
    peer: PeerId,
)
    requires
        service.pending is Restart,
    ensures
        ({
            let next = service.stepped(Event::Restarted { now }, stakes);
            let interval = service.state.timing.panic_interval;
            &&& next.pending == Command::Schedule
            &&& next.state == service.state.recovered(now)
            &&& one_more(service.state.stats.recoveries, next.state.stats.recoveries)
            &&& !next.state.pulse_sent
            &&& !next.state.tracker.active.contains_key(peer)
            &&& next.state.tracker.last_bucket == service.state.tracker.last_bucket
            &&& service.state.broadcast matches Some(panic) ==> {
                &&& next.state.broadcast is Some
                &&& next.state.broadcast->0.bucket == panic.bucket
                &&& next.state.broadcast->0.relay_only
                &&& now@ + interval <= i64::MAX && interval <= i64::MAX
                    ==> next.state.broadcast->0.next_at@ == now@ + interval
            }
        }),
{
}

/// The event closes the round that the loop closes, with a quorum.
pub open spec fn closes_in_synchrony(service: LoopModel, event: Event) -> bool {
    &&& service.pending is CloseRound
    &&& event matches Event::RoundClosed { outcome, .. } && outcome != RoundOutcome::NoQuorum
}

/// A panic goes off the air only when a round is closed with a quorum, and then it always does.
/// Only what is sent, closed, armed or restarted touches what is on the air: schedules, pulses that
/// are timed, sent or answered, and everything that is heard leave it exactly as it was. And a
/// bucket that is on the air stays, as long as a panic is there, until a panic of our own takes the
/// place of a relayed one.
pub proof fn panics_stay_on_the_air_until_synchrony(
    service: LoopModel,
    event: Event,
    stakes: Map<PeerId, u64>,
)
    ensures
        ({
            let before = service.state.broadcast;
            let after = service.stepped(event, stakes).state.broadcast;
            &&& before is Some ==> (after is None <==> closes_in_synchrony(service, event))
            &&& closes_in_synchrony(service, event) ==> after is None
            &&& event is Scheduled || event is PulseTimed || event is PulseSent || event is Heard
                || event is Quiet || event is PulseTaken || event is PulseRefused
                || event is ExitRequested || event is Disconnected ==> after == before
            &&& before is Some && after is Some ==> {
                ||| after->0.bucket == before->0.bucket
                ||| before->0.relay_only && !after->0.relay_only
            }
        }),
{
}

/// From one close with a quorum to the next, a panic that is on the air stays there.
pub proof fn panics_outlast_every_history_without_synchrony(
    start: LoopModel,
    history: Seq<Occurrence>,
    count: nat,
)
    requires
        start.state.broadcast is Some,
        count <= history.len(),
        forall|i: nat|
            i < count ==> !closes_in_synchrony(
                loop_after(start, history, i),
                (#[trigger] history[i as int]).event,
            ),
    ensures
        loop_after(start, history, count).state.broadcast is Some,
    decreases count,
{
    if count > 0 {
        let last = (count - 1) as nat;
        panics_outlast_every_history_without_synchrony(start, history, last);
        let occurrence = history[last as int];
        assert(!closes_in_synchrony(loop_after(start, history, last), occurrence.event));
        panics_stay_on_the_air_until_synchrony(
            loop_after(start, history, last),
            occurrence.event,
            occurrence.stakes,
        );
    }
}

/// A service that has been synchronized stays so, and it becomes so only by closing a round with
/// a quorum.
pub proof fn synchrony_is_never_forgotten(
    service: LoopModel,
    event: Event,
    stakes: Map<PeerId, u64>,
)
    ensures
        service.stepped(event, stakes).state.synchronized_once <==> service.state.synchronized_once
            || closes_in_synchrony(service, event),
{
}

/// Who is counted, and under which bucket, changes only with a panic that is heard, a panic of our
/// own that goes on the air or is sent again, and a restart.
pub proof fn only_panics_and_restarts_move_the_tracker(
    service: LoopModel,
    event: Event,
    stakes: Map<PeerId, u64>,
)
    ensures
        service.stepped(event, stakes).state.tracker != service.state.tracker ==> {
            ||| event matches Event::Heard { message, .. } && message matches Some(
                Message::Panic { .. },
            )
            ||| event is PanicSent && !service.state.broadcast->0.relay_only
            ||| event matches Event::RoundClosed { outcome, .. } && outcome
                == RoundOutcome::NoQuorum && service.state.synchronized_once
            ||| event is ClockRead
            ||| event is Restarted
        },
{
}

/// The event makes the service handle a panic of `sender` as of `now`: one that it hears, or one
/// of its own that it sends, or that it puts on the air because the quorum is lost or an action
/// asks for it.
pub open spec fn handles_panic_of(
    service: LoopModel,
    event: Event,
    sender: PeerId,
    now: LocalNs,
) -> bool {
    let state = service.state;
    let silent = state.broadcast is None || state.broadcast->0.relay_only;
    match (service.pending, event) {
        (Command::Listen { .. }, Event::Heard { peer, message, arrival }) => sender == peer && now
            == arrival && message is Some && message->0 is Panic,
        (Command::SendPanic { sent_at, .. }, Event::PanicSent { .. }) => sender
            == state.tracker.me && now == sent_at && !silent,
        (Command::CloseRound, Event::RoundClosed { outcome, now: closed_at }) => sender
            == state.tracker.me && now == closed_at && outcome == RoundOutcome::NoQuorum
            && state.synchronized_once && silent,
        (Command::ReadClock { action }, Event::ClockRead { armed_at, .. }) => sender
            == state.tracker.me && now == armed_at && (action == PanicAction::Amplify && silent
            || action == PanicAction::Recover && state.broadcast is None),
        _ => false,
    }
}

/// After a step of the loop that handles a panic of a staked sender, be it one that is heard, one
/// of our own that is sent, or one that a lost quorum or an action puts on the air, no other peer
/// is counted whose panic arrived longer ago than the lifetime of an observation, and none is
/// forgotten whose panic did not. The clock has to be able to hold that lifetime.
pub proof fn steps_let_observations_live_their_time(
    service: LoopModel,
    event: Event,
    stakes: Map<PeerId, u64>,
    sender: PeerId,
    now: LocalNs,
    other: PeerId,
)
    requires
        service.state.timing.panic_observation_ttl < i64::MAX,
        stakes.contains_key(sender),
        stakes[sender] > 0,
        other != sender,
        handles_panic_of(service, event, sender, now),
    ensures
        ({
            let before = service.state.tracker.active;
            let after = service.stepped(event, stakes).state.tracker.active;
            &&& after.contains_key(other) <==> before.contains_key(other) && now@
                - before[other]@ <= service.state.timing.panic_observation_ttl
            &&& after.contains_key(other) ==> after[other] == before[other]
        }),
{
    let state = service.state;
    let bucket = match event {
        Event::Heard { message: Some(Message::Panic { bucket }), .. } => bucket,
        _ => 0,
    };
    let queued = match event {
        Event::PanicSent { queued } => queued,
        _ => true,
    };
    observations_live_as_long_as_the_constant_says(
        state,
        sender,
        bucket,
        now,
        queued,
        stakes,
        other,
    );
    match (service.pending, event) {
        (Command::CloseRound, Event::RoundClosed { outcome, .. }) => {
            closes_follow_the_outcome(state, outcome, now, stakes);
        },
        (Command::ReadClock { .. }, Event::ClockRead { .. }) => {
            amplifying_is_counted_arming(state, now, stakes);
            recovering_arms_only_in_silence(state, now, stakes);
        },
        _ => {},
    }
}

} // verus!
