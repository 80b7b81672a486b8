//! The service loop: which outside work comes next, given what came of the last.
//!
//! A [`ServiceLoop`] names one [`Command`] at a time. The thread that owns it performs the
//! command, hands the resulting [`Event`] back, and so on until the command is to stop.
use crate::clock::LocalNs;
use crate::peer::PeerId;
use crate::recovery::PanicAction;
use crate::round::{Message, PulseReject, RoundOutcome, RoundStats};
use crate::service::{lateness, Reaction, ServiceModel, ServiceState, Step};
use crate::stake::Stakes;
use crate::timing::ServiceTiming;
use vstd::prelude::*;

verus! {

/// Outside work.
#[derive(Debug, Clone, Copy, PartialEq, Eq, Structural)]
pub enum Command {
    /// Look whether to exit; otherwise read the clock and the fine loop's schedule.
    Schedule,
    /// Send the panic, which counts as sent at `sent_at`.
    SendPanic { bucket: u64, sent_at: LocalNs },
    /// Read the clock and the round for the pulse that is due.
    TimePulse,
    /// Send the pulse, and note it in the fine loop.
    SendPulse { round: u64, lateness_ns: i64 },
    /// Close the round in the fine loop, correct the clock by it, report, and read the clock.
    CloseRound,
    /// Wait for a datagram, no longer than this.
    Listen { timeout_ns: u64 },
    /// Hand the pulse that was just heard to the fine loop.
    DeliverPulse { round: u64, lateness_ns: i64 },
    /// Read the clock, for the action to be applied.
    ReadClock { action: PanicAction },
    /// Restart the fine loop with its first pulse at `first_next`, correct the clock by it, count
    /// the recovery, and read the clock.
    Restart { first_next: LocalNs },
    /// End the service.
    Stop,
}

/// What came of a command.
#[derive(Debug, Clone, Copy, PartialEq, Eq)]
pub enum Event {
    /// The service is asked to exit.
    ExitRequested,
    Scheduled { now: LocalNs, pulse_due_at: LocalNs, round_close_at: LocalNs },
    /// The transport took the panic, or had no room for it.
    PanicSent { queued: bool },
    PulseTimed { round: u64, now: LocalNs, pulse_due_at: LocalNs },
    /// The transport took the pulse, or had no room for it.
    PulseSent { queued: bool },
    RoundClosed { outcome: RoundOutcome, now: LocalNs },
    /// A datagram of `peer` arrived; `message` is what it decodes to.
    Heard { peer: PeerId, message: Option<Message>, arrival: LocalNs },
    /// No datagram arrived in time.
    Quiet,
    /// No datagram will arrive any more.
    Disconnected,
    /// The fine loop took the pulse, or refused it.
    PulseTaken,
    PulseRefused { reason: PulseReject },
    /// Two readings of the clock, one after the other.
    ClockRead { armed_at: LocalNs, restart_from: LocalNs },
    Restarted { now: LocalNs },
}

/// The work that an action makes.
pub open spec fn command_for(action: PanicAction) -> Command {
    if action == PanicAction::Nothing {
        Command::Schedule
    } else {
        Command::ReadClock { action }
    }
}

/// What a [`ServiceLoop`] knows.
#[verifier::ext_equal]
pub struct LoopModel {
    pub state: ServiceModel,
    /// The work that the loop waits for.
    pub pending: Command,
}

impl LoopModel {
    /// A loop before its first round.
    pub open spec fn initial(identity: PeerId, timing: ServiceTiming) -> Self {
        LoopModel {
            state: ServiceModel::initial(identity, timing),
            pending: Command::Schedule,
        }
    }

    /// The state is well formed, and the pending command fits the state: the panic to be sent
    /// is the one on the air, and due; a pulse is sent before the round is closed, and not after;
    /// the fine loop is restarted while a panic is on the air.
    pub open spec fn wf(self) -> bool {
        &&& self.state.wf()
        &&& match self.pending {
            Command::SendPanic { bucket, sent_at } => self.state.panic_is_due(sent_at)
                && self.state.broadcast->0.bucket == bucket,
            Command::TimePulse => !self.state.pulse_sent,
            Command::SendPulse { .. } => !self.state.pulse_sent,
            Command::CloseRound => self.state.pulse_sent,
            Command::ReadClock { action } => action != PanicAction::Nothing,
            Command::Restart { .. } => self.state.broadcast is Some,
            _ => true,
        }
    }

    /// The event is one that the pending command can have.
    pub open spec fn expects(self, event: Event) -> bool {
        match self.pending {
            Command::Schedule => event is ExitRequested || event is Scheduled,
            Command::SendPanic { .. } => event is PanicSent,
            Command::TimePulse => event is PulseTimed,
            Command::SendPulse { .. } => event is PulseSent,
            Command::CloseRound => event is RoundClosed,
            Command::Listen { .. } => event is Heard || event is Quiet || event is Disconnected,
            Command::DeliverPulse { .. } => event is PulseTaken || event is PulseRefused,
            Command::ReadClock { .. } => event is ClockRead,
            Command::Restart { .. } => event is Restarted,
            Command::Stop => false,
        }
    }

    /// What follows an event. One that the pending command cannot have changes nothing.
    pub open spec fn stepped(self, event: Event, stakes: Map<PeerId, u64>) -> Self {
        let state = self.state;
        match (self.pending, event) {
            (Command::Schedule, Event::ExitRequested) => LoopModel {
                pending: Command::Stop,
                ..self
            },
            (Command::Schedule, Event::Scheduled { now, pulse_due_at, round_close_at }) =>
                LoopModel {
                    pending: match state.next_step(now, pulse_due_at, round_close_at) {
                        Step::RetransmitPanic { bucket } => Command::SendPanic {
                            bucket,
                            sent_at: now,
                        },
                        Step::CloseRound => Command::CloseRound,
                        Step::SendPulse => Command::TimePulse,
                        Step::Wait { timeout_ns } => Command::Listen { timeout_ns },
                    },
                    ..self
                },
            (Command::SendPanic { sent_at, .. }, Event::PanicSent { queued }) => {
                let (next, action) = state.retransmitted(sent_at, queued, stakes);
                LoopModel { state: next, pending: command_for(action) }
            },
            (Command::TimePulse, Event::PulseTimed { round, now, pulse_due_at }) => {
                let lateness_ns = lateness(now, pulse_due_at);
                LoopModel {
                    state: state.pulse_timed(lateness_ns),
                    pending: Command::SendPulse { round, lateness_ns },
                }
            },
            (Command::SendPulse { .. }, Event::PulseSent { queued }) => LoopModel {
                state: state.pulse_handed_over(queued),
                pending: Command::Schedule,
            },
            (Command::CloseRound, Event::RoundClosed { outcome, now }) => {
                let (next, action) = state.round_closed(outcome, now, stakes);
                LoopModel { state: next, pending: command_for(action) }
            },
            (Command::Listen { .. }, Event::Heard { peer, message, arrival }) => {
                let (next, reaction) = state.received(peer, message, arrival, stakes);
                LoopModel {
                    state: next,
                    pending: match reaction {
                        Reaction::DeliverPulse { round, lateness_ns } => Command::DeliverPulse {
                            round,
                            lateness_ns,
                        },
                        Reaction::Act(action) => command_for(action),
                    },
                }
            },
            (Command::Listen { .. }, Event::Quiet) => LoopModel {
                pending: Command::Schedule,
                ..self
            },
            (Command::Listen { .. }, Event::Disconnected) => LoopModel {
                pending: Command::Stop,
                ..self
            },
            (Command::DeliverPulse { .. }, Event::PulseTaken) => LoopModel {
                state: state.pulse_answered(Ok(())),
                pending: Command::Schedule,
            },
            (Command::DeliverPulse { .. }, Event::PulseRefused { reason }) => LoopModel {
                state: state.pulse_answered(Err(reason)),
                pending: Command::Schedule,
            },
            (Command::ReadClock { action }, Event::ClockRead { armed_at, restart_from }) => {
                let (next, restarts) = state.applied(action, armed_at, stakes);
                LoopModel {
                    state: next,
                    pending: if restarts {
                        Command::Restart { first_next: state.restart_at(restart_from) }
                    } else {
                        Command::Schedule
                    },
                }
            },
            (Command::Restart { .. }, Event::Restarted { now }) => LoopModel {
                state: state.recovered(now),
                pending: Command::Schedule,
            },
            _ => self,
        }
    }
}

/// The service between two pieces of outside work.
pub struct ServiceLoop {
    state: ServiceState,
    pending: Command,
}

impl View for ServiceLoop {
    type V = LoopModel;

    closed spec fn view(&self) -> LoopModel {
        LoopModel { state: self.state@, pending: self.pending }
    }
}

impl ServiceLoop {
    /// The loop of the validator `identity`, before its first round.
    pub fn new(identity: PeerId, timing: ServiceTiming) -> (service: Self)
        requires
            timing.has_valid_panic_timing(),
        ensures
            service@ == LoopModel::initial(identity, timing),
            service@.wf(),
    {
        ServiceLoop { state: ServiceState::new(identity, timing), pending: Command::Schedule }
    }

    /// The work to be done now.
    pub fn command(&self) -> (command: Command)
        ensures
            command == self@.pending,
    {
        self.pending
    }

    /// The counters of the running round.
    pub fn stats(&self) -> (stats: RoundStats)
        ensures
            stats == self@.state.stats,
    {
        self.state.stats
    }

    /// Replaces the counters, as when a report starts them anew.
    pub fn set_stats(&mut self, stats: RoundStats)
        ensures
            final(self)@ == (LoopModel {
                state: ServiceModel { stats, ..old(self)@.state },
                ..old(self)@
            }),
            old(self)@.wf() ==> final(self)@.wf(),
    {
        self.state.stats = stats;
    }

    /// Takes in what came of the pending command.
    pub fn step(&mut self, event: Event, stakes: &Stakes)
        requires
            old(self)@.wf(),
        ensures
            final(self)@ == old(self)@.stepped(event, stakes@),
            final(self)@.wf(),
    {
        match (self.pending, event) {
            (Command::Schedule, Event::ExitRequested) => {
                self.pending = Command::Stop;
            },
            (Command::Schedule, Event::Scheduled { now, pulse_due_at, round_close_at }) => {
                self.pending = match self.state.next_step(now, pulse_due_at, round_close_at) {
                    Step::RetransmitPanic { bucket } => Command::SendPanic { bucket, sent_at: now },
                    Step::CloseRound => Command::CloseRound,
                    Step::SendPulse => Command::TimePulse,
                    Step::Wait { timeout_ns } => Command::Listen { timeout_ns },
                };
            },
            (Command::SendPanic { bucket: _, sent_at }, Event::PanicSent { queued }) => {
                let action = self.state.panic_handed_over(sent_at, queued, stakes);
                self.act(action);
            },
            (Command::TimePulse, Event::PulseTimed { round, now, pulse_due_at }) => {
                let lateness_ns: i64 = self.state.time_pulse(now, pulse_due_at);
                self.pending = Command::SendPulse { round, lateness_ns };
            },
            (Command::SendPulse { .. }, Event::PulseSent { queued }) => {
                self.state.pulse_handed_over(queued);
                self.pending = Command::Schedule;
            },
            (Command::CloseRound, Event::RoundClosed { outcome, now }) => {
                let action = self.state.round_closed(outcome, now, stakes);
                self.act(action);
            },
            (Command::Listen { .. }, Event::Heard { peer, message, arrival }) => {
                match self.state.handle_datagram(peer, message, arrival, stakes) {
                    Reaction::DeliverPulse { round, lateness_ns } => {
                        self.pending = Command::DeliverPulse { round, lateness_ns };
                    },
                    Reaction::Act(action) => self.act(action),
                }
            },
            (Command::Listen { .. }, Event::Quiet) => {
                self.pending = Command::Schedule;
            },
            (Command::Listen { .. }, Event::Disconnected) => {
                self.pending = Command::Stop;
            },
            (Command::DeliverPulse { .. }, Event::PulseTaken) => {
                self.pending = Command::Schedule;
            },
            (Command::DeliverPulse { .. }, Event::PulseRefused { reason }) => {
                self.state.pulse_delivered(Err(reason));
                self.pending = Command::Schedule;
            },
            (Command::ReadClock { action }, Event::ClockRead { armed_at, restart_from }) => {
                self.pending = match self.state.apply_panic_action(
                    action,
                    armed_at,
                    restart_from,
                    stakes,
                ) {
                    Some(first_next) => Command::Restart { first_next },
                    None => Command::Schedule,
                };
            },
            (Command::Restart { .. }, Event::Restarted { now }) => {
                self.state.complete_recovery(now);
                self.pending = Command::Schedule;
            },
            _ => {},
        }
    }

    fn act(&mut self, action: PanicAction)
        ensures
            final(self)@ == (LoopModel { pending: command_for(action), ..old(self)@ }),
    {
        self.pending = if action == PanicAction::Nothing {
            Command::Schedule
        } else {
            Command::ReadClock { action }
        };
    }
}

} // verus!
