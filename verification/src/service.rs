//! The decisions of the clock-sync service.
//!
//! Per round: broadcast our pulse when it is due, take in the pulses of the others, close the
//! round and follow the fine loop's verdict. When a round cannot find a synchronized quorum once
//! the service has been synchronized, it drives the panic recovery loop. [`ServiceState`] holds
//! each of these decisions; the loop that strings them together is
//! [`crate::driver::ServiceLoop`].
use crate::clock::{clamp_i64, LocalNs};
use crate::peer::PeerId;
use crate::recovery::{PanicAction, PanicReject, PanicTracker, TrackerState};
use crate::round::{counted, Message, PulseReject, RoundOutcome, RoundStats};
use crate::stake::Stakes;
use crate::timing::{span, ServiceTiming};
use vstd::prelude::*;

verus! {

/// Upper bound on a single ingress wait so the exit flag is honored promptly.
pub const MAX_WAIT_NS: u64 = 100_000_000;

/// A panic that is being retransmitted.
#[derive(Debug, Clone, Copy, PartialEq, Eq, Structural)]
pub struct PanicBroadcast {
    /// The bucket it carries.
    pub bucket: u64,
    /// When it is sent next.
    pub next_at: LocalNs,
    /// This validator has recovered: it passes the signal on and no longer counts itself.
    pub relay_only: bool,
}

/// What is to be done next.
#[derive(Debug, Clone, Copy, PartialEq, Eq, Structural)]
pub enum Step {
    /// Send the panic again.
    RetransmitPanic { bucket: u64 },
    /// Close the round.
    CloseRound,
    /// Send the pulse of the round.
    SendPulse,
    /// Wait for a datagram, no longer than this.
    Wait { timeout_ns: u64 },
}

/// What a datagram calls for.
#[derive(Debug, Clone, Copy, PartialEq, Eq, Structural)]
pub enum Reaction {
    /// Hand the pulse to the fine loop.
    DeliverPulse { round: u64, lateness_ns: i64 },
    /// Apply the action.
    Act(PanicAction),
}

/// What a [`ServiceState`] knows.
#[verifier::ext_equal]
pub struct ServiceModel {
    pub timing: ServiceTiming,
    pub tracker: TrackerState,
    pub broadcast: Option<PanicBroadcast>,
    pub pulse_sent: bool,
    pub synchronized_once: bool,
    pub stats: RoundStats,
}

/// How late a pulse is sent; a pulse ahead of its time is not late.
pub open spec fn lateness(now: LocalNs, due_at: LocalNs) -> i64 {
    let elapsed = clamp_i64(now@ - due_at@);
    if elapsed > 0 {
        elapsed
    } else {
        0
    }
}

impl ServiceModel {
    /// A service that has just started.
    pub open spec fn initial(identity: PeerId, timing: ServiceTiming) -> Self {
        ServiceModel {
            timing,
            tracker: TrackerState::initial(identity),
            broadcast: None,
            pulse_sent: false,
            synchronized_once: false,
            stats: RoundStats::zero(),
        }
    }

    /// The panic timing is valid and the tracker well formed.
    pub open spec fn wf(self) -> bool {
        &&& self.timing.has_valid_panic_timing()
        &&& self.tracker.wf()
    }

    /// How long a panic observation counts, on the clock's scale.
    pub open spec fn ttl_ns(self) -> i64 {
        span(self.timing.panic_observation_ttl)
    }

    /// A panic of our own is being broadcast.
    pub open spec fn is_panicking(self) -> bool {
        self.broadcast is Some && !self.broadcast->0.relay_only
    }

    /// When the round asks for the next step: the close once the pulse is sent, the pulse before.
    pub open spec fn round_due(self, pulse_due_at: LocalNs, round_close_at: LocalNs) -> LocalNs {
        if self.pulse_sent {
            round_close_at
        } else {
            pulse_due_at
        }
    }

    /// A panic is due for retransmission.
    pub open spec fn panic_is_due(self, now: LocalNs) -> bool {
        self.broadcast is Some && self.broadcast->0.next_at@ <= now@
    }

    /// When something is due next.
    pub open spec fn next_due(self, pulse_due_at: LocalNs, round_close_at: LocalNs) -> LocalNs {
        let round_due = self.round_due(pulse_due_at, round_close_at);
        if self.broadcast is Some && self.broadcast->0.next_at@ < round_due@ {
            self.broadcast->0.next_at
        } else {
            round_due
        }
    }

    /// The next step: a due panic comes first, then the round; otherwise wait for whatever is
    /// due next.
    pub open spec fn next_step(
        self,
        now: LocalNs,
        pulse_due_at: LocalNs,
        round_close_at: LocalNs,
    ) -> Step {
        let until_due = clamp_i64(self.next_due(pulse_due_at, round_close_at)@ - now@);
        if self.panic_is_due(now) {
            Step::RetransmitPanic { bucket: self.broadcast->0.bucket }
        } else if self.round_due(pulse_due_at, round_close_at)@ <= now@ {
            if self.pulse_sent {
                Step::CloseRound
            } else {
                Step::SendPulse
            }
        } else if until_due > MAX_WAIT_NS {
            Step::Wait { timeout_ns: MAX_WAIT_NS }
        } else {
            Step::Wait { timeout_ns: until_due as u64 }
        }
    }

    /// A pulse is about to be sent, late by so much.
    pub open spec fn pulse_timed(self, lateness_ns: i64) -> Self {
        ServiceModel {
            stats: RoundStats { send_lateness_ns: lateness_ns, ..self.stats },
            ..self
        }
    }

    /// The pulse of the round was handed to the transport, which may have had no room for it.
    pub open spec fn pulse_handed_over(self, queued: bool) -> Self {
        ServiceModel { pulse_sent: true, stats: self.stats.with_egress(queued), ..self }
    }

    /// The fine loop answered a pulse.
    pub open spec fn pulse_answered(self, answer: Result<(), PulseReject>) -> Self {
        ServiceModel { stats: self.stats.with_pulse(answer), ..self }
    }

    /// Starts to broadcast a panic of our own at `now`, unless one is on the air already.
    pub open spec fn armed(self, now: LocalNs, stakes: Map<PeerId, u64>) -> (Self, PanicAction) {
        if self.is_panicking() {
            (self, PanicAction::Nothing)
        } else {
            let bucket = self.tracker.local_bucket(self.timing.bucket(now));
            let (tracker, action) = self.tracker.recorded_locally(
                bucket,
                now,
                self.ttl_ns(),
                stakes,
            );
            (
                ServiceModel {
                    tracker,
                    broadcast: Some(PanicBroadcast { bucket, next_at: now, relay_only: false }),
                    ..self
                },
                action,
            )
        }
    }

    /// Follows `action` up to the restart of the fine loop, and says whether there is one. An
    /// amplification may complete the quorum for a recovery; a recovery puts a panic on the air
    /// if none is.
    pub open spec fn applied(
        self,
        action: PanicAction,
        armed_at: LocalNs,
        stakes: Map<PeerId, u64>,
    ) -> (Self, bool) {
        let (state, outcome) = if action == PanicAction::Amplify {
            ServiceModel {
                stats: RoundStats {
                    panic_amplifications: counted(self.stats.panic_amplifications),
                    ..self.stats
                },
                ..self
            }.armed(armed_at, stakes)
        } else {
            (self, action)
        };
        if outcome != PanicAction::Recover {
            (state, false)
        } else if state.broadcast is None {
            (state.armed(armed_at, stakes).0, true)
        } else {
            (state, true)
        }
    }

    /// When a fine loop that is restarted at `now` pulses first: a period later.
    pub open spec fn restart_at(self, now: LocalNs) -> LocalNs {
        LocalNs { nanos: clamp_i64(now@ + span(self.timing.period)) }
    }

    /// When a panic sent at `now` is sent again: a panic interval later.
    pub open spec fn retransmit_at(self, now: LocalNs) -> LocalNs {
        LocalNs { nanos: clamp_i64(now@ + span(self.timing.panic_interval)) }
    }

    /// The fine loop was restarted: forget the panics and keep relaying the signal.
    pub open spec fn recovered(self, now: LocalNs) -> Self {
        ServiceModel {
            tracker: self.tracker.recovered(),
            broadcast: match self.broadcast {
                Some(panic) => Some(
                    PanicBroadcast {
                        relay_only: true,
                        next_at: self.retransmit_at(now),
                        ..panic
                    },
                ),
                None => None,
            },
            pulse_sent: false,
            stats: RoundStats { recoveries: counted(self.stats.recoveries), ..self.stats },
            ..self
        }
    }

    /// The panic was sent at `now`, and again counts as our own unless it is only relayed.
    pub open spec fn retransmitted(
        self,
        now: LocalNs,
        queued: bool,
        stakes: Map<PeerId, u64>,
    ) -> (Self, PanicAction) {
        let panic = self.broadcast->0;
        let (tracker, action) = if panic.relay_only {
            (self.tracker, PanicAction::Nothing)
        } else {
            self.tracker.recorded_locally(panic.bucket, now, self.ttl_ns(), stakes)
        };
        (
            ServiceModel {
                tracker,
                broadcast: Some(PanicBroadcast { next_at: self.retransmit_at(now), ..panic }),
                stats: RoundStats {
                    panics_sent: counted(self.stats.panics_sent),
                    ..self.stats.with_egress(queued)
                },
                ..self
            },
            action,
        )
    }

    /// The round was closed. A synchronized round ends the panic; one without a quorum starts a
    /// panic, once the service has been synchronized.
    pub open spec fn round_closed(
        self,
        outcome: RoundOutcome,
        armed_at: LocalNs,
        stakes: Map<PeerId, u64>,
    ) -> (Self, PanicAction) {
        let closed = ServiceModel { pulse_sent: false, ..self };
        if outcome != RoundOutcome::NoQuorum {
            (
                ServiceModel { synchronized_once: true, broadcast: None, ..closed },
                PanicAction::Nothing,
            )
        } else if self.synchronized_once {
            closed.armed(armed_at, stakes)
        } else {
            (closed, PanicAction::Nothing)
        }
    }

    /// A datagram of `peer` arrived.
    pub open spec fn received(
        self,
        peer: PeerId,
        message: Option<Message>,
        arrival: LocalNs,
        stakes: Map<PeerId, u64>,
    ) -> (Self, Reaction) {
        match message {
            None => (
                ServiceModel {
                    stats: RoundStats {
                        decode_errors: counted(self.stats.decode_errors),
                        ..self.stats
                    },
                    ..self
                },
                Reaction::Act(PanicAction::Nothing),
            ),
            Some(Message::Pulse { round, lateness_ns }) => (
                self,
                Reaction::DeliverPulse { round, lateness_ns },
            ),
            Some(Message::Panic { bucket }) => {
                let (tracker, outcome) = self.tracker.recorded(
                    peer,
                    bucket,
                    arrival,
                    self.ttl_ns(),
                    stakes,
                );
                let stats = RoundStats {
                    panics_received: counted(self.stats.panics_received),
                    ..self.stats
                };
                match outcome {
                    Ok(action) => (ServiceModel { tracker, stats, ..self }, Reaction::Act(action)),
                    Err(PanicReject::UnstakedPeer) => (
                        ServiceModel {
                            tracker,
                            stats: RoundStats {
                                unstaked_panics: counted(stats.unstaked_panics),
                                ..stats
                            },
                            ..self
                        },
                        Reaction::Act(PanicAction::Nothing),
                    ),
                    Err(PanicReject::StaleBucket) => (
                        ServiceModel {
                            tracker,
                            stats: RoundStats {
                                stale_panics: counted(stats.stale_panics),
                                ..stats
                            },
                            ..self
                        },
                        Reaction::Act(PanicAction::Nothing),
                    ),
                }
            },
        }
    }
}

/// The state of the service between two steps.
pub struct ServiceState {
    pub timing: ServiceTiming,
    pub tracker: PanicTracker,
    /// The panic that is on the air.
    pub broadcast: Option<PanicBroadcast>,
    /// The pulse of the round is sent.
    pub pulse_sent: bool,
    /// A round was synchronized since the start.
    pub synchronized_once: bool,
    pub stats: RoundStats,
}

impl View for ServiceState {
    type V = ServiceModel;

    open spec fn view(&self) -> ServiceModel {
        ServiceModel {
            timing: self.timing,
            tracker: self.tracker@,
            broadcast: self.broadcast,
            pulse_sent: self.pulse_sent,
            synchronized_once: self.synchronized_once,
            stats: self.stats,
        }
    }
}

impl ServiceState {
    /// The service of the validator `identity`, before its first round.
    pub fn new(identity: PeerId, timing: ServiceTiming) -> (state: Self)
        requires
            timing.has_valid_panic_timing(),
        ensures
            state@ == ServiceModel::initial(identity, timing),
            state@.wf(),
    {
        ServiceState {
            timing,
            tracker: PanicTracker::new(identity),
            broadcast: None,
            pulse_sent: false,
            synchronized_once: false,
            stats: RoundStats::default(),
        }
    }

    /// What to do at `now`, given when the fine loop wants the pulse of the round sent and the
    /// round closed.
    pub fn next_step(
        &self,
        now: LocalNs,
        pulse_due_at: LocalNs,
        round_close_at: LocalNs,
    ) -> (step: Step)
        ensures
            step == self@.next_step(now, pulse_due_at, round_close_at),
    {
        let round_due: LocalNs = if self.pulse_sent {
            round_close_at
        } else {
            pulse_due_at
        };
        let mut due: LocalNs = round_due;
        if let Some(panic) = self.broadcast {
            if now.ns() >= panic.next_at.ns() {
                return Step::RetransmitPanic { bucket: panic.bucket };
            }
            if panic.next_at.ns() < due.ns() {
                due = panic.next_at;
            }
        }
        if now.ns() >= round_due.ns() {
            if self.pulse_sent {
                return Step::CloseRound;
            }
            return Step::SendPulse;
        }
        let until_due: u64 = due.saturating_sub(now) as u64;
        Step::Wait {
            timeout_ns: if until_due > MAX_WAIT_NS {
                MAX_WAIT_NS
            } else {
                until_due
            },
        }
    }

    /// A pulse that is due is about to be sent at `now`: says how late it is.
    pub fn time_pulse(&mut self, now: LocalNs, pulse_due_at: LocalNs) -> (lateness_ns: i64)
        ensures
            lateness_ns == lateness(now, pulse_due_at),
            final(self)@ == old(self)@.pulse_timed(lateness_ns),
    {
        let elapsed: i64 = now.saturating_sub(pulse_due_at);
        let lateness_ns: i64 = if elapsed > 0 {
            elapsed
        } else {
            0
        };
        self.stats.send_lateness_ns = lateness_ns;
        lateness_ns
    }

    /// The pulse was handed to the transport, which took it or had no room for it.
    pub fn pulse_handed_over(&mut self, queued: bool)
        ensures
            final(self)@ == old(self)@.pulse_handed_over(queued),
    {
        self.count_egress(queued);
        self.pulse_sent = true;
    }

    fn count_egress(&mut self, queued: bool)
        ensures
            final(self)@ == (ServiceModel {
                stats: old(self)@.stats.with_egress(queued),
                ..old(self)@
            }),
    {
        if !queued {
            self.stats.egress_full = self.stats.egress_full.saturating_add(1);
        }
    }

    /// The panic on the air was handed to the transport at `now`, which took it or had no room
    /// for it.
    pub fn panic_handed_over(&mut self, now: LocalNs, queued: bool, stakes: &Stakes) -> (action:
        PanicAction)
        requires
            old(self).broadcast is Some,
        ensures
            (final(self)@, action) == old(self)@.retransmitted(now, queued, stakes@),
            old(self)@.wf() ==> final(self)@.wf(),
    {
        self.count_egress(queued);
        self.stats.panics_sent = self.stats.panics_sent.saturating_add(1);
        let mut action = PanicAction::Nothing;
        if let Some(panic) = self.broadcast {
            if !panic.relay_only {
                let ttl_ns: i64 = self.timing.panic_observation_ttl_ns();
                action = self.tracker.record_local(panic.bucket, now, ttl_ns, stakes);
            }
            let next_at = now.saturating_add(self.timing.panic_interval_ns());
            self.broadcast = Some(PanicBroadcast { next_at, ..panic });
        }
        action
    }

    /// The fine loop closed the round. `armed_at` is the time from which a panic that this
    /// starts is broadcast.
    pub fn round_closed(&mut self, outcome: RoundOutcome, armed_at: LocalNs, stakes: &Stakes) -> (
    action: PanicAction)
        requires
            old(self)@.timing.panic_interval != 0,
        ensures
            (final(self)@, action) == old(self)@.round_closed(outcome, armed_at, stakes@),
            old(self)@.wf() ==> final(self)@.wf(),
    {
        self.pulse_sent = false;
        match outcome {
            RoundOutcome::NoQuorum => {
                if self.synchronized_once {
                    self.arm_panic(armed_at, stakes)
                } else {
                    PanicAction::Nothing
                }
            },
            RoundOutcome::Midpoint | RoundOutcome::Absorption => {
                self.synchronized_once = true;
                self.broadcast = None;
                PanicAction::Nothing
            },
        }
    }

    /// A datagram of `peer` arrived; `message` is what it decodes to.
    pub fn handle_datagram(
        &mut self,
        peer: PeerId,
        message: Option<Message>,
        arrival: LocalNs,
        stakes: &Stakes,
    ) -> (reaction: Reaction)
        ensures
            (final(self)@, reaction) == old(self)@.received(peer, message, arrival, stakes@),
            old(self)@.wf() ==> final(self)@.wf(),
    {
        match message {
            None => {
                self.stats.decode_errors = self.stats.decode_errors.saturating_add(1);
                Reaction::Act(PanicAction::Nothing)
            },
            Some(Message::Pulse { round, lateness_ns }) => Reaction::DeliverPulse {
                round,
                lateness_ns,
            },
            Some(Message::Panic { bucket }) => {
                self.stats.panics_received = self.stats.panics_received.saturating_add(1);
                let ttl_ns: i64 = self.timing.panic_observation_ttl_ns();
                match self.tracker.on_panic(peer, bucket, arrival, ttl_ns, stakes) {
                    Ok(action) => Reaction::Act(action),
                    Err(PanicReject::UnstakedPeer) => {
                        self.stats.unstaked_panics = self.stats.unstaked_panics.saturating_add(1);
                        Reaction::Act(PanicAction::Nothing)
                    },
                    Err(PanicReject::StaleBucket) => {
                        self.stats.stale_panics = self.stats.stale_panics.saturating_add(1);
                        Reaction::Act(PanicAction::Nothing)
                    },
                }
            },
        }
    }

    /// The fine loop answered the pulse that it was handed.
    pub fn pulse_delivered(&mut self, answer: Result<(), PulseReject>)
        ensures
            final(self)@ == old(self)@.pulse_answered(answer),
    {
        match answer {
            Ok(_) => {},
            Err(PulseReject::StaleRound) => {
                self.stats.stale_round = self.stats.stale_round.saturating_add(1);
            },
            Err(PulseReject::FarFutureRound) => {
                self.stats.far_future_round = self.stats.far_future_round.saturating_add(1);
            },
            Err(PulseReject::DuplicatePeer) => {
                self.stats.duplicate_peer = self.stats.duplicate_peer.saturating_add(1);
            },
        }
    }

    /// Starts to broadcast a panic of our own at `now`, unless one is on the air already.
    pub fn arm_panic(&mut self, now: LocalNs, stakes: &Stakes) -> (action: PanicAction)
        requires
            old(self)@.timing.panic_interval != 0,
        ensures
            (final(self)@, action) == old(self)@.armed(now, stakes@),
            old(self)@.wf() ==> final(self)@.wf(),
    {
        if let Some(panic) = self.broadcast {
            if !panic.relay_only {
                return PanicAction::Nothing;
            }
        }
        let wall_clock_bucket: u64 = self.timing.bucket_at(now);
        let bucket: u64 = self.tracker.next_local_bucket(wall_clock_bucket);
        self.broadcast = Some(PanicBroadcast { bucket, next_at: now, relay_only: false });
        let ttl_ns: i64 = self.timing.panic_observation_ttl_ns();
        self.tracker.record_local(bucket, now, ttl_ns, stakes)
    }

    /// Follows a panic action. `armed_at` is the time from which a panic that this starts is
    /// broadcast, `restart_from` the time of a restart. Where the fine loop is to be restarted,
    /// the result is when its first pulse is due, and [`Self::complete_recovery`] comes next.
    pub fn apply_panic_action(
        &mut self,
        action: PanicAction,
        armed_at: LocalNs,
        restart_from: LocalNs,
        stakes: &Stakes,
    ) -> (first_next: Option<LocalNs>)
        requires
            old(self)@.timing.panic_interval != 0,
        ensures
            final(self)@ == old(self)@.applied(action, armed_at, stakes@).0,
            first_next == if old(self)@.applied(action, armed_at, stakes@).1 {
                Some(old(self)@.restart_at(restart_from))
            } else {
                None
            },
            old(self)@.wf() ==> final(self)@.wf(),
    {
        let mut outcome = action;
        if action == PanicAction::Amplify {
            self.stats.panic_amplifications = self.stats.panic_amplifications.saturating_add(1);
            outcome = self.arm_panic(armed_at, stakes);
        }
        if outcome != PanicAction::Recover {
            return None;
        }
        if self.broadcast.is_none() {
            let _ = self.arm_panic(armed_at, stakes);
        }
        Some(restart_from.saturating_add(self.timing.period_ns()))
    }

    /// The fine loop was restarted and it is `now`: relay the signal, and wait for the pulse of
    /// the first round.
    pub fn complete_recovery(&mut self, now: LocalNs)
        ensures
            final(self)@ == old(self)@.recovered(now),
            old(self)@.wf() ==> final(self)@.wf(),
    {
        self.tracker.complete_recovery();
        if let Some(panic) = self.broadcast {
            let next_at = now.saturating_add(self.timing.panic_interval_ns());
            self.broadcast = Some(PanicBroadcast { next_at, relay_only: true, ..panic });
        }
        self.pulse_sent = false;
        self.stats.recoveries = self.stats.recoveries.saturating_add(1);
    }
}

} // verus!
