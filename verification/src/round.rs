//! What the service exchanges with the fine loop, the wire and its log.
use vstd::prelude::*;

verus! {

/// A datagram of the clock-sync protocol.
#[derive(Debug, Clone, Copy, PartialEq, Eq, Structural)]
pub enum Message {
    /// The sender's clock reached the start of `round`, `lateness_ns` ago.
    Pulse { round: u64, lateness_ns: i64 },
    /// The sender has lost synchrony.
    Panic { bucket: u64 },
}

/// Timing of the fine loop, in nanoseconds.
#[derive(Debug, Clone, Copy, PartialEq, Eq, Structural)]
pub struct Config {
    pub period_ns: i64,
    pub window_ns: i64,
    pub absorption_half_width_ns: i64,
}

/// How the fine loop closed a round.
#[derive(Debug, Clone, Copy, PartialEq, Eq, Structural)]
pub enum RoundOutcome {
    /// The clock was corrected to the midpoint of a quorum of pulses.
    Midpoint,
    /// The clock was absorbed into a cluster of pulses.
    Absorption,
    /// No synchronized quorum was found.
    NoQuorum,
}

/// Why the fine loop refused a pulse.
#[derive(Debug, Clone, Copy, PartialEq, Eq, Structural)]
pub enum PulseReject {
    StaleRound,
    FarFutureRound,
    DuplicatePeer,
}

/// Counters of the running round; each stops at `u64::MAX`.
#[derive(Debug, Clone, Copy, PartialEq, Eq, Structural)]
pub struct RoundStats {
    pub decode_errors: u64,
    pub stale_round: u64,
    pub far_future_round: u64,
    pub duplicate_peer: u64,
    pub panics_sent: u64,
    pub panics_received: u64,
    pub unstaked_panics: u64,
    pub stale_panics: u64,
    pub panic_amplifications: u64,
    pub recoveries: u64,
    pub egress_full: u64,
    /// How late the last pulse was sent.
    pub send_lateness_ns: i64,
}

/// The `u64` closest to `count`: `u64::MAX` stands for everything above.
pub open spec fn saturated(count: nat) -> u64 {
    if count > u64::MAX {
        u64::MAX
    } else {
        count as u64
    }
}

/// A counter after one more event.
pub open spec fn counted(count: u64) -> u64 {
    saturated(count as nat + 1)
}

impl RoundStats {
    /// Counters that have counted nothing.
    pub open spec fn zero() -> Self {
        RoundStats {
            decode_errors: 0,
            stale_round: 0,
            far_future_round: 0,
            duplicate_peer: 0,
            panics_sent: 0,
            panics_received: 0,
            unstaked_panics: 0,
            stale_panics: 0,
            panic_amplifications: 0,
            recoveries: 0,
            egress_full: 0,
            send_lateness_ns: 0,
        }
    }

    /// A datagram was handed to the transport, which may have had no room for it.
    pub open spec fn with_egress(self, queued: bool) -> Self {
        if queued {
            self
        } else {
            RoundStats { egress_full: counted(self.egress_full), ..self }
        }
    }

    /// The fine loop answered a pulse.
    pub open spec fn with_pulse(self, answer: Result<(), PulseReject>) -> Self {
        match answer {
            Ok(_) => self,
            Err(PulseReject::StaleRound) => RoundStats {
                stale_round: counted(self.stale_round),
                ..self
            },
            Err(PulseReject::FarFutureRound) => RoundStats {
                far_future_round: counted(self.far_future_round),
                ..self
            },
            Err(PulseReject::DuplicatePeer) => RoundStats {
                duplicate_peer: counted(self.duplicate_peer),
                ..self
            },
        }
    }
}

impl Default for RoundStats {
    fn default() -> (stats: Self)
        ensures
            stats == Self::zero(),
    {
        RoundStats {
            decode_errors: 0,
            stale_round: 0,
            far_future_round: 0,
            duplicate_peer: 0,
            panics_sent: 0,
            panics_received: 0,
            unstaked_panics: 0,
            stale_panics: 0,
            panic_amplifications: 0,
            recoveries: 0,
            egress_full: 0,
            send_lateness_ns: 0,
        }
    }
}

} // verus!
