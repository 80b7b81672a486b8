//! Stake-weighted panic amplification for the coarse recovery loop.
//!
//! The transport authenticates every sender. A validator records at most one active panic per
//! peer, amplifies after more than one third of current-epoch stake, and recovers after more
//! than two thirds. Observations expire so unrelated network disturbances cannot accumulate
//! into a later recovery.
use crate::clock::{clamp_i64, LocalNs};
use crate::peer::PeerId;
use crate::round::saturated;
use crate::stake::{stake_of, stake_sum, sum_stake, total_stake, Stakes};
use std::collections::BTreeMap;
use vstd::prelude::*;

verus! {

/// What the validator does after a panic was recorded.
#[derive(Debug, Clone, Copy, PartialEq, Eq, Structural)]
pub enum PanicAction {
    /// Carry on.
    Nothing,
    /// Broadcast a panic of our own.
    Amplify,
    /// Restart the fine loop.
    Recover,
}

/// Why a panic was not recorded.
#[derive(Debug, Clone, Copy, PartialEq, Eq, Structural)]
pub enum PanicReject {
    /// The sender holds no stake in the current epoch.
    UnstakedPeer,
    /// The sender has already used this bucket up, or a later one.
    StaleBucket,
}

/// What a [`PanicTracker`] knows.
#[verifier::ext_equal]
pub struct TrackerState {
    /// This validator.
    pub me: PeerId,
    /// When the panic of each peer that is counted was last received.
    pub active: Map<PeerId, LocalNs>,
    /// The latest bucket accepted from each peer.
    pub last_bucket: Map<PeerId, u64>,
    /// The current disturbance was amplified.
    pub amplified: bool,
    /// The current disturbance led to a recovery.
    pub recovery_emitted: bool,
}

/// An observation received at `received_at` still counts at `now`.
pub open spec fn is_fresh(received_at: LocalNs, now: LocalNs, ttl_ns: i64) -> bool {
    clamp_i64(now@ - received_at@) <= ttl_ns
}

/// More than one third of the stake.
pub open spec fn above_fault_threshold(stake: int, total: int) -> bool {
    total > 0 && 3 * stake > total
}

/// More than two thirds of the stake.
pub open spec fn above_supermajority(stake: int, total: int) -> bool {
    total > 0 && 3 * stake > 2 * total
}

impl TrackerState {
    /// A tracker that has seen nothing.
    pub open spec fn initial(me: PeerId) -> Self {
        TrackerState {
            me,
            active: Map::empty(),
            last_bucket: Map::empty(),
            amplified: false,
            recovery_emitted: false,
        }
    }

    /// Only finitely many peers are counted, each of them with a bucket on record.
    pub open spec fn wf(self) -> bool {
        &&& self.active.dom().finite()
        &&& self.active.dom().subset_of(self.last_bucket.dom())
    }

    /// Every peer that has a bucket on record in `earlier` has that one or a later one here.
    pub open spec fn keeps_buckets_of(self, earlier: Self) -> bool {
        forall|peer: PeerId| #[trigger]
            earlier.last_bucket.contains_key(peer) ==> self.last_bucket.contains_key(peer)
                && self.last_bucket[peer] >= earlier.last_bucket[peer]
    }

    /// Stake behind the active panics.
    pub open spec fn support(self, stakes: Map<PeerId, u64>) -> nat {
        stake_sum(stakes, self.active.dom())
    }

    /// The state without the observations that have expired.
    pub open spec fn pruned(self, now: LocalNs, ttl_ns: i64) -> Self {
        TrackerState {
            active: Map::new(
                |peer: PeerId|
                    self.active.contains_key(peer) && is_fresh(self.active[peer], now, ttl_ns),
                |peer: PeerId| self.active[peer],
            ),
            ..self
        }
    }

    /// The bucket was used up by the peer: it sent a later one, or this one and the observation
    /// is no longer active.
    pub open spec fn is_stale(self, peer: PeerId, bucket: u64) -> bool {
        self.last_bucket.contains_key(peer) && (bucket < self.last_bucket[peer] || bucket
            == self.last_bucket[peer] && !self.active.contains_key(peer))
    }

    /// The state with a panic of `peer` counted from `now`.
    pub open spec fn observed(self, peer: PeerId, bucket: u64, now: LocalNs) -> Self {
        TrackerState {
            active: self.active.insert(peer, now),
            last_bucket: self.last_bucket.insert(peer, bucket),
            ..self
        }
    }

    /// Holds the support against the two thresholds. Each action comes once per disturbance: a
    /// disturbance ends when support falls back to one third.
    pub open spec fn evaluated(self, stakes: Map<PeerId, u64>) -> (Self, PanicAction) {
        let support = self.support(stakes) as int;
        let total = total_stake(stakes) as int;
        if above_supermajority(support, total) {
            (
                TrackerState { recovery_emitted: true, ..self },
                if self.recovery_emitted {
                    PanicAction::Nothing
                } else {
                    PanicAction::Recover
                },
            )
        } else if above_fault_threshold(support, total) {
            (
                TrackerState { amplified: true, ..self },
                if self.amplified {
                    PanicAction::Nothing
                } else {
                    PanicAction::Amplify
                },
            )
        } else {
            (
                TrackerState { amplified: false, recovery_emitted: false, ..self },
                PanicAction::Nothing,
            )
        }
    }

    /// Receives a panic of `peer` at `now`.
    pub open spec fn recorded(
        self,
        peer: PeerId,
        bucket: u64,
        now: LocalNs,
        ttl_ns: i64,
        stakes: Map<PeerId, u64>,
    ) -> (Self, Result<PanicAction, PanicReject>) {
        let pruned = self.pruned(now, ttl_ns);
        if stake_of(stakes, peer) == 0 {
            (self, Err(PanicReject::UnstakedPeer))
        } else if pruned.is_stale(peer, bucket) {
            (pruned, Err(PanicReject::StaleBucket))
        } else {
            let (next, action) = pruned.observed(peer, bucket, now).evaluated(stakes);
            (next, Ok(action))
        }
    }

    /// Records a panic of this validator; a panic that is rejected asks for no action.
    pub open spec fn recorded_locally(
        self,
        bucket: u64,
        now: LocalNs,
        ttl_ns: i64,
        stakes: Map<PeerId, u64>,
    ) -> (Self, PanicAction) {
        let (next, outcome) = self.recorded(self.me, bucket, now, ttl_ns, stakes);
        (
            next,
            match outcome {
                Ok(action) => action,
                Err(_) => PanicAction::Nothing,
            },
        )
    }

    /// The bucket of the next panic of this validator.
    pub open spec fn local_bucket(self, wall_clock_bucket: u64) -> u64 {
        if !self.last_bucket.contains_key(self.me) {
            wall_clock_bucket
        } else {
            let newer = saturated(self.last_bucket[self.me] as nat + 1);
            if newer > wall_clock_bucket {
                newer
            } else {
                wall_clock_bucket
            }
        }
    }

    /// The disturbance is over: nothing is counted any more, buckets stay on record.
    pub open spec fn recovered(self) -> Self {
        TrackerState {
            active: Map::empty(),
            amplified: false,
            recovery_emitted: false,
            ..self
        }
    }
}

/// Counts the stake behind active panics and decides when to amplify and to recover.
pub struct PanicTracker {
    me: PeerId,
    active: BTreeMap<PeerId, LocalNs>,
    last_bucket: BTreeMap<PeerId, u64>,
    amplified: bool,
    recovery_emitted: bool,
}

impl View for PanicTracker {
    type V = TrackerState;

    closed spec fn view(&self) -> TrackerState {
        TrackerState {
            me: self.me,
            active: self.active@,
            last_bucket: self.last_bucket@,
            amplified: self.amplified,
            recovery_emitted: self.recovery_emitted,
        }
    }
}

impl PanicTracker {
    /// A tracker for the validator `me`.
    pub fn new(me: PeerId) -> (tracker: Self)
        ensures
            tracker@ == TrackerState::initial(me),
            tracker@.wf(),
    {
        PanicTracker {
            me,
            active: BTreeMap::new(),
            last_bucket: BTreeMap::new(),
            amplified: false,
            recovery_emitted: false,
        }
    }

    /// The validator that this tracker belongs to.
    pub fn me(&self) -> (me: PeerId)
        ensures
            me == self@.me,
    {
        self.me
    }

    /// Select a bucket newer than our previous recovery signal even when the local wall clock
    /// moved backwards.
    pub fn next_local_bucket(&self, wall_clock_bucket: u64) -> (bucket: u64)
        ensures
            bucket == self@.local_bucket(wall_clock_bucket),
    {
        match self.last_bucket.get(&self.me) {
            Some(last) => {
                let newer: u64 = last.saturating_add(1);
                if newer > wall_clock_bucket {
                    newer
                } else {
                    wall_clock_bucket
                }
            },
            None => wall_clock_bucket,
        }
    }

    /// Records a panic that this validator broadcasts itself.
    pub fn record_local(
        &mut self,
        bucket: u64,
        now: LocalNs,
        ttl_ns: i64,
        stakes: &Stakes,
    ) -> (action: PanicAction)
        ensures
            (final(self)@, action) == old(self)@.recorded_locally(bucket, now, ttl_ns, stakes@),
            old(self)@.wf() ==> final(self)@.wf(),
            final(self)@.keeps_buckets_of(old(self)@),
    {
        let me = self.me;
        match self.record(me, bucket, now, ttl_ns, stakes) {
            Ok(action) => action,
            Err(_) => PanicAction::Nothing,
        }
    }

    /// Records a panic received from `peer`.
    pub fn on_panic(
        &mut self,
        peer: PeerId,
        bucket: u64,
        now: LocalNs,
        ttl_ns: i64,
        stakes: &Stakes,
    ) -> (outcome: Result<PanicAction, PanicReject>)
        ensures
            (final(self)@, outcome) == old(self)@.recorded(peer, bucket, now, ttl_ns, stakes@),
            old(self)@.wf() ==> final(self)@.wf(),
            final(self)@.keeps_buckets_of(old(self)@),
    {
        self.record(peer, bucket, now, ttl_ns, stakes)
    }

    /// Forgets the active panics after a recovery. Buckets stay on record, so that the panics
    /// that led to this recovery cannot lead to another.
    pub fn complete_recovery(&mut self)
        ensures
            final(self)@ == old(self)@.recovered(),
            final(self)@.wf(),
    {
        self.active.clear();
        self.amplified = false;
        self.recovery_emitted = false;
    }

    /// Records a panic of `peer`, which may be this validator itself.
    pub fn record(
        &mut self,
        peer: PeerId,
        bucket: u64,
        now: LocalNs,
        ttl_ns: i64,
        stakes: &Stakes,
    ) -> (outcome: Result<PanicAction, PanicReject>)
        ensures
            (final(self)@, outcome) == old(self)@.recorded(peer, bucket, now, ttl_ns, stakes@),
            old(self)@.wf() ==> final(self)@.wf(),
            final(self)@.keeps_buckets_of(old(self)@),
    {
        let stake: u64 = match stakes.get(&peer) {
            Some(stake) => *stake,
            None => 0,
        };
        if stake == 0 {
            return Err(PanicReject::UnstakedPeer);
        }
        self.prune(now, ttl_ns);

        if let Some(last) = self.last_bucket.get(&peer) {
            if bucket < *last || bucket == *last && !self.active.contains_key(&peer) {
                return Err(PanicReject::StaleBucket);
            }
        }
        self.last_bucket.insert(peer, bucket);
        self.active.insert(peer, now);

        Ok(self.evaluate(stakes))
    }

    fn prune(&mut self, now: LocalNs, ttl_ns: i64)
        ensures
            final(self)@ == old(self)@.pruned(now, ttl_ns),
    {
        let mut fresh: BTreeMap<PeerId, LocalNs> = BTreeMap::new();
        let ghost pruned = self@.pruned(now, ttl_ns).active;
        for peer in it: self.active.keys()
            invariant
                it.seq().unref().to_set() == self.active@.dom(),
                pruned == self@.pruned(now, ttl_ns).active,
                forall|p: PeerId| #[trigger]
                    fresh@.contains_key(p) <==> pruned.contains_key(p) && it.seq().unref().take(
                        it.index(),
                    ).contains(p),
                forall|p: PeerId| #[trigger] fresh@.contains_key(p) ==> fresh@[p] == pruned[p],
                it.index() == it.seq().len() ==> fresh@ == pruned,
        {
            proof {
                let keys = it.seq().unref();
                assert(keys.contains(*peer)) by {
                    assert(keys[it.index()] == *peer);
                }
                assert(self.active@.contains_key(*peer));
                assert(keys.take(it.index() + 1) =~= keys.take(it.index()).push(*peer));
                assert(keys.take(keys.len() as int) =~= keys);
            }
            if let Some(received_at) = self.active.get(peer) {
                if now.saturating_sub(*received_at) <= ttl_ns {
                    fresh.insert(*peer, *received_at);
                }
            }
        }
        self.active = fresh;
    }

    /// Holds the stake behind the active panics against the two thresholds.
    pub fn evaluate(&mut self, stakes: &Stakes) -> (action: PanicAction)
        ensures
            (final(self)@, action) == old(self)@.evaluated(stakes@),
            old(self)@.wf() ==> final(self)@.wf(),
            final(self)@.evaluated(stakes@) == (final(self)@, PanicAction::Nothing),
    {
        let total_stake: u128 = sum_stake(stakes, stakes);
        let support_stake: u128 = sum_stake(&self.active, stakes);

        if exceeds_two_thirds(support_stake, total_stake) {
            if self.recovery_emitted {
                return PanicAction::Nothing;
            }
            self.recovery_emitted = true;
            return PanicAction::Recover;
        }
        if exceeds_one_third(support_stake, total_stake) {
            if self.amplified {
                return PanicAction::Nothing;
            }
            self.amplified = true;
            return PanicAction::Amplify;
        }
        self.amplified = false;
        self.recovery_emitted = false;
        PanicAction::Nothing
    }
}

/// More than one third of the stake, of stakes summed over many peers.
pub fn exceeds_one_third(stake: u128, total_stake: u128) -> (above: bool)
    ensures
        above == above_fault_threshold(stake as int, total_stake as int),
        above <==> 0 < total_stake < 3 * stake,
{
    total_stake > 0 && stake > total_stake / 3
}

/// More than two thirds of the stake, of stakes summed over many peers.
pub fn exceeds_two_thirds(stake: u128, total_stake: u128) -> (above: bool)
    ensures
        above == above_supermajority(stake as int, total_stake as int),
        above <==> total_stake > 0 && 3 * stake > 2 * total_stake,
{
    total_stake > 0 && stake > total_stake / 3 * 2 + total_stake % 3 * 2 / 3
}

/// More than one third of the stake.
pub fn has_fault_threshold(stake: u64, total_stake: u64) -> (above: bool)
    ensures
        above == above_fault_threshold(stake as int, total_stake as int),
        above <==> 0 < total_stake < 3 * stake,
{
    exceeds_one_third(stake as u128, total_stake as u128)
}

/// More than two thirds of the stake.
pub fn has_supermajority(stake: u64, total_stake: u64) -> (above: bool)
    ensures
        above == above_supermajority(stake as int, total_stake as int),
        above <==> total_stake > 0 && 3 * stake > 2 * total_stake,
{
    exceeds_two_thirds(stake as u128, total_stake as u128)
}

} // verus!
