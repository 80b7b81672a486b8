//! What holds of panic tracking as a whole.
use crate::clock::LocalNs;
use crate::peer::PeerId;
use crate::recovery::{
    above_fault_threshold, is_fresh, PanicAction, PanicReject, TrackerState,
};
use crate::stake::{
    lemma_stake_sum_at_most_total, lemma_stake_sum_empty, lemma_stake_sum_insert,
    lemma_stake_sum_monotone, stake_of, stake_sum, total_stake,
};
use vstd::prelude::*;

verus! {

/// Every operation keeps a tracker well formed.
pub proof fn operations_keep_trackers_well_formed(
    state: TrackerState,
    peer: PeerId,
    bucket: u64,
    now: LocalNs,
    ttl_ns: i64,
    stakes: Map<PeerId, u64>,
)
    requires
        state.wf(),
    ensures
        TrackerState::initial(state.me).wf(),
        state.recorded(peer, bucket, now, ttl_ns, stakes).0.wf(),
        state.recorded_locally(bucket, now, ttl_ns, stakes).0.wf(),
        state.evaluated(stakes).0.wf(),
        state.recovered().wf(),
{
    lemma_pruned_is_smaller(state, now, ttl_ns);
}

proof fn lemma_pruned_is_smaller(state: TrackerState, now: LocalNs, ttl_ns: i64)
    requires
        state.wf(),
    ensures
        state.pruned(now, ttl_ns).active.dom().subset_of(state.active.dom()),
        state.pruned(now, ttl_ns).wf(),
{
    let pruned = state.pruned(now, ttl_ns);
    assert(pruned.active.dom().subset_of(state.active.dom()));
    vstd::set_lib::lemma_set_subset_finite(state.active.dom(), pruned.active.dom());
}

/// At most one panic per peer counts: an accepted panic adds the stake of its sender to the
/// support that has not expired, unless the sender is counted already.
pub proof fn each_peer_counts_once(
    state: TrackerState,
    peer: PeerId,
    bucket: u64,
    now: LocalNs,
    ttl_ns: i64,
    stakes: Map<PeerId, u64>,
)
    requires
        state.wf(),
        state.recorded(peer, bucket, now, ttl_ns, stakes).1 is Ok,
    ensures
        ({
            let kept = state.pruned(now, ttl_ns);
            let next = state.recorded(peer, bucket, now, ttl_ns, stakes).0;
            next.support(stakes) == kept.support(stakes) + if kept.active.contains_key(peer) {
                0
            } else {
                stake_of(stakes, peer)
            }
        }),
{
    let kept = state.pruned(now, ttl_ns);
    let next = state.recorded(peer, bucket, now, ttl_ns, stakes).0;
    lemma_pruned_is_smaller(state, now, ttl_ns);
    assert(next.active.dom() =~= kept.active.dom().insert(peer));
    if kept.active.contains_key(peer) {
        assert(next.active.dom() =~= kept.active.dom());
    } else {
        lemma_stake_sum_insert(stakes, kept.active.dom(), peer);
    }
}

/// An accepted panic recovers exactly when more than two thirds of the stake stand behind the
/// active panics and the disturbance has not led to a recovery yet; it amplifies exactly when
/// more than one third and no more than two thirds do and the disturbance was not amplified yet.
pub proof fn thresholds_are_one_and_two_thirds(
    state: TrackerState,
    peer: PeerId,
    bucket: u64,
    now: LocalNs,
    ttl_ns: i64,
    stakes: Map<PeerId, u64>,
)
    requires
        state.wf(),
        stakes.dom().finite(),
        state.recorded(peer, bucket, now, ttl_ns, stakes).1 is Ok,
    ensures
        ({
            let (next, outcome) = state.recorded(peer, bucket, now, ttl_ns, stakes);
            let support = next.support(stakes);
            let total = total_stake(stakes);
            &&& outcome == Ok::<_, PanicReject>(PanicAction::Recover) <==> 3 * support > 2 * total
                && !state.recovery_emitted
            &&& outcome == Ok::<_, PanicReject>(PanicAction::Amplify) <==> total < 3 * support
                && 3 * support <= 2 * total && !state.amplified
        }),
{
    let next = state.recorded(peer, bucket, now, ttl_ns, stakes).0;
    operations_keep_trackers_well_formed(state, peer, bucket, now, ttl_ns, stakes);
    lemma_stake_sum_at_most_total(stakes, next.active.dom());
    assert(next.active == state.pruned(now, ttl_ns).observed(peer, bucket, now).active);
}

/// An evaluation recovers exactly when more than two thirds of the stake stand behind the active
/// panics and the disturbance has not led to a recovery yet; it amplifies exactly when more than
/// one third and no more than two thirds do and the disturbance was not amplified yet.
pub proof fn evaluations_follow_the_thresholds(state: TrackerState, stakes: Map<PeerId, u64>)
    requires
        state.wf(),
        stakes.dom().finite(),
    ensures
        ({
            let action = state.evaluated(stakes).1;
            let support = state.support(stakes);
            let total = total_stake(stakes);
            &&& action == PanicAction::Recover <==> 3 * support > 2 * total
                && !state.recovery_emitted
            &&& action == PanicAction::Amplify <==> total < 3 * support && 3 * support <= 2 * total
                && !state.amplified
        }),
{
    lemma_stake_sum_at_most_total(stakes, state.active.dom());
}

/// Evaluating again with the same stakes asks for nothing and changes nothing.
pub proof fn evaluating_again_changes_nothing(state: TrackerState, stakes: Map<PeerId, u64>)
    ensures
        ({
            let next = state.evaluated(stakes).0;
            next.evaluated(stakes) == (next, PanicAction::Nothing)
        }),
{
}

/// Recording a panic takes no bucket back: every peer keeps the bucket it has on record, or gets
/// a later one, and every peer that is counted has one.
pub proof fn recording_takes_no_bucket_back(
    state: TrackerState,
    peer: PeerId,
    bucket: u64,
    now: LocalNs,
    ttl_ns: i64,
    stakes: Map<PeerId, u64>,
)
    requires
        state.wf(),
    ensures
        ({
            let next = state.recorded(peer, bucket, now, ttl_ns, stakes).0;
            &&& next.keeps_buckets_of(state)
            &&& forall|other: PeerId| #[trigger]
                next.active.contains_key(other) ==> next.last_bucket.contains_key(other)
        }),
{
    operations_keep_trackers_well_formed(state, peer, bucket, now, ttl_ns, stakes);
    let next = state.recorded(peer, bucket, now, ttl_ns, stakes).0;
    assert forall|other: PeerId| #[trigger] next.active.contains_key(other) implies
        next.last_bucket.contains_key(other) by {
        assert(next.active.dom().contains(other));
    }
}

/// Once a panic from a staked peer is handled at `now`, no observation of another peer that has
/// outlived its time is left, every one that has not is kept, and an accepted panic counts from
/// `now`.
pub proof fn expired_observations_are_dropped(
    state: TrackerState,
    peer: PeerId,
    bucket: u64,
    now: LocalNs,
    ttl_ns: i64,
    stakes: Map<PeerId, u64>,
    other: PeerId,
)
    requires
        stake_of(stakes, peer) > 0,
        other != peer,
    ensures
        ({
            let (next, outcome) = state.recorded(peer, bucket, now, ttl_ns, stakes);
            &&& next.active.contains_key(other) <==> state.active.contains_key(other) && is_fresh(
                state.active[other],
                now,
                ttl_ns,
            )
            &&& next.active.contains_key(other) ==> next.active[other] == state.active[other]
            &&& outcome is Ok ==> next.active.contains_key(peer) && next.active[peer] == now
        }),
{
}

/// A rejected panic changes nothing but for dropping expired observations, and a panic of an
/// unstaked peer not even that.
pub proof fn rejected_panics_leave_no_trace(
    state: TrackerState,
    peer: PeerId,
    bucket: u64,
    now: LocalNs,
    ttl_ns: i64,
    stakes: Map<PeerId, u64>,
)
    ensures
        ({
            let (next, outcome) = state.recorded(peer, bucket, now, ttl_ns, stakes);
            &&& outcome == Err::<PanicAction, _>(PanicReject::UnstakedPeer) ==> next == state
            &&& outcome == Err::<PanicAction, _>(PanicReject::StaleBucket) ==> next
                == state.pruned(now, ttl_ns)
        }),
{
}

/// After a recovery, a staked peer is heard again only with a bucket later than its last:
/// panics that led to the recovery are rejected as stale.
pub proof fn recovery_uses_buckets_up(
    state: TrackerState,
    peer: PeerId,
    bucket: u64,
    now: LocalNs,
    ttl_ns: i64,
    stakes: Map<PeerId, u64>,
)
    requires
        stake_of(stakes, peer) > 0,
        state.last_bucket.contains_key(peer),
    ensures
        ({
            let outcome = state.recovered().recorded(peer, bucket, now, ttl_ns, stakes).1;
            &&& outcome == Err::<PanicAction, _>(PanicReject::StaleBucket) <==> bucket
                <= state.last_bucket[peer]
            &&& outcome is Ok <==> bucket > state.last_bucket[peer]
        }),
{
}

/// A recovery leaves no support behind.
pub proof fn recovery_clears_support(state: TrackerState, stakes: Map<PeerId, u64>)
    ensures
        state.recovered().support(stakes) == 0,
{
    lemma_stake_sum_empty(stakes);
    assert(state.recovered().active.dom() =~= Set::empty());
}

/// Whatever the wall clock says, the next bucket of this validator is no earlier than the wall
/// clock's and later than every bucket it has used, and a staked validator records it. The last
/// two need a later bucket to exist.
pub proof fn local_buckets_advance(
    state: TrackerState,
    wall_clock_bucket: u64,
    now: LocalNs,
    ttl_ns: i64,
    stakes: Map<PeerId, u64>,
)
    ensures
        ({
            let bucket = state.local_bucket(wall_clock_bucket);
            let exhausted = state.last_bucket.contains_key(state.me)
                && state.last_bucket[state.me] == u64::MAX;
            let (next, outcome) = state.recorded(state.me, bucket, now, ttl_ns, stakes);
            &&& bucket >= wall_clock_bucket
            &&& state.last_bucket.contains_key(state.me) && !exhausted ==> bucket
                > state.last_bucket[state.me]
            &&& stake_of(stakes, state.me) > 0 && !exhausted ==> outcome is Ok
                && next.last_bucket[state.me] == bucket && next.active[state.me] == now
        }),
{
}

proof fn lemma_minority_is_powerless(
    state: TrackerState,
    minority: Set<PeerId>,
    peer: PeerId,
    bucket: u64,
    now: LocalNs,
    ttl_ns: i64,
    stakes: Map<PeerId, u64>,
)
    requires
        state.wf(),
        stakes.dom().finite(),
        minority.finite(),
        3 * stake_sum(stakes, minority) <= total_stake(stakes),
        state.active.dom().subset_of(minority),
        minority.contains(peer),
        state.recorded(peer, bucket, now, ttl_ns, stakes).1 is Ok,
    ensures
        state.recorded(peer, bucket, now, ttl_ns, stakes).1 == Ok::<_, PanicReject>(
            PanicAction::Nothing,
        ),
{
    let next = state.recorded(peer, bucket, now, ttl_ns, stakes).0;
    thresholds_are_one_and_two_thirds(state, peer, bucket, now, ttl_ns, stakes);
    assert(next.active.dom().subset_of(minority));
    lemma_stake_sum_monotone(stakes, next.active.dom(), minority);
    lemma_stake_sum_at_most_total(stakes, minority);
}

/// Something that happens to a tracker.
pub enum Event {
    /// A panic, of a peer or of this validator, is recorded.
    Panic { peer: PeerId, bucket: u64, now: LocalNs, ttl_ns: i64, stakes: Map<PeerId, u64> },
    /// The active panics are evaluated.
    Evaluation { stakes: Map<PeerId, u64> },
    /// A recovery completes.
    Recovery,
}

impl Event {
    /// The state that the event leaves behind.
    pub open spec fn applied(self, state: TrackerState) -> TrackerState {
        match self {
            Event::Panic { peer, bucket, now, ttl_ns, stakes } => state.recorded(
                peer,
                bucket,
                now,
                ttl_ns,
                stakes,
            ).0,
            Event::Evaluation { stakes } => state.evaluated(stakes).0,
            Event::Recovery => state.recovered(),
        }
    }

    /// The event asks for `action`.
    pub open spec fn asks_for(self, state: TrackerState, action: PanicAction) -> bool {
        match self {
            Event::Panic { peer, bucket, now, ttl_ns, stakes } => state.recorded(
                peer,
                bucket,
                now,
                ttl_ns,
                stakes,
            ).1 == Ok::<_, PanicReject>(action),
            Event::Evaluation { stakes } => state.evaluated(stakes).1 == action,
            Event::Recovery => false,
        }
    }

    /// The stake behind the active panics and the stake of the epoch that the event holds against
    /// each other, if it does.
    pub open spec fn weighs(self, state: TrackerState) -> Option<(nat, nat)> {
        match self {
            Event::Panic { peer, bucket, now, ttl_ns, stakes } => {
                let (next, outcome) = state.recorded(peer, bucket, now, ttl_ns, stakes);
                if outcome is Ok {
                    Some((next.support(stakes), total_stake(stakes)))
                } else {
                    None
                }
            },
            Event::Evaluation { stakes } => Some((state.support(stakes), total_stake(stakes))),
            Event::Recovery => None,
        }
    }

    /// The event ends a disturbance: a recovery completes, or no more than one third of the stake
    /// is found behind the active panics.
    pub open spec fn ends_disturbance(self, state: TrackerState) -> bool {
        ||| self is Recovery
        ||| self.weighs(state) matches Some((support, total)) && !above_fault_threshold(
            support as int,
            total as int,
        )
    }

    /// Only finitely many peers are staked at the time of the event.
    pub open spec fn has_finite_stakes(self) -> bool {
        match self {
            Event::Panic { stakes, .. } => stakes.dom().finite(),
            Event::Evaluation { stakes } => stakes.dom().finite(),
            Event::Recovery => true,
        }
    }
}

/// The state after the first `count` of `events`.
pub open spec fn state_after(state: TrackerState, events: Seq<Event>, count: nat) -> TrackerState
    decreases count,
{
    if count == 0 {
        state
    } else {
        events[count - 1].applied(state_after(state, events, (count - 1) as nat))
    }
}

proof fn lemma_states_stay_well_formed(state: TrackerState, events: Seq<Event>, count: nat)
    requires
        state.wf(),
        count <= events.len(),
    ensures
        state_after(state, events, count).wf(),
    decreases count,
{
    if count > 0 {
        lemma_states_stay_well_formed(state, events, (count - 1) as nat);
        let before = state_after(state, events, (count - 1) as nat);
        if let Event::Panic { peer, bucket, now, ttl_ns, stakes } = events[count - 1] {
            operations_keep_trackers_well_formed(before, peer, bucket, now, ttl_ns, stakes);
        }
    }
}

/// Every state that a new tracker can reach is well formed.
pub proof fn reachable_states_are_well_formed(me: PeerId, events: Seq<Event>, count: nat)
    requires
        count <= events.len(),
    ensures
        state_after(TrackerState::initial(me), events, count).wf(),
{
    lemma_states_stay_well_formed(TrackerState::initial(me), events, count);
}

/// The latest bucket of a peer never goes back, whatever happens to the tracker.
pub proof fn buckets_never_go_back(
    state: TrackerState,
    events: Seq<Event>,
    earlier: nat,
    later: nat,
    peer: PeerId,
)
    requires
        earlier <= later <= events.len(),
        state_after(state, events, earlier).last_bucket.contains_key(peer),
    ensures
        state_after(state, events, later).last_bucket.contains_key(peer),
        state_after(state, events, earlier).last_bucket[peer] <= state_after(
            state,
            events,
            later,
        ).last_bucket[peer],
    decreases later,
{
    if earlier < later {
        buckets_never_go_back(state, events, earlier, (later - 1) as nat, peer);
    }
}

/// Only peers in `minority` panic, and `minority` holds no more than one third of the stake at
/// the time of the event.
pub open spec fn is_minority_event(event: Event, minority: Set<PeerId>) -> bool {
    match event {
        Event::Panic { peer, stakes, .. } => {
            &&& minority.contains(peer)
            &&& stakes.dom().finite()
            &&& 3 * stake_sum(stakes, minority) <= total_stake(stakes)
        },
        Event::Evaluation { stakes } => {
            &&& stakes.dom().finite()
            &&& 3 * stake_sum(stakes, minority) <= total_stake(stakes)
        },
        Event::Recovery => true,
    }
}

proof fn lemma_only_minority_is_active(
    me: PeerId,
    minority: Set<PeerId>,
    events: Seq<Event>,
    count: nat,
)
    requires
        count <= events.len(),
        forall|i: int|
            0 <= i < events.len() ==> is_minority_event(#[trigger] events[i], minority),
    ensures
        state_after(TrackerState::initial(me), events, count).active.dom().subset_of(minority),
    decreases count,
{
    if count > 0 {
        lemma_only_minority_is_active(me, minority, events, (count - 1) as nat);
        assert(is_minority_event(events[count - 1], minority));
    }
}

/// Peers that hold no more than one third of the stake together bring about neither an
/// amplification nor a recovery, whatever they send and whenever.
pub proof fn byzantine_minority_is_powerless(
    me: PeerId,
    minority: Set<PeerId>,
    events: Seq<Event>,
    index: nat,
)
    requires
        minority.finite(),
        index < events.len(),
        forall|i: int|
            0 <= i < events.len() ==> is_minority_event(#[trigger] events[i], minority),
    ensures
        ({
            let before = state_after(TrackerState::initial(me), events, index);
            &&& !events[index as int].asks_for(before, PanicAction::Amplify)
            &&& !events[index as int].asks_for(before, PanicAction::Recover)
        }),
{
    let before = state_after(TrackerState::initial(me), events, index);
    reachable_states_are_well_formed(me, events, index);
    lemma_only_minority_is_active(me, minority, events, index);
    assert(is_minority_event(events[index as int], minority));
    if let Event::Panic { peer, bucket, now, ttl_ns, stakes } = events[index as int] {
        if before.recorded(peer, bucket, now, ttl_ns, stakes).1 is Ok {
            lemma_minority_is_powerless(before, minority, peer, bucket, now, ttl_ns, stakes);
        }
    }
    if let Event::Evaluation { stakes } = events[index as int] {
        evaluations_follow_the_thresholds(before, stakes);
        lemma_stake_sum_monotone(stakes, before.active.dom(), minority);
    }
}

/// Some event from `from` on, before `to`, ends a disturbance.
pub open spec fn disturbance_ends(
    state: TrackerState,
    events: Seq<Event>,
    from: nat,
    to: nat,
) -> bool {
    exists|i: nat|
        from <= i < to && (#[trigger] events[i as int]).ends_disturbance(
            state_after(state, events, i),
        )
}

proof fn lemma_flags_hold_while_disturbed(
    state: TrackerState,
    events: Seq<Event>,
    from: nat,
    to: nat,
)
    requires
        from <= to <= events.len(),
        !disturbance_ends(state, events, from, to),
    ensures
        state_after(state, events, from).amplified ==> state_after(state, events, to).amplified,
        state_after(state, events, from).recovery_emitted ==> state_after(
            state,
            events,
            to,
        ).recovery_emitted,
    decreases to,
{
    if from < to {
        let last = (to - 1) as nat;
        assert(!disturbance_ends(state, events, from, last));
        lemma_flags_hold_while_disturbed(state, events, from, last);
        let before = state_after(state, events, last);
        assert(!events[last as int].ends_disturbance(before));
        if let Event::Panic { peer, bucket, now, ttl_ns, stakes } = events[last as int] {
            let (next, outcome) = before.recorded(peer, bucket, now, ttl_ns, stakes);
            if outcome is Ok {
                assert(next.active == before.pruned(now, ttl_ns).observed(
                    peer,
                    bucket,
                    now,
                ).active);
            }
        }
    }
}

/// A disturbance is amplified once: between two amplifications, a disturbance ends.
pub proof fn disturbances_amplify_once(
    state: TrackerState,
    events: Seq<Event>,
    first: nat,
    second: nat,
)
    requires
        first < second < events.len(),
        events[first as int].asks_for(state_after(state, events, first), PanicAction::Amplify),
        events[second as int].asks_for(state_after(state, events, second), PanicAction::Amplify),
    ensures
        disturbance_ends(state, events, first + 1, second),
{
    if !disturbance_ends(state, events, first + 1, second) {
        lemma_flags_hold_while_disturbed(state, events, first + 1, second);
    }
}

/// A disturbance leads to one recovery: between two recoveries, a disturbance ends.
pub proof fn disturbances_recover_once(
    state: TrackerState,
    events: Seq<Event>,
    first: nat,
    second: nat,
)
    requires
        first < second < events.len(),
        events[first as int].asks_for(state_after(state, events, first), PanicAction::Recover),
        events[second as int].asks_for(state_after(state, events, second), PanicAction::Recover),
    ensures
        disturbance_ends(state, events, first + 1, second),
{
    if !disturbance_ends(state, events, first + 1, second) {
        lemma_flags_hold_while_disturbed(state, events, first + 1, second);
    }
}

/// When a disturbance has ended, both of its actions are forgotten.
pub proof fn ended_disturbances_are_forgotten(state: TrackerState, event: Event)
    requires
        event.ends_disturbance(state),
    ensures
        !event.applied(state).amplified,
        !event.applied(state).recovery_emitted,
{
    if let Event::Panic { peer, bucket, now, ttl_ns, stakes } = event {
        let next = state.recorded(peer, bucket, now, ttl_ns, stakes).0;
        assert(next.active == state.pruned(now, ttl_ns).observed(peer, bucket, now).active);
    }
}

/// No event from `from` on, before `to`, asks for `action`.
pub open spec fn nothing_asks_for(
    action: PanicAction,
    state: TrackerState,
    events: Seq<Event>,
    from: nat,
    to: nat,
) -> bool {
    forall|i: nat|
        from <= i < to ==> !(#[trigger] events[i as int]).asks_for(
            state_after(state, events, i),
            action,
        )
}

proof fn lemma_actions_raise_flags(
    state: TrackerState,
    events: Seq<Event>,
    from: nat,
    to: nat,
)
    requires
        from <= to <= events.len(),
    ensures
        !state_after(state, events, from).amplified && nothing_asks_for(
            PanicAction::Amplify,
            state,
            events,
            from,
            to,
        ) ==> !state_after(state, events, to).amplified,
        !state_after(state, events, from).recovery_emitted && nothing_asks_for(
            PanicAction::Recover,
            state,
            events,
            from,
            to,
        ) ==> !state_after(state, events, to).recovery_emitted,
    decreases to,
{
    if from < to {
        let last = (to - 1) as nat;
        lemma_actions_raise_flags(state, events, from, last);
        let _ = events[last as int];
        assert(nothing_asks_for(PanicAction::Amplify, state, events, from, to)
            ==> nothing_asks_for(PanicAction::Amplify, state, events, from, last));
        assert(nothing_asks_for(PanicAction::Recover, state, events, from, to)
            ==> nothing_asks_for(PanicAction::Recover, state, events, from, last));
    }
}

/// Each action can come again: after a disturbance has ended, the first event that finds more
/// than two thirds of the stake behind the active panics asks for a recovery, and the first that
/// finds more than one third and no more than two thirds asks for an amplification.
pub proof fn actions_come_again(
    state: TrackerState,
    events: Seq<Event>,
    end: nat,
    index: nat,
    support: nat,
    total: nat,
)
    requires
        state.wf(),
        end < index < events.len(),
        events[end as int].ends_disturbance(state_after(state, events, end)),
        events[index as int].has_finite_stakes(),
        events[index as int].weighs(state_after(state, events, index)) == Some((support, total)),
    ensures
        ({
            let before = state_after(state, events, index);
            &&& 3 * support > 2 * total && nothing_asks_for(
                PanicAction::Recover,
                state,
                events,
                end + 1,
                index,
            ) ==> events[index as int].asks_for(before, PanicAction::Recover)
            &&& total < 3 * support && 3 * support <= 2 * total && nothing_asks_for(
                PanicAction::Amplify,
                state,
                events,
                end + 1,
                index,
            ) ==> events[index as int].asks_for(before, PanicAction::Amplify)
        }),
{
    let before = state_after(state, events, index);
    ended_disturbances_are_forgotten(state_after(state, events, end), events[end as int]);
    lemma_actions_raise_flags(state, events, end + 1, index);
    lemma_states_stay_well_formed(state, events, index);
    match events[index as int] {
        Event::Panic { peer, bucket, now, ttl_ns, stakes } => {
            thresholds_are_one_and_two_thirds(before, peer, bucket, now, ttl_ns, stakes);
        },
        Event::Evaluation { stakes } => {
            evaluations_follow_the_thresholds(before, stakes);
        },
        Event::Recovery => {},
    }
}

/// A new tracker knows whose it is, and nothing else.
pub proof fn new_trackers_know_nothing(me: PeerId, peer: PeerId)
    ensures
        ({
            let state = TrackerState::initial(me);
            &&& state.me == me
            &&& !state.active.contains_key(peer)
            &&& !state.last_bucket.contains_key(peer)
            &&& !state.amplified
            &&& !state.recovery_emitted
        }),
{
}

/// A panic is unstaked exactly when the epoch lists no stake for its sender. It is stale exactly
/// when its sender holds stake and has sent a later bucket, or this one, of which more time has
/// passed since it was last received than it counts. Every other panic is accepted. A lifetime at
/// the end of the clock's range never runs out.
pub proof fn panics_are_judged_by_stake_bucket_and_age(
    state: TrackerState,
    peer: PeerId,
    bucket: u64,
    now: LocalNs,
    ttl_ns: i64,
    stakes: Map<PeerId, u64>,
)
    ensures
        ({
            let outcome = state.recorded(peer, bucket, now, ttl_ns, stakes).1;
            let staked = stakes.contains_key(peer) && stakes[peer] > 0;
            let counts = state.active.contains_key(peer) && (now@ - state.active[peer]@ <= ttl_ns
                || ttl_ns == i64::MAX);
            let heard = state.last_bucket.contains_key(peer);
            let last = state.last_bucket[peer];
            &&& outcome == Err::<PanicAction, _>(PanicReject::UnstakedPeer) <==> !staked
            &&& outcome == Err::<PanicAction, _>(PanicReject::StaleBucket) <==> staked && heard && (
            bucket < last || bucket == last && !counts)
            &&& outcome is Ok <==> staked && (!heard || bucket > last || bucket == last && counts)
        }),
{
}

/// Recording a panic of one peer leaves the bucket of every other as it was, and drops the
/// observation of another exactly when more time has passed than it counts.
pub proof fn recording_touches_others_only_by_age(
    state: TrackerState,
    peer: PeerId,
    bucket: u64,
    now: LocalNs,
    ttl_ns: i64,
    stakes: Map<PeerId, u64>,
    other: PeerId,
)
    requires
        other != peer,
        stakes.contains_key(peer),
        stakes[peer] > 0,
    ensures
        ({
            let next = state.recorded(peer, bucket, now, ttl_ns, stakes).0;
            &&& next.me == state.me
            &&& next.last_bucket.contains_key(other) <==> state.last_bucket.contains_key(other)
            &&& state.last_bucket.contains_key(other) ==> next.last_bucket[other]
                == state.last_bucket[other]
            &&& next.active.contains_key(other) <==> state.active.contains_key(other) && (now@
                - state.active[other]@ <= ttl_ns || ttl_ns == i64::MAX)
            &&& next.active.contains_key(other) ==> next.active[other] == state.active[other]
        }),
{
}

/// An accepted panic is counted from `now` under its bucket. A stale one moves no bucket and no
/// flag, and leaves the observation of its sender to its age. An unstaked one changes nothing.
pub proof fn recording_keeps_what_it_accepts(
    state: TrackerState,
    peer: PeerId,
    bucket: u64,
    now: LocalNs,
    ttl_ns: i64,
    stakes: Map<PeerId, u64>,
)
    ensures
        ({
            let (next, outcome) = state.recorded(peer, bucket, now, ttl_ns, stakes);
            &&& outcome is Ok ==> next.active.contains_key(peer) && next.active[peer] == now
            &&& outcome is Ok ==> next.last_bucket.contains_key(peer) && next.last_bucket[peer]
                == bucket
            &&& outcome is Err ==> next.me == state.me && next.last_bucket == state.last_bucket
            &&& outcome is Err ==> next.amplified == state.amplified
            &&& outcome is Err ==> next.recovery_emitted == state.recovery_emitted
            &&& outcome == Err::<PanicAction, _>(PanicReject::StaleBucket) ==> {
                &&& next.active.contains_key(peer) <==> state.active.contains_key(peer) && (now@
                    - state.active[peer]@ <= ttl_ns || ttl_ns == i64::MAX)
                &&& next.active.contains_key(peer) ==> next.active[peer] == state.active[peer]
            }
            &&& outcome == Err::<PanicAction, _>(PanicReject::UnstakedPeer) ==> next == state
        }),
{
}

/// Evaluating leaves every panic and every bucket alone. More than two thirds of the stake behind
/// the panics mark the disturbance as recovered; more than one third and no more than two mark it
/// as amplified; no more than one third end it, with both marks. Neither mark moves otherwise.
pub proof fn evaluations_mark_the_disturbance(state: TrackerState, stakes: Map<PeerId, u64>)
    requires
        state.wf(),
        stakes.dom().finite(),
    ensures
        ({
            let (next, action) = state.evaluated(stakes);
            let support = stake_sum(stakes, state.active.dom());
            let total = total_stake(stakes);
            &&& next.me == state.me
            &&& next.active == state.active
            &&& next.last_bucket == state.last_bucket
            &&& 3 * support > 2 * total ==> {
                &&& next.recovery_emitted
                &&& next.amplified == state.amplified
                &&& action == PanicAction::Recover <==> !state.recovery_emitted
                &&& action != PanicAction::Amplify
            }
            &&& total < 3 * support && 3 * support <= 2 * total ==> {
                &&& next.amplified
                &&& next.recovery_emitted == state.recovery_emitted
                &&& action == PanicAction::Amplify <==> !state.amplified
                &&& action != PanicAction::Recover
            }
            &&& 3 * support <= total ==> {
                &&& !next.amplified
                &&& !next.recovery_emitted
                &&& action == PanicAction::Nothing
            }
        }),
{
    lemma_stake_sum_at_most_total(stakes, state.active.dom());
}

/// What an accepted panic does to the two marks, and what it asks for, follows from the stake of
/// the peers that are counted afterwards: above two thirds, between one and two, or no more than
/// one.
pub proof fn accepted_panics_mark_the_disturbance(
    state: TrackerState,
    peer: PeerId,
    bucket: u64,
    now: LocalNs,
    ttl_ns: i64,
    stakes: Map<PeerId, u64>,
)
    requires
        state.wf(),
        stakes.dom().finite(),
        state.recorded(peer, bucket, now, ttl_ns, stakes).1 is Ok,
    ensures
        ({
            let (next, outcome) = state.recorded(peer, bucket, now, ttl_ns, stakes);
            let action = outcome->Ok_0;
            let support = stake_sum(stakes, next.active.dom());
            let total = total_stake(stakes);
            &&& 3 * support > 2 * total ==> {
                &&& next.recovery_emitted
                &&& next.amplified == state.amplified
                &&& action == PanicAction::Recover <==> !state.recovery_emitted
                &&& action != PanicAction::Amplify
            }
            &&& total < 3 * support && 3 * support <= 2 * total ==> {
                &&& next.amplified
                &&& next.recovery_emitted == state.recovery_emitted
                &&& action == PanicAction::Amplify <==> !state.amplified
                &&& action != PanicAction::Recover
            }
            &&& 3 * support <= total ==> {
                &&& !next.amplified
                &&& !next.recovery_emitted
                &&& action == PanicAction::Nothing
            }
        }),
{
    let next = state.recorded(peer, bucket, now, ttl_ns, stakes).0;
    operations_keep_trackers_well_formed(state, peer, bucket, now, ttl_ns, stakes);
    lemma_stake_sum_at_most_total(stakes, next.active.dom());
    assert(next.active == state.pruned(now, ttl_ns).observed(peer, bucket, now).active);
}

/// A panic of our own is recorded like a panic of any peer, except that a rejection asks for
/// nothing.
pub proof fn our_panics_are_recorded_like_any(
    state: TrackerState,
    bucket: u64,
    now: LocalNs,
    ttl_ns: i64,
    stakes: Map<PeerId, u64>,
)
    ensures
        ({
            let (next, action) = state.recorded_locally(bucket, now, ttl_ns, stakes);
            let (like_any, outcome) = state.recorded(state.me, bucket, now, ttl_ns, stakes);
            &&& next == like_any
            &&& outcome is Ok ==> action == outcome->Ok_0
            &&& outcome is Err ==> action == PanicAction::Nothing
        }),
{
}

/// The next bucket of this validator is the earliest that the wall clock has reached and that it
/// has not used up: no bucket before it is both. Once the last bucket is used it stays.
pub proof fn local_buckets_are_the_earliest_unused(
    state: TrackerState,
    wall_clock_bucket: u64,
    candidate: u64,
)
    ensures
        ({
            let bucket = state.local_bucket(wall_clock_bucket);
            let used = state.last_bucket.contains_key(state.me);
            let last = state.last_bucket[state.me];
            &&& candidate >= wall_clock_bucket && (used ==> candidate > last) ==> bucket
                <= candidate
            &&& bucket >= wall_clock_bucket
            &&& used && last < u64::MAX ==> bucket > last
            &&& used && last == u64::MAX ==> bucket == u64::MAX
        }),
{
}

/// Once a recovery completes, nobody is counted, the disturbance is over, and every bucket stays
/// on record.
pub proof fn recovery_forgets_panics_but_no_bucket(state: TrackerState, peer: PeerId)
    ensures
        ({
            let next = state.recovered();
            &&& next.me == state.me
            &&& !next.active.contains_key(peer)
            &&& next.last_bucket == state.last_bucket
            &&& !next.amplified
            &&& !next.recovery_emitted
        }),
{
}

} // verus!
