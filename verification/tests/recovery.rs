use clock_sync::clock::LocalNs;
use clock_sync::peer::{peer_id, PeerId};
use clock_sync::recovery::{
    exceeds_one_third, exceeds_two_thirds, has_fault_threshold, has_supermajority, PanicAction,
    PanicReject, PanicTracker,
};
use clock_sync::stake::{sum_stake, Stakes};
use solana_pubkey::Pubkey;

const TTL: i64 = 800;

fn cluster(stakes: &[u64]) -> (Vec<PeerId>, Stakes, PanicTracker) {
    let peers: Vec<PeerId> = stakes
        .iter()
        .map(|_| peer_id(&Pubkey::new_unique()))
        .collect();
    let stake_map = peers.iter().copied().zip(stakes.iter().copied()).collect();
    let tracker = PanicTracker::new(peers[0]);
    (peers, stake_map, tracker)
}

#[test]
fn byzantine_minority_cannot_amplify() {
    let (peers, stakes, mut tracker) = cluster(&[34, 33, 33]);
    assert_eq!(
        tracker.on_panic(peers[1], 7, LocalNs::from_ns(0), TTL, &stakes),
        Ok(PanicAction::Nothing)
    );
}

#[test]
fn fault_threshold_amplifies_once() {
    let (peers, stakes, mut tracker) = cluster(&[1, 1, 1, 1]);
    assert_eq!(
        tracker.on_panic(peers[1], 7, LocalNs::from_ns(0), TTL, &stakes),
        Ok(PanicAction::Nothing)
    );
    assert_eq!(
        tracker.on_panic(peers[2], 9, LocalNs::from_ns(1), TTL, &stakes),
        Ok(PanicAction::Amplify)
    );
    assert_eq!(
        tracker.on_panic(peers[2], 9, LocalNs::from_ns(2), TTL, &stakes),
        Ok(PanicAction::Nothing)
    );
}

#[test]
fn supermajority_recovers_across_adjacent_buckets() {
    let (peers, stakes, mut tracker) = cluster(&[1, 1, 1, 1]);
    assert_eq!(
        tracker.on_panic(peers[0], 10, LocalNs::from_ns(0), TTL, &stakes),
        Ok(PanicAction::Nothing)
    );
    assert_eq!(
        tracker.on_panic(peers[1], 10, LocalNs::from_ns(1), TTL, &stakes),
        Ok(PanicAction::Amplify)
    );
    assert_eq!(
        tracker.on_panic(peers[2], 11, LocalNs::from_ns(2), TTL, &stakes),
        Ok(PanicAction::Recover)
    );
    assert_eq!(
        tracker.on_panic(peers[3], 11, LocalNs::from_ns(3), TTL, &stakes),
        Ok(PanicAction::Nothing)
    );
}

#[test]
fn expired_observations_do_not_accumulate() {
    let (peers, stakes, mut tracker) = cluster(&[1, 1, 1, 1]);
    assert_eq!(
        tracker.on_panic(peers[1], 1, LocalNs::from_ns(0), TTL, &stakes),
        Ok(PanicAction::Nothing)
    );
    assert_eq!(
        tracker.on_panic(peers[2], 1, LocalNs::from_ns(TTL + 1), TTL, &stakes),
        Ok(PanicAction::Nothing)
    );
}

#[test]
fn stale_and_unstaked_messages_are_rejected() {
    let (peers, mut stakes, mut tracker) = cluster(&[1, 1, 1]);
    let unstaked = peer_id(&Pubkey::new_unique());
    assert_eq!(
        tracker.on_panic(unstaked, 1, LocalNs::from_ns(0), TTL, &stakes),
        Err(PanicReject::UnstakedPeer)
    );
    assert_eq!(
        tracker.on_panic(peers[1], 2, LocalNs::from_ns(0), TTL, &stakes),
        Ok(PanicAction::Nothing)
    );
    tracker.complete_recovery();
    assert_eq!(
        tracker.on_panic(peers[1], 2, LocalNs::from_ns(1), TTL, &stakes),
        Err(PanicReject::StaleBucket)
    );
    stakes.remove(&peers[1]);
    assert_eq!(
        tracker.on_panic(peers[1], 3, LocalNs::from_ns(2), TTL, &stakes),
        Err(PanicReject::UnstakedPeer)
    );
}

#[test]
fn local_bucket_remains_monotone_after_clock_rollback() {
    let (peers, stakes, mut tracker) = cluster(&[1, 1, 1]);
    assert_eq!(
        tracker.record_local(10, LocalNs::from_ns(0), TTL, &stakes),
        PanicAction::Nothing
    );
    tracker.complete_recovery();
    assert_eq!(tracker.next_local_bucket(8), 11);
    assert_eq!(peers[0], tracker.me());
}

#[test]
fn observation_on_the_edge_of_its_lifetime_counts() {
    let (peers, stakes, mut tracker) = cluster(&[1, 1, 1, 1]);
    assert_eq!(
        tracker.on_panic(peers[1], 1, LocalNs::from_ns(0), TTL, &stakes),
        Ok(PanicAction::Nothing)
    );
    assert_eq!(
        tracker.on_panic(peers[2], 1, LocalNs::from_ns(TTL), TTL, &stakes),
        Ok(PanicAction::Amplify)
    );
}

#[test]
fn peers_that_repeat_themselves_count_once() {
    let (peers, stakes, mut tracker) = cluster(&[1, 1, 1, 1]);
    for bucket in 1..20 {
        assert_eq!(
            tracker.on_panic(peers[1], bucket, LocalNs::from_ns(bucket as i64), TTL, &stakes),
            Ok(PanicAction::Nothing)
        );
    }
}

#[test]
fn repeated_bucket_keeps_an_observation_alive() {
    let (peers, stakes, mut tracker) = cluster(&[1, 1, 1, 1]);
    tracker.on_panic(peers[1], 5, LocalNs::from_ns(0), TTL, &stakes).unwrap();
    tracker.on_panic(peers[1], 5, LocalNs::from_ns(700), TTL, &stakes).unwrap();
    assert_eq!(
        tracker.on_panic(peers[2], 5, LocalNs::from_ns(1400), TTL, &stakes),
        Ok(PanicAction::Amplify)
    );
}

#[test]
fn expired_bucket_is_stale_and_an_earlier_one_too() {
    let (peers, stakes, mut tracker) = cluster(&[1, 1, 1, 1]);
    tracker.on_panic(peers[1], 5, LocalNs::from_ns(0), TTL, &stakes).unwrap();
    assert_eq!(
        tracker.on_panic(peers[1], 4, LocalNs::from_ns(1), TTL, &stakes),
        Err(PanicReject::StaleBucket)
    );
    assert_eq!(
        tracker.on_panic(peers[1], 5, LocalNs::from_ns(TTL + 1), TTL, &stakes),
        Err(PanicReject::StaleBucket)
    );
    assert_eq!(
        tracker.on_panic(peers[1], 6, LocalNs::from_ns(TTL + 2), TTL, &stakes),
        Ok(PanicAction::Nothing)
    );
}

#[test]
fn amplifies_again_after_the_disturbance_has_ended() {
    let (peers, stakes, mut tracker) = cluster(&[1, 1, 1, 1]);
    let at = |ns: i64| LocalNs::from_ns(ns);
    tracker.on_panic(peers[1], 1, at(0), TTL, &stakes).unwrap();
    assert_eq!(
        tracker.on_panic(peers[2], 1, at(1), TTL, &stakes),
        Ok(PanicAction::Amplify)
    );
    assert_eq!(
        tracker.on_panic(peers[1], 2, at(2000), TTL, &stakes),
        Ok(PanicAction::Nothing)
    );
    assert_eq!(
        tracker.on_panic(peers[2], 2, at(2001), TTL, &stakes),
        Ok(PanicAction::Amplify)
    );
}

#[test]
fn recovers_again_after_a_completed_recovery() {
    let (peers, stakes, mut tracker) = cluster(&[1, 1, 1]);
    let at = |ns: i64| LocalNs::from_ns(ns);
    for bucket in [1u64, 2] {
        let now = at(bucket as i64);
        assert_eq!(
            tracker.on_panic(peers[0], bucket, now, TTL, &stakes),
            Ok(PanicAction::Nothing)
        );
        assert_eq!(
            tracker.on_panic(peers[1], bucket, now, TTL, &stakes),
            Ok(PanicAction::Amplify)
        );
        assert_eq!(
            tracker.on_panic(peers[2], bucket, now, TTL, &stakes),
            Ok(PanicAction::Recover)
        );
        tracker.complete_recovery();
    }
}

#[test]
fn zero_stake_is_no_stake() {
    let (peers, stakes, mut tracker) = cluster(&[1, 0]);
    assert_eq!(
        tracker.on_panic(peers[1], 1, LocalNs::from_ns(0), TTL, &stakes),
        Err(PanicReject::UnstakedPeer)
    );
}

#[test]
fn unstaked_validator_records_nothing_of_its_own() {
    let (_, stakes, mut tracker) = cluster(&[0, 1]);
    assert_eq!(
        tracker.record_local(3, LocalNs::from_ns(0), TTL, &stakes),
        PanicAction::Nothing
    );
    assert_eq!(tracker.next_local_bucket(1), 1);
}

#[test]
fn local_bucket_follows_the_wall_clock_and_stops_at_the_end() {
    let (_, stakes, mut tracker) = cluster(&[1, 1, 1]);
    assert_eq!(tracker.next_local_bucket(8), 8);
    tracker.record_local(10, LocalNs::from_ns(0), TTL, &stakes);
    assert_eq!(tracker.next_local_bucket(30), 30);
    tracker.record_local(u64::MAX, LocalNs::from_ns(0), TTL, &stakes);
    assert_eq!(tracker.next_local_bucket(30), u64::MAX);
}

#[test]
fn lone_validator_recovers_at_once() {
    let (_, stakes, mut tracker) = cluster(&[7]);
    assert_eq!(
        tracker.record_local(1, LocalNs::from_ns(0), TTL, &stakes),
        PanicAction::Recover
    );
}

#[test]
fn thresholds_are_strict() {
    assert!(!has_fault_threshold(1, 3));
    assert!(has_fault_threshold(34, 100));
    assert!(!has_fault_threshold(33, 100));
    assert!(!has_supermajority(2, 3));
    assert!(has_supermajority(67, 100));
    assert!(!has_supermajority(66, 100));
    assert!(!has_fault_threshold(0, 0));
    assert!(!has_supermajority(5, 0));
    assert!(has_supermajority(u64::MAX, u64::MAX));
}

#[test]
fn thresholds_of_large_sums_are_strict() {
    assert!(exceeds_one_third(u128::MAX, u128::MAX));
    assert!(!exceeds_one_third(u128::MAX / 3, u128::MAX));
    assert!(exceeds_one_third(u128::MAX / 3 + 1, u128::MAX));
    assert!(!exceeds_two_thirds(u128::MAX / 3 * 2, u128::MAX));
    assert!(exceeds_two_thirds(u128::MAX / 3 * 2 + 1, u128::MAX));
    for total in 0u128..50 {
        for stake in 0..=total {
            assert_eq!(exceeds_one_third(stake, total), 3 * stake > total);
            assert_eq!(exceeds_two_thirds(stake, total), 3 * stake > 2 * total);
        }
    }
    assert!(!exceeds_one_third(1, 0));
    assert!(!exceeds_two_thirds(1, 0));
}

#[test]
fn stake_is_summed_exactly() {
    let (peers, stakes, _) = cluster(&[u64::MAX, 5, 7]);
    assert_eq!(sum_stake(&stakes, &stakes), u64::MAX as u128 + 12);
    let mut some: Stakes = Stakes::new();
    some.insert(peers[1], 0);
    some.insert(peers[2], 0);
    some.insert(peer_id(&Pubkey::new_unique()), 0);
    assert_eq!(sum_stake(&some, &stakes), 12);
}

#[test]
fn one_third_of_the_largest_stakes_does_nothing() {
    let (peers, stakes, mut tracker) = cluster(&[u64::MAX, u64::MAX, u64::MAX]);
    assert_eq!(
        tracker.on_panic(peers[0], 1, LocalNs::from_ns(0), TTL, &stakes),
        Ok(PanicAction::Nothing)
    );
    assert_eq!(
        tracker.on_panic(peers[1], 1, LocalNs::from_ns(0), TTL, &stakes),
        Ok(PanicAction::Amplify)
    );
    assert_eq!(
        tracker.on_panic(peers[2], 1, LocalNs::from_ns(0), TTL, &stakes),
        Ok(PanicAction::Recover)
    );
}

#[test]
fn stakes_that_grow_to_the_largest_keep_their_shares() {
    let (peers, stakes, mut tracker) = cluster(&[1, 1, 1]);
    let largest: Stakes = peers.iter().map(|peer| (*peer, u64::MAX)).collect();
    assert_eq!(
        tracker.on_panic(peers[0], 1, LocalNs::from_ns(0), 800, &stakes),
        Ok(PanicAction::Nothing)
    );
    assert_eq!(
        tracker.on_panic(peers[0], 1, LocalNs::from_ns(0), 800, &largest),
        Ok(PanicAction::Nothing)
    );
}

#[test]
fn repeating_the_panic_that_led_to_an_action_asks_for_nothing() {
    let (peers, stakes, mut tracker) = cluster(&[1, 1, 1]);
    let now = LocalNs::from_ns(0);
    let actions = [PanicAction::Nothing, PanicAction::Amplify, PanicAction::Recover];
    for (peer, action) in peers.iter().zip(actions) {
        assert_eq!(tracker.on_panic(*peer, 1, now, TTL, &stakes), Ok(action));
        assert_eq!(tracker.on_panic(*peer, 1, now, TTL, &stakes), Ok(PanicAction::Nothing));
    }
}

#[test]
fn evaluation_alone_goes_by_the_exact_shares() {
    let (peers, stakes, mut tracker) = cluster(&[1, 1, 1]);
    let largest: Stakes = peers.iter().map(|peer| (*peer, u64::MAX)).collect();
    assert_eq!(
        tracker.on_panic(peers[0], 1, LocalNs::from_ns(0), 800, &stakes),
        Ok(PanicAction::Nothing)
    );
    assert_eq!(tracker.evaluate(&largest), PanicAction::Nothing);
    let half: Stakes = [(peers[0], 2), (peers[1], 2)].into_iter().collect();
    assert_eq!(tracker.evaluate(&half), PanicAction::Amplify);
    assert_eq!(tracker.evaluate(&half), PanicAction::Nothing);
    let alone: Stakes = [(peers[0], 2)].into_iter().collect();
    assert_eq!(tracker.evaluate(&alone), PanicAction::Recover);
    assert_eq!(tracker.evaluate(&alone), PanicAction::Nothing);
    assert_eq!(tracker.evaluate(&Stakes::new()), PanicAction::Nothing);
}

#[test]
fn both_actions_come_again_once_support_has_fallen_away() {
    let (peers, stakes, mut tracker) = cluster(&[1, 1, 1]);
    let mut heard = |peer: usize, bucket: u64, ns: i64| {
        tracker.on_panic(peers[peer], bucket, LocalNs::from_ns(ns), TTL, &stakes)
    };
    for (bucket, ns) in [(1, 0), (2, 5_000), (3, 10_000)] {
        assert_eq!(heard(0, bucket, ns), Ok(PanicAction::Nothing));
        assert_eq!(heard(1, bucket, ns), Ok(PanicAction::Amplify));
        assert_eq!(heard(2, bucket, ns), Ok(PanicAction::Recover));
    }
}

#[test]
fn recording_is_what_a_received_panic_does() {
    let (peers, stakes, mut tracker) = cluster(&[1, 1, 1, 1]);
    let now = LocalNs::from_ns(0);
    assert_eq!(tracker.record(peers[1], 4, now, TTL, &stakes), Ok(PanicAction::Nothing));
    assert_eq!(tracker.record(peers[0], 6, now, TTL, &stakes), Ok(PanicAction::Amplify));
    assert_eq!(tracker.next_local_bucket(0), 7);
    assert_eq!(
        tracker.record(peers[1], 3, now, TTL, &stakes),
        Err(PanicReject::StaleBucket)
    );
}
