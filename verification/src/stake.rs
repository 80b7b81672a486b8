//! Stake held by the peers of the current epoch.
use crate::peer::PeerId;
use std::collections::BTreeMap;
use vstd::prelude::*;

verus! {

/// Stake of every staked peer of the current epoch.
pub type Stakes = BTreeMap<PeerId, u64>;

/// Stake of one peer; a peer that is not listed holds none.
pub open spec fn stake_of(stakes: Map<PeerId, u64>, peer: PeerId) -> nat {
    if stakes.contains_key(peer) {
        stakes[peer] as nat
    } else {
        0
    }
}

pub open spec fn add_stake(stakes: Map<PeerId, u64>) -> spec_fn(nat, PeerId) -> nat {
    |sum: nat, peer: PeerId| sum + stake_of(stakes, peer)
}

/// Stake that the peers of a finite set hold together.
pub open spec fn stake_sum(stakes: Map<PeerId, u64>, peers: Set<PeerId>) -> nat {
    peers.fold(0, add_stake(stakes))
}

/// Stake of the whole epoch.
pub open spec fn total_stake(stakes: Map<PeerId, u64>) -> nat {
    stake_sum(stakes, stakes.dom())
}

proof fn lemma_add_stake_commutes(stakes: Map<PeerId, u64>)
    ensures
        vstd::set::fold::is_fun_commutative(add_stake(stakes)),
{
}

/// No peers hold no stake.
pub proof fn lemma_stake_sum_empty(stakes: Map<PeerId, u64>)
    ensures
        stake_sum(stakes, Set::empty()) == 0,
{
    vstd::set::fold::lemma_fold_empty::<PeerId, nat>(0, add_stake(stakes));
}

/// One more peer adds exactly its own stake.
pub proof fn lemma_stake_sum_insert(stakes: Map<PeerId, u64>, peers: Set<PeerId>, peer: PeerId)
    requires
        peers.finite(),
        !peers.contains(peer),
    ensures
        stake_sum(stakes, peers.insert(peer)) == stake_sum(stakes, peers) + stake_of(stakes, peer),
{
    lemma_add_stake_commutes(stakes);
    vstd::set::fold::lemma_fold_insert::<PeerId, nat>(peers, 0, add_stake(stakes), peer);
}

/// More peers hold at least as much stake.
pub proof fn lemma_stake_sum_monotone(
    stakes: Map<PeerId, u64>,
    fewer: Set<PeerId>,
    more: Set<PeerId>,
)
    requires
        more.finite(),
        fewer.subset_of(more),
    ensures
        stake_sum(stakes, fewer) <= stake_sum(stakes, more),
    decreases more.len(),
{
    if fewer == more {
    } else {
        assert(!(fewer =~= more));
        let peer = choose|peer: PeerId| more.contains(peer) && !fewer.contains(peer);
        lemma_stake_sum_monotone(stakes, fewer, more.remove(peer));
        lemma_stake_sum_insert(stakes, more.remove(peer), peer);
        assert(more.remove(peer).insert(peer) =~= more);
    }
}

/// Peers without stake do not count.
pub proof fn lemma_stake_sum_ignores_unstaked(stakes: Map<PeerId, u64>, peers: Set<PeerId>)
    requires
        peers.finite(),
    ensures
        stake_sum(stakes, peers) == stake_sum(stakes, peers.intersect(stakes.dom())),
    decreases peers.len(),
{
    let staked = peers.intersect(stakes.dom());
    if peers.is_empty() {
        assert(staked =~= peers);
    } else {
        let peer = peers.choose();
        let rest = peers.remove(peer);
        lemma_stake_sum_ignores_unstaked(stakes, rest);
        lemma_stake_sum_insert(stakes, rest, peer);
        assert(rest.insert(peer) =~= peers);
        if stakes.contains_key(peer) {
            lemma_stake_sum_insert(stakes, rest.intersect(stakes.dom()), peer);
            assert(rest.intersect(stakes.dom()).insert(peer) =~= staked);
        } else {
            assert(rest.intersect(stakes.dom()) =~= staked);
        }
    }
}

/// No group of peers holds more than the stake of the epoch.
pub proof fn lemma_stake_sum_at_most_total(stakes: Map<PeerId, u64>, peers: Set<PeerId>)
    requires
        peers.finite(),
        stakes.dom().finite(),
    ensures
        stake_sum(stakes, peers) <= total_stake(stakes),
{
    lemma_stake_sum_ignores_unstaked(stakes, peers);
    lemma_stake_sum_monotone(stakes, peers.intersect(stakes.dom()), stakes.dom());
}

/// No peer holds more than `u64::MAX`, so a group holds at most that much for each of its peers.
pub proof fn lemma_stake_sum_bound(stakes: Map<PeerId, u64>, peers: Set<PeerId>)
    requires
        peers.finite(),
    ensures
        stake_sum(stakes, peers) <= peers.len() * u64::MAX,
    decreases peers.len(),
{
    if peers.is_empty() {
        assert(peers =~= Set::empty());
        lemma_stake_sum_empty(stakes);
    } else {
        let peer = peers.choose();
        let rest = peers.remove(peer);
        lemma_stake_sum_bound(stakes, rest);
        lemma_stake_sum_insert(stakes, rest, peer);
        assert(rest.insert(peer) =~= peers);
    }
}

/// Stake of the peers that `peers` lists.
pub fn sum_stake<V>(peers: &BTreeMap<PeerId, V>, stakes: &Stakes) -> (sum: u128)
    ensures
        sum == stake_sum(stakes@, peers@.dom()),
{
    let mut sum: u128 = 0;
    let ghost mut seen: Set<PeerId> = Set::empty();
    let count: usize = peers.len();
    proof {
        lemma_stake_sum_empty(stakes@);
    }
    for peer in it: peers.keys()
        invariant
            seen.finite(),
            count == peers@.dom().len(),
            it.seq().len() == count,
            it.seq().unref().to_set() == peers@.dom(),
            it.seq().no_duplicates(),
            seen == it.seq().unref().take(it.index()).to_set(),
            seen.len() == it.index(),
            it.index() == it.seq().len() ==> seen == peers@.dom(),
            sum == stake_sum(stakes@, seen),
    {
        let stake: u64 = match stakes.get(peer) {
            Some(stake) => *stake,
            None => 0,
        };
        proof {
            let keys = it.seq().unref();
            assert(keys[it.index()] == *peer);
            if seen.contains(*peer) {
                let i = choose|i: int| 0 <= i < it.index() && keys.take(it.index())[i] == *peer;
                assert(it.seq()[i] == it.seq()[it.index()]);
            }
            lemma_stake_sum_insert(stakes@, seen, *peer);
            assert(keys.take(it.index() + 1) =~= keys.take(it.index()).push(*peer));
            keys.take(it.index()).lemma_push_to_set_commute(*peer);
            seen = seen.insert(*peer);
            assert(keys.take(keys.len() as int) =~= keys);
            lemma_stake_sum_bound(stakes@, seen);
        }
        sum = sum + stake as u128;
    }
    sum
}

/// A group of peers together with one more holds what the epoch lists for that one on top of what
/// the group holds, and no more where it lists nothing; nobody holds nothing.
pub proof fn stake_adds_up(stakes: Map<PeerId, u64>, peers: Set<PeerId>, peer: PeerId)
    requires
        peers.finite(),
        !peers.contains(peer),
    ensures
        stake_sum(stakes, Set::empty()) == 0,
        stakes.contains_key(peer) ==> stake_sum(stakes, peers.insert(peer)) == stake_sum(
            stakes,
            peers,
        ) + stakes[peer],
        !stakes.contains_key(peer) ==> stake_sum(stakes, peers.insert(peer)) == stake_sum(
            stakes,
            peers,
        ),
{
    lemma_stake_sum_empty(stakes);
    lemma_stake_sum_insert(stakes, peers, peer);
}

proof fn lemma_stake_sum_reads_only_its_peers(
    stakes: Map<PeerId, u64>,
    newcomer: PeerId,
    stake: u64,
    peers: Set<PeerId>,
)
    requires
        peers.finite(),
        !peers.contains(newcomer),
    ensures
        stake_sum(stakes.insert(newcomer, stake), peers) == stake_sum(stakes, peers),
    decreases peers.len(),
{
    let more = stakes.insert(newcomer, stake);
    if peers.is_empty() {
        assert(peers =~= Set::empty());
        lemma_stake_sum_empty(stakes);
        lemma_stake_sum_empty(more);
    } else {
        let peer = peers.choose();
        let rest = peers.remove(peer);
        lemma_stake_sum_reads_only_its_peers(stakes, newcomer, stake, rest);
        lemma_stake_sum_insert(stakes, rest, peer);
        lemma_stake_sum_insert(more, rest, peer);
        assert(rest.insert(peer) =~= peers);
    }
}

/// An epoch that lists a peer more has that peer's stake more, and an epoch that lists nobody has
/// none.
pub proof fn total_counts_every_peer(stakes: Map<PeerId, u64>, newcomer: PeerId, stake: u64)
    requires
        stakes.dom().finite(),
        !stakes.contains_key(newcomer),
    ensures
        total_stake(Map::empty()) == 0,
        total_stake(stakes.insert(newcomer, stake)) == total_stake(stakes) + stake,
{
    let nobody = Map::<PeerId, u64>::empty();
    let more = stakes.insert(newcomer, stake);
    assert(nobody.dom() =~= Set::empty());
    lemma_stake_sum_empty(nobody);
    assert(more.dom() =~= stakes.dom().insert(newcomer));
    lemma_stake_sum_insert(more, stakes.dom(), newcomer);
    lemma_stake_sum_reads_only_its_peers(stakes, newcomer, stake, stakes.dom());
}

} // verus!
