//! What a history of connects and disconnects leaves of the live peer set.

use crate::propagation::PeerId;
use std::collections::HashSet;
use vstd::prelude::*;

verus! {

broadcast use vstd::std_specs::hash::group_hash_axioms;

/// The peers that are connected. There are finitely many of them.
pub struct LivePeers {
    peers: HashSet<PeerId>,
}

impl View for LivePeers {
    type V = Set<PeerId>;

    /// The peers held. The set held is always finite; the view is written so
    /// that this shows for every value.
    closed spec fn view(&self) -> Set<PeerId> {
        if self.peers@.finite() {
            self.peers@
        } else {
            Set::empty()
        }
    }
}

impl LivePeers {
    #[verifier::type_invariant]
    spec fn inv(self) -> bool {
        self.peers@.finite()
    }

    /// There are finitely many live peers.
    pub proof fn lemma_finite(&self)
        ensures
            self@.finite(),
    {
    }

    /// No peer.
    pub fn new() -> (live: LivePeers)
        ensures
            live@ == Set::<PeerId>::empty(),
            live@.finite(),
    {
        LivePeers { peers: HashSet::new() }
    }

    /// The number of live peers.
    pub fn len(&self) -> (n: usize)
        ensures
            n == self@.len(),
    {
        proof {
            use_type_invariant(self);
        }
        self.peers.len()
    }

    /// Applies one change: a peer that connects joins the set if it is not
    /// in it, and a peer that disconnects leaves it if it is in it.
    pub fn apply(&mut self, change: PeerChange)
        ensures
            final(self)@ == changed(old(self)@, change),
    {
        proof {
            use_type_invariant(&*self);
        }
        let mut peers: HashSet<PeerId> = HashSet::new();
        std::mem::swap(&mut self.peers, &mut peers);
        match change {
            PeerChange::Connected(peer) => {
                peers.insert(peer);
            },
            PeerChange::Disconnected(peer) => {
                peers.remove(&peer);
            },
        }
        std::mem::swap(&mut self.peers, &mut peers);
    }
}

/// One transition of a peer's connection.
#[derive(Clone, Copy, Debug, PartialEq, Eq)]
pub enum PeerChange {
    Connected(PeerId),
    Disconnected(PeerId),
}

impl PeerChange {
    /// The peer that the change is about.
    pub open spec fn peer(self) -> PeerId {
        match self {
            PeerChange::Connected(peer) => peer,
            PeerChange::Disconnected(peer) => peer,
        }
    }
}

/// The live peers after one change.
pub open spec fn changed(peers: Set<PeerId>, change: PeerChange) -> Set<PeerId> {
    match change {
        PeerChange::Connected(peer) => peers.insert(peer),
        PeerChange::Disconnected(peer) => peers.remove(peer),
    }
}

/// The live peers after the changes `changes`, applied in order to `peers`.
pub open spec fn peers_after(peers: Set<PeerId>, changes: Seq<PeerChange>) -> Set<PeerId>
    decreases changes.len(),
{
    if changes.len() == 0 {
        peers
    } else {
        changed(peers_after(peers, changes.drop_last()), changes.last())
    }
}

/// The peer counts reported while `changes` are applied in order to `peers`:
/// one after each change.
pub open spec fn counts_after(peers: Set<PeerId>, changes: Seq<PeerChange>) -> Seq<nat>
    decreases changes.len(),
{
    if changes.len() == 0 {
        seq![]
    } else {
        counts_after(peers, changes.drop_last()).push(peers_after(peers, changes).len())
    }
}

/// The last change in `changes` that is about `peer`, if there is one.
pub open spec fn last_change(changes: Seq<PeerChange>, peer: PeerId) -> Option<PeerChange>
    decreases changes.len(),
{
    if changes.len() == 0 {
        None
    } else if changes.last().peer() == peer {
        Some(changes.last())
    } else {
        last_change(changes.drop_last(), peer)
    }
}

/// After any history of connects and disconnects the live peers are the net
/// effect of the history: a peer is live exactly if its last change was a
/// connect, or if nothing changed for it and it was live before.
pub proof fn lemma_live_peers_are_net_effect(
    peers: Set<PeerId>,
    changes: Seq<PeerChange>,
    peer: PeerId,
)
    ensures
        peers_after(peers, changes).contains(peer) == match last_change(changes, peer) {
            Some(PeerChange::Connected(_)) => true,
            Some(PeerChange::Disconnected(_)) => false,
            None => peers.contains(peer),
        },
    decreases changes.len(),
{
    if changes.len() > 0 {
        lemma_live_peers_are_net_effect(peers, changes.drop_last(), peer);
    }
}

/// Each change is followed by exactly one count, and that count is the
/// number of peers live after the change.
pub proof fn lemma_one_count_per_change(peers: Set<PeerId>, changes: Seq<PeerChange>)
    ensures
        counts_after(peers, changes).len() == changes.len(),
        forall|i: int|
            0 <= i < changes.len() ==> #[trigger] counts_after(peers, changes)[i] == peers_after(
                peers,
                changes.take(i + 1),
            ).len(),
    decreases changes.len(),
{
    if changes.len() > 0 {
        let front = changes.drop_last();
        lemma_one_count_per_change(peers, front);
        assert forall|i: int| 0 <= i < changes.len() implies #[trigger] counts_after(
            peers,
            changes,
        )[i] == peers_after(peers, changes.take(i + 1)).len() by {
            if i < front.len() {
                assert(front.take(i + 1) =~= changes.take(i + 1));
            } else {
                assert(changes.take(i + 1) =~= changes);
            }
        }
    }
}

/// A history of changes keeps a finite peer set finite, so that every count
/// is the number of distinct live peers.
pub proof fn lemma_live_peers_stay_finite(peers: Set<PeerId>, changes: Seq<PeerChange>)
    requires
        peers.finite(),
    ensures
        peers_after(peers, changes).finite(),
    decreases changes.len(),
{
    if changes.len() > 0 {
        lemma_live_peers_stay_finite(peers, changes.drop_last());
    }
}

} // verus!
