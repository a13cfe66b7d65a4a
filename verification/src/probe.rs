//! The gossip propagation probe: a passive participant of the peer network
//! that watches which peer relays which block or transaction, and when.
//!
//! The probe holds the state and decides which events a callback gives rise
//! to. Whoever owns the probe reads the clock, talks to the transport and
//! sends the events on.

use crate::cache::{delivery_of, noted, Delivery, MessageCache, Record};
use crate::hash::H256;
use crate::peers::{changed, LivePeers, PeerChange};
use crate::propagation::{
    crossed, elapsed, elapsed_since, percentile_crossed, HighLatencyEvent, MessageType,
    PeerCountSnapshot, PeerId, ProbeEvent, PropagationEvent,
};
use crate::wire::{
    parse_relay, parse_sync, relay_item, sync_item, DecodeError, RelayContent, RelayItem, SyncItem,
};
use vstd::prelude::*;

verus! {

broadcast use vstd::std_specs::hash::group_hash_axioms;

/// The limits by which the probe judges a delivery.
pub struct ProbeConfig {
    /// A first delivery by a peer this many milliseconds or more after the
    /// message was first seen counts as late.
    pub high_latency_ms: u64,
    /// The percentiles of peer coverage that are reported.
    pub percentiles: Vec<u32>,
}

impl Default for ProbeConfig {
    /// Eight seconds, and the percentiles 99, 95 and 80.
    fn default() -> (config: ProbeConfig)
        ensures
            config.high_latency_ms == 8000,
            config.percentiles@ == seq![99u32, 95u32, 80u32],
    {
        let mut percentiles: Vec<u32> = Vec::new();
        percentiles.push(99);
        percentiles.push(95);
        percentiles.push(80);
        assert(percentiles@ =~= seq![99u32, 95u32, 80u32]);
        ProbeConfig { high_latency_ms: 8000, percentiles }
    }
}

/// The protocol on which a payload arrived.
#[derive(Clone, Copy, Debug, PartialEq, Eq)]
pub enum Protocol {
    /// Block and transaction announcements.
    Relay,
    /// Block synchronisation.
    Sync,
    /// Any protocol that the probe does not watch.
    Other,
}

/// What the probe knows.
pub struct ProbeState {
    pub high_latency_ms: u64,
    pub percentiles: Seq<u32>,
    /// The peers that are connected.
    pub peers: Set<PeerId>,
    /// Deliveries of compact blocks, by header hash.
    pub compact_blocks: Map<H256, Record>,
    /// Deliveries of transactions, by transaction hash.
    pub transaction_hashes: Map<H256, Record>,
}

impl ProbeState {
    /// There are finitely many live peers, and finitely many peers have
    /// delivered any one message.
    pub open spec fn wf(self) -> bool {
        &&& self.peers.finite()
        &&& forall|hash: H256| #[trigger]
            self.compact_blocks.contains_key(hash)
                ==> self.compact_blocks[hash].delivering_peers.finite()
        &&& forall|hash: H256| #[trigger]
            self.transaction_hashes.contains_key(hash)
                ==> self.transaction_hashes[hash].delivering_peers.finite()
    }

    /// The late-delivery event of a delivery, if it gives rise to one.
    pub open spec fn high_latency(self, peer: PeerId, delivery: Delivery, now: u64) -> Option<
        HighLatencyEvent,
    > {
        if delivery.newly_inserted && elapsed(delivery.first_seen, now) >= self.high_latency_ms {
            Some(HighLatencyEvent { peer, time_interval: elapsed(delivery.first_seen, now) })
        } else {
            None
        }
    }

    /// The percentile event of a delivery, if it gives rise to one.
    pub open spec fn propagation(
        self,
        message_type: MessageType,
        delivery: Delivery,
        now: u64,
    ) -> Option<PropagationEvent> {
        if delivery.newly_inserted {
            match crossed(self.percentiles, delivery.peers_after as nat, self.peers.len()) {
                Some(percentile) => Some(
                    PropagationEvent {
                        message_type,
                        time_interval: elapsed(delivery.first_seen, now),
                        percentile,
                    },
                ),
                None => None,
            }
        } else {
            None
        }
    }

    /// The state after `peer` delivered the compact block `hash` at `now`.
    pub open spec fn block_delivered(self, peer: PeerId, hash: H256, now: u64) -> ProbeState {
        ProbeState { compact_blocks: noted(self.compact_blocks, hash, peer, now), ..self }
    }

    /// The events to which the delivery of the compact block `hash` by `peer`
    /// at `now` gives rise: the late delivery first, then the percentile.
    pub open spec fn block_events(self, peer: PeerId, hash: H256, now: u64) -> Seq<ProbeEvent> {
        let delivery = delivery_of(self.compact_blocks, hash, peer, now);
        let late = match self.high_latency(peer, delivery, now) {
            Some(event) => seq![ProbeEvent::HighLatency(event)],
            None => seq![],
        };
        let passed = match self.propagation(MessageType::CompactBlock, delivery, now) {
            Some(event) => seq![ProbeEvent::Propagation(event)],
            None => seq![],
        };
        late + passed
    }

    /// The state after `peer` delivered the transaction `hash` at `now`.
    pub open spec fn transaction_delivered(self, peer: PeerId, hash: H256, now: u64) -> ProbeState {
        ProbeState { transaction_hashes: noted(self.transaction_hashes, hash, peer, now), ..self }
    }

    /// The event to which the delivery of the transaction `hash` by `peer` at
    /// `now` gives rise, if any.
    pub open spec fn transaction_event(self, peer: PeerId, hash: H256, now: u64) -> Option<
        PropagationEvent,
    > {
        self.propagation(
            MessageType::TransactionHash,
            delivery_of(self.transaction_hashes, hash, peer, now),
            now,
        )
    }

    /// The state after `peer` delivered the transactions `hashes`, one after
    /// the other, at `now`.
    pub open spec fn transactions_delivered(self, peer: PeerId, hashes: Seq<H256>, now: u64)
        -> ProbeState
        decreases hashes.len(),
    {
        if hashes.len() == 0 {
            self
        } else {
            self.transactions_delivered(peer, hashes.drop_last(), now).transaction_delivered(
                peer,
                hashes.last(),
                now,
            )
        }
    }

    /// The events to which the delivery of the transactions `hashes` by
    /// `peer` at `now` gives rise, in the order of the hashes.
    pub open spec fn transaction_events(self, peer: PeerId, hashes: Seq<H256>, now: u64) -> Seq<
        ProbeEvent,
    >
        decreases hashes.len(),
    {
        if hashes.len() == 0 {
            seq![]
        } else {
            let before = self.transactions_delivered(peer, hashes.drop_last(), now);
            let earlier = self.transaction_events(peer, hashes.drop_last(), now);
            match before.transaction_event(peer, hashes.last(), now) {
                Some(event) => earlier.push(ProbeEvent::Propagation(event)),
                None => earlier,
            }
        }
    }

    /// The state after the relay message `item` arrived from `peer` at `now`.
    pub open spec fn relayed(self, peer: PeerId, item: RelayContent, now: u64) -> ProbeState {
        match item {
            RelayContent::CompactBlock(hash) => self.block_delivered(peer, hash, now),
            RelayContent::RelayTransactions(hashes) => self.transactions_delivered(
                peer,
                hashes,
                now,
            ),
            RelayContent::RelayTransactionHashes(hashes) => self.transactions_delivered(
                peer,
                hashes,
                now,
            ),
            RelayContent::GetRelayTransactions => self,
            RelayContent::GetBlockTransactions => self,
            RelayContent::BlockTransactions => self,
            RelayContent::GetBlockProposal => self,
            RelayContent::BlockProposal => self,
        }
    }

    /// The events to which the relay message `item` from `peer` at `now`
    /// gives rise.
    pub open spec fn relay_events(self, peer: PeerId, item: RelayContent, now: u64) -> Seq<
        ProbeEvent,
    > {
        match item {
            RelayContent::CompactBlock(hash) => self.block_events(peer, hash, now),
            RelayContent::RelayTransactions(hashes) => self.transaction_events(peer, hashes, now),
            RelayContent::RelayTransactionHashes(hashes) => self.transaction_events(
                peer,
                hashes,
                now,
            ),
            RelayContent::GetRelayTransactions => seq![],
            RelayContent::GetBlockTransactions => seq![],
            RelayContent::BlockTransactions => seq![],
            RelayContent::GetBlockProposal => seq![],
            RelayContent::BlockProposal => seq![],
        }
    }
}

/// The probe: the live peers, and for each kind of message which peers have
/// delivered which message.
pub struct NetworkProbe {
    config: ProbeConfig,
    peers: LivePeers,
    compact_blocks: MessageCache,
    transaction_hashes: MessageCache,
}

impl View for NetworkProbe {
    type V = ProbeState;

    closed spec fn view(&self) -> ProbeState {
        ProbeState {
            high_latency_ms: self.config.high_latency_ms,
            percentiles: self.config.percentiles@,
            peers: self.peers@,
            compact_blocks: self.compact_blocks@,
            transaction_hashes: self.transaction_hashes@,
        }
    }
}

impl NetworkProbe {
    /// Whatever the probe has seen, it knows finitely many live peers, and
    /// of any one message finitely many peers that have delivered it. So
    /// every count that the probe reports is a number of distinct peers: a
    /// peer that joins raises the count by one, one that leaves lowers it
    /// by one.
    pub proof fn lemma_finite(&self)
        ensures
            self@.wf(),
    {
        self.peers.lemma_finite();
        assert forall|hash: H256| #[trigger]
            self@.compact_blocks.contains_key(hash) implies self@.compact_blocks[hash].delivering_peers.finite() by {
            self.compact_blocks.lemma_finite(hash);
        }
        assert forall|hash: H256| #[trigger]
            self@.transaction_hashes.contains_key(
                hash,
            ) implies self@.transaction_hashes[hash].delivering_peers.finite() by {
            self.transaction_hashes.lemma_finite(hash);
        }
    }

    /// A probe with no peer and no message seen.
    pub fn new(config: ProbeConfig) -> (probe: NetworkProbe)
        ensures
            probe@.wf(),
            probe@ == (ProbeState {
                high_latency_ms: config.high_latency_ms,
                percentiles: config.percentiles@,
                peers: Set::<PeerId>::empty(),
                compact_blocks: Map::<H256, Record>::empty(),
                transaction_hashes: Map::<H256, Record>::empty(),
            }),
    {
        let probe = NetworkProbe {
            config,
            peers: LivePeers::new(),
            compact_blocks: MessageCache::new(),
            transaction_hashes: MessageCache::new(),
        };
        proof {
            probe.lemma_finite();
        }
        probe
    }

    /// The number of live peers.
    pub fn peers_total(&self) -> (snapshot: PeerCountSnapshot)
        ensures
            self@.peers.finite(),
            snapshot.peers_total == self@.peers.len(),
    {
        proof {
            self.lemma_finite();
        }
        PeerCountSnapshot { peers_total: self.peers.len() }
    }

    /// A peer connected: it joins the live peers, and the new count is
    /// reported. The count is one more than before, unless the peer was
    /// live already.
    pub fn connected(&mut self, peer: PeerId) -> (snapshot: PeerCountSnapshot)
        ensures
            final(self)@ == (ProbeState { peers: old(self)@.peers.insert(peer), ..old(self)@ }),
            old(self)@.wf(),
            final(self)@.wf(),
            snapshot.peers_total == final(self)@.peers.len(),
            snapshot.peers_total == if old(self)@.peers.contains(peer) {
                old(self)@.peers.len()
            } else {
                old(self)@.peers.len() + 1
            },
    {
        self.peer_changed(PeerChange::Connected(peer))
    }

    /// A peer disconnected: it leaves the live peers, and the new count is
    /// reported. The count is one less than before, unless the peer was not
    /// live. What the peer has delivered stays on record.
    pub fn disconnected(&mut self, peer: PeerId) -> (snapshot: PeerCountSnapshot)
        ensures
            final(self)@ == (ProbeState { peers: old(self)@.peers.remove(peer), ..old(self)@ }),
            old(self)@.wf(),
            final(self)@.wf(),
            snapshot.peers_total == final(self)@.peers.len(),
            snapshot.peers_total == if old(self)@.peers.contains(peer) {
                old(self)@.peers.len() - 1
            } else {
                old(self)@.peers.len() as int
            },
    {
        self.peer_changed(PeerChange::Disconnected(peer))
    }

    /// One transition of a peer's connection: the peer joins or leaves the
    /// live peers, and the new count is reported.
    pub fn peer_changed(&mut self, change: PeerChange) -> (snapshot: PeerCountSnapshot)
        ensures
            final(self)@ == (ProbeState { peers: changed(old(self)@.peers, change), ..old(self)@ }),
            old(self)@.wf(),
            final(self)@.wf(),
            snapshot.peers_total == final(self)@.peers.len(),
    {
        proof {
            self.lemma_finite();
        }
        self.peers.apply(change);
        proof {
            self.lemma_finite();
        }
        self.peers_total()
    }

    /// The late-delivery event of a delivery: `Some` if the peer delivered
    /// the message for the first time and did so the configured time or more
    /// after the message was first seen.
    pub fn high_latency_event(&self, peer: PeerId, delivery: &Delivery, now: u64) -> (event: Option<
        HighLatencyEvent,
    >)
        ensures
            event == self@.high_latency(peer, *delivery, now),
    {
        if !delivery.newly_inserted {
            return None;
        }
        let time_interval = elapsed_since(delivery.first_seen, now);
        if time_interval < self.config.high_latency_ms {
            return None;
        }
        Some(HighLatencyEvent { peer, time_interval })
    }

    /// The percentile event of a delivery: `Some` if the peer delivered the
    /// message for the first time and the share of live peers that have
    /// delivered it thereby passed one of the configured percentiles.
    pub fn propagation_event(&self, message_type: MessageType, delivery: &Delivery, now: u64) -> (event:
        Option<PropagationEvent>)
        ensures
            event == self@.propagation(message_type, *delivery, now),
    {
        if !delivery.newly_inserted {
            return None;
        }
        let peers_total = self.peers.len();
        match percentile_crossed(&self.config.percentiles, delivery.peers_after, peers_total) {
            Some(percentile) => Some(
                PropagationEvent {
                    message_type,
                    time_interval: elapsed_since(delivery.first_seen, now),
                    percentile,
                },
            ),
            None => None,
        }
    }

    /// `peer` announced the compact block with header hash `hash` at `now`.
    pub fn received_compact_block(&mut self, peer: PeerId, hash: H256, now: u64) -> (events: Vec<
        ProbeEvent,
    >)
        ensures
            final(self)@ == old(self)@.block_delivered(peer, hash, now),
            events@ == old(self)@.block_events(peer, hash, now),
            old(self)@.wf(),
            final(self)@.wf(),
    {
        proof {
            self.lemma_finite();
        }
        let delivery = self.compact_blocks.note(hash, peer, now);
        proof {
            self.lemma_finite();
        }
        let mut events: Vec<ProbeEvent> = Vec::new();
        if let Some(event) = self.high_latency_event(peer, &delivery, now) {
            events.push(ProbeEvent::HighLatency(event));
        }
        if let Some(event) = self.propagation_event(MessageType::CompactBlock, &delivery, now) {
            events.push(ProbeEvent::Propagation(event));
        }
        assert(events@ =~= old(self)@.block_events(peer, hash, now));
        events
    }

    /// `peer` relayed or announced the transaction with hash `hash` at `now`.
    pub fn received_transaction_hash(&mut self, peer: PeerId, hash: H256, now: u64) -> (event:
        Option<PropagationEvent>)
        ensures
            final(self)@ == old(self)@.transaction_delivered(peer, hash, now),
            event == old(self)@.transaction_event(peer, hash, now),
            old(self)@.wf(),
            final(self)@.wf(),
    {
        proof {
            self.lemma_finite();
        }
        let delivery = self.transaction_hashes.note(hash, peer, now);
        proof {
            self.lemma_finite();
        }
        self.propagation_event(MessageType::TransactionHash, &delivery, now)
    }

    /// `peer` relayed or announced the transactions with the hashes `hashes`
    /// in one message at `now`.
    pub fn received_transaction_hashes(&mut self, peer: PeerId, hashes: &Vec<H256>, now: u64) -> (events:
        Vec<ProbeEvent>)
        ensures
            final(self)@ == old(self)@.transactions_delivered(peer, hashes@, now),
            events@ == old(self)@.transaction_events(peer, hashes@, now),
    {
        let mut events: Vec<ProbeEvent> = Vec::new();
        let mut i: usize = 0;
        while i < hashes.len()
            invariant
                i <= hashes.len(),
                self@ == old(self)@.transactions_delivered(peer, hashes@.take(i as int), now),
                events@ == old(self)@.transaction_events(peer, hashes@.take(i as int), now),
            decreases hashes.len() - i,
        {
            assert(hashes@.take(i + 1).drop_last() =~= hashes@.take(i as int));
            if let Some(event) = self.received_transaction_hash(peer, hashes[i], now) {
                events.push(ProbeEvent::Propagation(event));
            }
            i += 1;
        }
        assert(hashes@.take(i as int) =~= hashes@);
        events
    }

    /// `peer` sent a full block on the sync protocol. Full blocks are
    /// received and not measured: nothing changes.
    pub fn received_send_block(&mut self, peer: PeerId)
        ensures
            final(self)@ == old(self)@,
    {
    }

    /// A decoded message of the relay protocol arrived from `peer` at `now`.
    pub fn received_relay_item(&mut self, peer: PeerId, item: &RelayItem, now: u64) -> (events: Vec<
        ProbeEvent,
    >)
        ensures
            final(self)@ == old(self)@.relayed(peer, item@, now),
            events@ == old(self)@.relay_events(peer, item@, now),
    {
        match item {
            RelayItem::CompactBlock(hash) => self.received_compact_block(peer, *hash, now),
            RelayItem::RelayTransactions(hashes) => self.received_transaction_hashes(
                peer,
                hashes,
                now,
            ),
            RelayItem::RelayTransactionHashes(hashes) => self.received_transaction_hashes(
                peer,
                hashes,
                now,
            ),
            RelayItem::GetRelayTransactions => Vec::new(),
            RelayItem::GetBlockTransactions => Vec::new(),
            RelayItem::BlockTransactions => Vec::new(),
            RelayItem::GetBlockProposal => Vec::new(),
            RelayItem::BlockProposal => Vec::new(),
        }
    }

    /// A payload of the relay protocol arrived from `peer` at `now`.
    ///
    /// A payload that is no well-formed relay message is refused and changes
    /// nothing. Of a well-formed one, a compact block counts as a delivery of
    /// that block, and each transaction or transaction hash as a delivery of
    /// that transaction.
    pub fn received_relay(&mut self, peer: PeerId, data: &[u8], now: u64) -> (result: Result<
        Vec<ProbeEvent>,
        DecodeError,
    >)
        ensures
            match relay_item(data@) {
                Some(item) => {
                    &&& result is Ok
                    &&& final(self)@ == old(self)@.relayed(peer, item, now)
                    &&& result.unwrap()@ == old(self)@.relay_events(peer, item, now)
                },
                None => result == Err::<Vec<ProbeEvent>, DecodeError>(DecodeError::MalformedRelay)
                    && final(self)@ == old(self)@,
            },
    {
        match parse_relay(data) {
            Ok(item) => Ok(self.received_relay_item(peer, &item, now)),
            Err(_) => Err(DecodeError::MalformedRelay),
        }
    }

    /// A payload arrived from `peer` at `now` on the protocol `protocol`.
    ///
    /// A payload of the relay protocol is handled as `received_relay` does,
    /// one of the sync protocol as `received_sync` does, and one of any other
    /// protocol is left alone.
    pub fn received(&mut self, protocol: Protocol, peer: PeerId, data: &[u8], now: u64) -> (result:
        Result<Vec<ProbeEvent>, DecodeError>)
        ensures
            match protocol {
                Protocol::Relay => match relay_item(data@) {
                    Some(item) => {
                        &&& result is Ok
                        &&& final(self)@ == old(self)@.relayed(peer, item, now)
                        &&& result.unwrap()@ == old(self)@.relay_events(peer, item, now)
                    },
                    None => result == Err::<Vec<ProbeEvent>, DecodeError>(
                        DecodeError::MalformedRelay,
                    ) && final(self)@ == old(self)@,
                },
                Protocol::Sync => {
                    &&& final(self)@ == old(self)@
                    &&& match sync_item(data@) {
                        Some(_) => result is Ok && result.unwrap()@ == Seq::<ProbeEvent>::empty(),
                        None => result == Err::<Vec<ProbeEvent>, DecodeError>(
                            DecodeError::MalformedSync,
                        ),
                    }
                },
                Protocol::Other => {
                    &&& final(self)@ == old(self)@
                    &&& result is Ok
                    &&& result.unwrap()@ == Seq::<ProbeEvent>::empty()
                },
            },
    {
        match protocol {
            Protocol::Relay => self.received_relay(peer, data, now),
            Protocol::Sync => match self.received_sync(peer, data) {
                Ok(()) => Ok(Vec::new()),
                Err(error) => Err(error),
            },
            Protocol::Other => Ok(Vec::new()),
        }
    }

    /// A payload of the sync protocol arrived from `peer`.
    ///
    /// A payload that is no well-formed sync message is refused. A
    /// well-formed one changes nothing, whatever its kind.
    pub fn received_sync(&mut self, peer: PeerId, data: &[u8]) -> (result: Result<(), DecodeError>)
        ensures
            final(self)@ == old(self)@,
            result == match sync_item(data@) {
                Some(_) => Ok::<(), DecodeError>(()),
                None => Err::<(), DecodeError>(DecodeError::MalformedSync),
            },
    {
        match parse_sync(data) {
            Ok(item) => {
                match item {
                    SyncItem::SendBlock => self.received_send_block(peer),
                    SyncItem::GetHeaders => {},
                    SyncItem::SendHeaders => {},
                    SyncItem::GetBlocks => {},
                    SyncItem::InIBD => {},
                }
                Ok(())
            },
            Err(_) => Err(DecodeError::MalformedSync),
        }
    }
}

} // verus!
