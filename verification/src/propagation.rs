//! The rules by which a delivery of a message turns into metric events: when
//! the share of peers that have relayed a message passes a percentile, and
//! when a peer relays a message long after it was first seen.

use vstd::prelude::*;

verus! {

/// Handle of a connected peer, as the transport assigned it.
pub type PeerId = u64;

/// The kind of message whose spread is measured.
#[derive(Clone, Copy, Debug, PartialEq, Eq, Structural)]
pub enum MessageType {
    CompactBlock,
    TransactionHash,
}

/// The share of live peers that have relayed a message has passed a percentile.
#[derive(Clone, Copy, Debug, PartialEq, Eq)]
pub struct PropagationEvent {
    pub message_type: MessageType,
    /// Milliseconds since the message was first seen.
    pub time_interval: u64,
    /// The percentile that was passed.
    pub percentile: u32,
}

/// A peer relayed a message long after it was first seen.
#[derive(Clone, Copy, Debug, PartialEq, Eq)]
pub struct HighLatencyEvent {
    pub peer: PeerId,
    /// Milliseconds since the message was first seen.
    pub time_interval: u64,
}

/// The number of live peers after a peer connected or disconnected.
#[derive(Clone, Copy, Debug, PartialEq, Eq)]
pub struct PeerCountSnapshot {
    pub peers_total: usize,
}

/// A metric event that the delivery of a message gives rise to.
#[derive(Clone, Copy, Debug, PartialEq, Eq)]
pub enum ProbeEvent {
    Propagation(PropagationEvent),
    HighLatency(HighLatencyEvent),
}

impl MessageType {
    /// The name under which the kind of message is reported.
    pub fn name(&self) -> (name: &'static str)
        ensures
            name@ == match *self {
                MessageType::CompactBlock => "compact_block"@,
                MessageType::TransactionHash => "transaction_hash"@,
            },
    {
        match self {
            MessageType::CompactBlock => "compact_block",
            MessageType::TransactionHash => "transaction_hash",
        }
    }
}

/// Milliseconds from `first_seen` to `now`; zero if `now` is the earlier.
pub open spec fn elapsed(first_seen: u64, now: u64) -> u64 {
    if now >= first_seen {
        (now - first_seen) as u64
    } else {
        0
    }
}

/// Milliseconds from `first_seen` to `now` on a clock that does not run
/// backwards; zero if `now` is the earlier of the two.
pub fn elapsed_since(first_seen: u64, now: u64) -> (interval: u64)
    ensures
        interval == elapsed(first_seen, now),
{
    if now >= first_seen {
        now - first_seen
    } else {
        0
    }
}

/// Whether a delivery that makes `peers_after` of `peers_total` peers passes
/// the percentile `threshold`: the share of peers was below it before the
/// delivery and is at or above it after.
pub open spec fn passes(threshold: u32, peers_after: nat, peers_total: nat) -> bool {
    &&& peers_total > 0
    &&& peers_after > 0
    &&& (peers_after - 1) * 100 < threshold * peers_total
    &&& threshold * peers_total <= peers_after * 100
}

/// While the number of live peers stays the same, a message passes a
/// percentile at most once: if the delivery that made `earlier` peers passed
/// it, no delivery that makes more peers passes it again.
pub proof fn lemma_threshold_passed_once(
    threshold: u32,
    earlier: nat,
    later: nat,
    peers_total: nat,
)
    requires
        earlier < later,
        passes(threshold, earlier, peers_total),
    ensures
        !passes(threshold, later, peers_total),
{
}

/// The percentile that a delivery reports: the greatest of `thresholds` that
/// it passes, or `None` if it passes none.
pub open spec fn crossed(thresholds: Seq<u32>, peers_after: nat, peers_total: nat) -> Option<u32>
    decreases thresholds.len(),
{
    if thresholds.len() == 0 {
        None
    } else {
        let earlier = crossed(thresholds.drop_last(), peers_after, peers_total);
        let threshold = thresholds.last();
        if passes(threshold, peers_after, peers_total) && (earlier is None || earlier.unwrap()
            < threshold) {
            Some(threshold)
        } else {
            earlier
        }
    }
}

/// The reported percentile is one of the thresholds, is passed, and no
/// greater threshold is passed; nothing is reported only if none is passed.
pub proof fn lemma_crossed_is_greatest(thresholds: Seq<u32>, peers_after: nat, peers_total: nat)
    ensures
        match crossed(thresholds, peers_after, peers_total) {
            Some(threshold) => {
                &&& thresholds.contains(threshold)
                &&& passes(threshold, peers_after, peers_total)
                &&& forall|i: int|
                    0 <= i < thresholds.len() && passes(
                        #[trigger] thresholds[i],
                        peers_after,
                        peers_total,
                    ) ==> thresholds[i] <= threshold
            },
            None => forall|i: int|
                0 <= i < thresholds.len() ==> !passes(
                    #[trigger] thresholds[i],
                    peers_after,
                    peers_total,
                ),
        },
    decreases thresholds.len(),
{
    if thresholds.len() > 0 {
        let front = thresholds.drop_last();
        lemma_crossed_is_greatest(front, peers_after, peers_total);
        assert forall|i: int| 0 <= i < front.len() implies front[i] == thresholds[i] by {}
        match crossed(thresholds, peers_after, peers_total) {
            Some(threshold) => {
                if crossed(front, peers_after, peers_total) == Some(threshold) {
                    let i = choose|i: int| 0 <= i < front.len() && front[i] == threshold;
                    assert(thresholds[i] == threshold);
                } else {
                    assert(thresholds[thresholds.len() - 1] == threshold);
                }
            },
            None => {},
        }
    }
}

/// With no live peer no percentile is reported.
pub proof fn lemma_nothing_crossed_without_peers(thresholds: Seq<u32>, peers_after: nat)
    ensures
        crossed(thresholds, peers_after, 0) is None,
    decreases thresholds.len(),
{
    if thresholds.len() > 0 {
        lemma_nothing_crossed_without_peers(thresholds.drop_last(), peers_after);
    }
}

/// Whether one delivery passes one percentile.
pub fn passes_threshold(threshold: u32, peers_after: usize, peers_total: usize) -> (r: bool)
    ensures
        r == passes(threshold, peers_after as nat, peers_total as nat),
{
    if peers_total == 0 || peers_after == 0 {
        return false;
    }
    let after: u128 = peers_after as u128;
    let total: u128 = peers_total as u128;
    let mark: u128 = threshold as u128;
    assert(mark * total <= 0x1_0000_0000 * 0x1_0000_0000_0000_0000) by (nonlinear_arith)
        requires
            mark < 0x1_0000_0000,
            total < 0x1_0000_0000_0000_0000,
    ;
    (after - 1) * 100 < mark * total && mark * total <= after * 100
}

/// The percentile that a delivery reports: the greatest of `thresholds` that
/// it passes, if it passes any. One delivery reports at most one percentile,
/// however many it passes at once. With no live peer nothing is reported.
pub fn percentile_crossed(thresholds: &Vec<u32>, peers_after: usize, peers_total: usize) -> (found:
    Option<u32>)
    ensures
        found == crossed(thresholds@, peers_after as nat, peers_total as nat),
{
    let mut found: Option<u32> = None;
    let mut i: usize = 0;
    while i < thresholds.len()
        invariant
            i <= thresholds.len(),
            found == crossed(thresholds@.take(i as int), peers_after as nat, peers_total as nat),
        decreases thresholds.len() - i,
    {
        let threshold = thresholds[i];
        assert(thresholds@.take(i + 1).drop_last() =~= thresholds@.take(i as int));
        if passes_threshold(threshold, peers_after, peers_total) {
            let better = match found {
                Some(best) => threshold > best,
                None => true,
            };
            if better {
                found = Some(threshold);
            }
        }
        i += 1;
    }
    assert(thresholds@.take(i as int) =~= thresholds@);
    found
}

} // verus!
