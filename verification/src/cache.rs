//! The record of which peers have delivered which message, and when each
//! message was first seen.

use crate::hash::H256;
use crate::propagation::PeerId;
use std::collections::HashMap;
use std::collections::HashSet;
use vstd::prelude::*;

verus! {

broadcast use vstd::std_specs::hash::group_hash_axioms;

/// What is known of one message.
pub struct Record {
    /// Time of the first delivery, in milliseconds on the observer's clock.
    pub first_seen: u64,
    /// The peers that have delivered the message.
    pub delivering_peers: Set<PeerId>,
}

/// What one delivery found and left behind.
#[derive(Clone, Copy, Debug, PartialEq, Eq)]
pub struct Delivery {
    /// Time at which the message was first seen.
    pub first_seen: u64,
    /// Number of peers that have delivered the message, this delivery counted.
    pub peers_after: usize,
    /// Whether this peer delivered the message for the first time.
    pub newly_inserted: bool,
}

/// The records after `peer` delivered the message `hash` at `now`: a message
/// not seen before gets a record that begins at `now`; a known message keeps
/// its time and gains the peer.
pub open spec fn noted(records: Map<H256, Record>, hash: H256, peer: PeerId, now: u64) -> Map<
    H256,
    Record,
> {
    if records.contains_key(hash) {
        records.insert(
            hash,
            Record {
                first_seen: records[hash].first_seen,
                delivering_peers: records[hash].delivering_peers.insert(peer),
            },
        )
    } else {
        records.insert(hash, Record { first_seen: now, delivering_peers: set![peer] })
    }
}

/// Whether `peer` has not delivered the message `hash` before.
pub open spec fn is_new_delivery(records: Map<H256, Record>, hash: H256, peer: PeerId) -> bool {
    !(records.contains_key(hash) && records[hash].delivering_peers.contains(peer))
}

/// What the delivery of the message `hash` by `peer` at `now` finds and
/// leaves behind.
pub open spec fn delivery_of(records: Map<H256, Record>, hash: H256, peer: PeerId, now: u64)
    -> Delivery {
    let record = noted(records, hash, peer, now)[hash];
    Delivery {
        first_seen: record.first_seen,
        peers_after: record.delivering_peers.len() as usize,
        newly_inserted: is_new_delivery(records, hash, peer),
    }
}

/// A delivery forgets nothing: every message known before is known after,
/// with the time at which it was first seen and every peer that had
/// delivered it.
pub proof fn lemma_records_only_grow(
    records: Map<H256, Record>,
    hash: H256,
    peer: PeerId,
    now: u64,
    known: H256,
)
    requires
        records.contains_key(known),
    ensures
        noted(records, hash, peer, now).contains_key(known),
        noted(records, hash, peer, now)[known].first_seen == records[known].first_seen,
        records[known].delivering_peers.subset_of(
            noted(records, hash, peer, now)[known].delivering_peers,
        ),
        noted(records, hash, peer, now)[hash].delivering_peers.contains(peer),
{
}

/// Each first delivery by a peer raises the number of peers that have
/// delivered the message by one; a repeated delivery leaves it as it was.
pub proof fn lemma_delivery_counts(records: Map<H256, Record>, hash: H256, peer: PeerId, now: u64)
    requires
        records.contains_key(hash) ==> records[hash].delivering_peers.finite(),
    ensures
        noted(records, hash, peer, now)[hash].delivering_peers.finite(),
        noted(records, hash, peer, now)[hash].delivering_peers.len() == if !records.contains_key(
            hash,
        ) {
            1
        } else if is_new_delivery(records, hash, peer) {
            records[hash].delivering_peers.len() + 1
        } else {
            records[hash].delivering_peers.len()
        },
{
    if !records.contains_key(hash) {
        assert(set![peer].len() == 1);
    }
}

struct Entry {
    hash: H256,
    first_seen: u64,
    peers: HashSet<PeerId>,
}

impl Entry {
    #[verifier::type_invariant]
    spec fn inv(self) -> bool {
        self.peers@.finite()
    }

    /// What the entry records. The set of peers held is always finite; the
    /// record is written so that this shows for every value.
    spec fn record(self) -> Record {
        Record {
            first_seen: self.first_seen,
            delivering_peers: if self.peers@.finite() {
                self.peers@
            } else {
                Set::empty()
            },
        }
    }
}

/// The record of the last entry for `hash` in `bucket`.
spec fn lookup(bucket: Seq<Entry>, hash: H256) -> Option<Record>
    decreases bucket.len(),
{
    if bucket.len() == 0 {
        None
    } else if bucket.last().hash == hash {
        Some(bucket.last().record())
    } else {
        lookup(bucket.drop_last(), hash)
    }
}

/// The index of the last entry for `hash` in `bucket`.
fn position(bucket: &Vec<Entry>, hash: &H256) -> (found: Option<usize>)
    ensures
        match found {
            Some(i) => {
                &&& i < bucket.len()
                &&& bucket[i as int].hash == *hash
                &&& lookup(bucket@, *hash) == Some(bucket[i as int].record())
                &&& forall|j: int| i < j < bucket.len() ==> bucket[j].hash != *hash
            },
            None => lookup(bucket@, *hash) is None,
        },
{
    let mut i: usize = bucket.len();
    assert(bucket@.take(i as int) =~= bucket@);
    while i > 0
        invariant
            i <= bucket.len(),
            forall|j: int| i <= j < bucket.len() ==> bucket[j].hash != *hash,
            lookup(bucket@, *hash) == lookup(bucket@.take(i as int), *hash),
        decreases i,
    {
        i -= 1;
        proof {
            let prefix = bucket@.take(i + 1);
            assert(prefix.last() == bucket[i as int]);
            assert(prefix.drop_last() =~= bucket@.take(i as int));
        }
        if bucket[i].hash == *hash {
            return Some(i);
        }
    }
    proof {
        assert(bucket@.take(0).len() == 0);
    }
    None
}

/// Replacing an entry by one for the same hash changes the record of that
/// hash alone, and that only if no later entry holds the hash.
proof fn lemma_lookup_update(bucket: Seq<Entry>, i: int, entry: Entry, hash: H256)
    requires
        0 <= i < bucket.len(),
        bucket[i].hash == entry.hash,
        forall|j: int| i < j < bucket.len() ==> bucket[j].hash != entry.hash,
    ensures
        lookup(bucket.update(i, entry), hash) == if hash == entry.hash {
            Some(entry.record())
        } else {
            lookup(bucket, hash)
        },
    decreases bucket.len(),
{
    let updated = bucket.update(i, entry);
    if i == bucket.len() - 1 {
        assert(updated.drop_last() =~= bucket.drop_last());
    } else {
        assert(updated.last() == bucket.last());
        assert(updated.drop_last() =~= bucket.drop_last().update(i, entry));
        lemma_lookup_update(bucket.drop_last(), i, entry, hash);
    }
}

/// Every record found in a bucket names finitely many peers.
proof fn lemma_lookup_finite(bucket: Seq<Entry>, hash: H256)
    ensures
        lookup(bucket, hash) is Some ==> lookup(bucket, hash).unwrap().delivering_peers.finite(),
    decreases bucket.len(),
{
    if bucket.len() > 0 && bucket.last().hash != hash {
        lemma_lookup_finite(bucket.drop_last(), hash);
    }
}

/// Which peers have delivered which message, and when each was first seen.
pub struct MessageCache {
    buckets: HashMap<u64, Vec<Entry>>,
}

impl View for MessageCache {
    type V = Map<H256, Record>;

    closed spec fn view(&self) -> Map<H256, Record> {
        Map::new(
            |hash: H256|
                self.buckets@.contains_key(hash.spec_prefix()) && lookup(
                    self.buckets@[hash.spec_prefix()]@,
                    hash,
                ) is Some,
            |hash: H256| lookup(self.buckets@[hash.spec_prefix()]@, hash).unwrap(),
        )
    }
}

impl MessageCache {
    /// Finitely many peers have delivered any one message.
    pub proof fn lemma_finite(&self, hash: H256)
        ensures
            self@.contains_key(hash) ==> self@[hash].delivering_peers.finite(),
    {
        if self@.contains_key(hash) {
            lemma_lookup_finite(self.buckets@[hash.spec_prefix()]@, hash);
        }
    }

    /// A cache that has seen no message.
    pub fn new() -> (cache: MessageCache)
        ensures
            cache@ == Map::<H256, Record>::empty(),
    {
        let cache = MessageCache { buckets: HashMap::new() };
        assert(cache@ =~= Map::<H256, Record>::empty());
        cache
    }

    /// Notes that `peer` delivered the message `hash` at `now`, and says what
    /// the record of the message holds afterwards.
    pub fn note(&mut self, hash: H256, peer: PeerId, now: u64) -> (delivery: Delivery)
        ensures
            final(self)@ == noted(old(self)@, hash, peer, now),
            delivery == delivery_of(old(self)@, hash, peer, now),
            final(self)@[hash].delivering_peers.finite(),
            delivery.peers_after == final(self)@[hash].delivering_peers.len(),
    {
        let key = hash.prefix();
        let ghost before = self.buckets@;
        let mut bucket = match self.buckets.remove(&key) {
            Some(bucket) => bucket,
            None => Vec::new(),
        };
        let ghost bucket_before = bucket@;
        assert(lookup(bucket_before, hash) is Some <==> old(self)@.contains_key(hash));
        let ghost record = noted(old(self)@, hash, peer, now)[hash];
        let delivery = match position(&bucket, &hash) {
            Some(i) => {
                let stored = bucket.remove(i);
                proof {
                    use_type_invariant(&stored);
                }
                let mut peers = stored.peers;
                let newly_inserted = peers.insert(peer);
                let entry = Entry { hash: stored.hash, first_seen: stored.first_seen, peers };
                let delivery = Delivery {
                    first_seen: entry.first_seen,
                    peers_after: entry.peers.len(),
                    newly_inserted,
                };
                proof {
                    assert(entry.record() == record);
                    assert(bucket_before.remove(i as int).insert(i as int, entry)
                        =~= bucket_before.update(i as int, entry));
                    assert forall|other: H256|
                        lookup(bucket_before.update(i as int, entry), other) == if other == hash {
                            Some(record)
                        } else {
                            lookup(bucket_before, other)
                        } by {
                        lemma_lookup_update(bucket_before, i as int, entry, other);
                    }
                }
                bucket.insert(i, entry);
                delivery
            },
            None => {
                let mut peers: HashSet<PeerId> = HashSet::new();
                peers.insert(peer);
                assert(peers@ =~= set![peer]);
                let entry = Entry { hash, first_seen: now, peers };
                proof {
                    assert(entry.record() == record);
                    assert(bucket_before.push(entry).drop_last() =~= bucket_before);
                }
                let delivery = Delivery { first_seen: now, peers_after: 1, newly_inserted: true };
                bucket.push(entry);
                delivery
            },
        };
        assert(record.delivering_peers.finite());
        assert(forall|other: H256|
            lookup(bucket@, other) == if other == hash {
                Some(record)
            } else {
                lookup(bucket_before, other)
            });
        self.buckets.insert(key, bucket);
        proof {
            let after = noted(old(self)@, hash, peer, now);
            assert(self.buckets@ == before.insert(key, bucket));
            assert forall|other: H256| self@.contains_key(other) == after.contains_key(other) by {
                if other.spec_prefix() == key {
                    assert(before.contains_key(key) ==> before[key]@ == bucket_before);
                }
            }
            assert forall|other: H256| self@.contains_key(other) implies self@[other]
                == after[other] by {
                if other.spec_prefix() == key {
                    assert(before.contains_key(key) ==> before[key]@ == bucket_before);
                }
            }
            assert(self@ =~= after);
        }
        delivery
    }
}

} // verus!
