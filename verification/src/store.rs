//! Headers held in memory, found by their hash.

use crate::chain::Header;
use crate::hash::H256;
use std::collections::HashMap;
use vstd::prelude::*;

verus! {

broadcast use vstd::std_specs::hash::group_hash_axioms;

/// The last header with the hash `hash` in `bucket`.
spec fn lookup(bucket: Seq<Header>, hash: H256) -> Option<Header>
    decreases bucket.len(),
{
    if bucket.len() == 0 {
        None
    } else if bucket.last().hash == hash {
        Some(bucket.last())
    } else {
        lookup(bucket.drop_last(), hash)
    }
}

/// The last header with the hash `hash` in `bucket`, and where it stands.
fn find(bucket: &Vec<Header>, hash: &H256) -> (found: Option<usize>)
    ensures
        match found {
            Some(i) => {
                &&& i < bucket.len()
                &&& bucket[i as int].hash == *hash
                &&& lookup(bucket@, *hash) == Some(bucket[i as int])
                &&& forall|j: int| i < j < bucket.len() ==> bucket[j].hash != *hash
            },
            None => lookup(bucket@, *hash) is None,
        },
{
    let mut i: usize = bucket.len();
    assert(bucket@.take(i as int) =~= bucket@);
    while i > 0
        invariant
            i <= bucket.len(),
            forall|j: int| i <= j < bucket.len() ==> bucket[j].hash != *hash,
            lookup(bucket@, *hash) == lookup(bucket@.take(i as int), *hash),
        decreases i,
    {
        i -= 1;
        proof {
            let prefix = bucket@.take(i + 1);
            assert(prefix.last() == bucket[i as int]);
            assert(prefix.drop_last() =~= bucket@.take(i as int));
        }
        if bucket[i].hash == *hash {
            return Some(i);
        }
    }
    proof {
        assert(bucket@.take(0).len() == 0);
    }
    None
}

/// Replacing a header by one with the same hash changes what is found under
/// that hash alone, if no later header holds the hash.
proof fn lemma_lookup_update(bucket: Seq<Header>, i: int, header: Header, hash: H256)
    requires
        0 <= i < bucket.len(),
        bucket[i].hash == header.hash,
        forall|j: int| i < j < bucket.len() ==> bucket[j].hash != header.hash,
    ensures
        lookup(bucket.update(i, header), hash) == if hash == header.hash {
            Some(header)
        } else {
            lookup(bucket, hash)
        },
    decreases bucket.len(),
{
    let updated = bucket.update(i, header);
    if i == bucket.len() - 1 {
        assert(updated.drop_last() =~= bucket.drop_last());
    } else {
        assert(updated.last() == bucket.last());
        assert(updated.drop_last() =~= bucket.drop_last().update(i, header));
        lemma_lookup_update(bucket.drop_last(), i, header, hash);
    }
}

/// Headers held in memory, each under its own hash.
pub struct HeaderStore {
    buckets: HashMap<u64, Vec<Header>>,
}

impl View for HeaderStore {
    type V = Map<H256, Header>;

    closed spec fn view(&self) -> Map<H256, Header> {
        Map::new(
            |hash: H256|
                self.buckets@.contains_key(hash.spec_prefix()) && lookup(
                    self.buckets@[hash.spec_prefix()]@,
                    hash,
                ) is Some,
            |hash: H256| lookup(self.buckets@[hash.spec_prefix()]@, hash).unwrap(),
        )
    }
}

impl HeaderStore {
    /// A store that holds no header.
    pub fn new() -> (store: HeaderStore)
        ensures
            store@ == Map::<H256, Header>::empty(),
    {
        let store = HeaderStore { buckets: HashMap::new() };
        assert(store@ =~= Map::<H256, Header>::empty());
        store
    }

    /// Stores `header` under its hash, in place of any header stored under
    /// that hash before.
    pub fn insert(&mut self, header: Header)
        ensures
            final(self)@ == old(self)@.insert(header.hash, header),
    {
        let key = header.hash.prefix();
        let ghost before = self.buckets@;
        let mut bucket = match self.buckets.remove(&key) {
            Some(bucket) => bucket,
            None => Vec::new(),
        };
        let ghost bucket_before = bucket@;
        match find(&bucket, &header.hash) {
            Some(i) => {
                bucket[i] = header;
                proof {
                    assert forall|other: H256|
                        lookup(bucket_before.update(i as int, header), other) == if other
                            == header.hash {
                            Some(header)
                        } else {
                            lookup(bucket_before, other)
                        } by {
                        lemma_lookup_update(bucket_before, i as int, header, other);
                    }
                }
            },
            None => {
                bucket.push(header);
                assert(bucket@.drop_last() =~= bucket_before);
            },
        }
        assert(forall|other: H256|
            lookup(bucket@, other) == if other == header.hash {
                Some(header)
            } else {
                lookup(bucket_before, other)
            });
        self.buckets.insert(key, bucket);
        proof {
            let after = old(self)@.insert(header.hash, header);
            assert(self.buckets@ == before.insert(key, bucket));
            assert forall|other: H256| self@.contains_key(other) == after.contains_key(other) by {
                if other.spec_prefix() == key {
                    assert(before.contains_key(key) ==> before[key]@ == bucket_before);
                }
            }
            assert forall|other: H256| self@.contains_key(other) implies self@[other]
                == after[other] by {
                if other.spec_prefix() == key {
                    assert(before.contains_key(key) ==> before[key]@ == bucket_before);
                }
            }
            assert(self@ =~= after);
        }
    }

    /// The header stored under `hash`, if there is one.
    pub fn get(&self, hash: &H256) -> (found: Option<Header>)
        ensures
            found == if self@.contains_key(*hash) {
                Some(self@[*hash])
            } else {
                None
            },
    {
        let key = hash.prefix();
        match self.buckets.get(&key) {
            None => None,
            Some(bucket) => match find(bucket, hash) {
                Some(i) => Some(bucket[i]),
                None => None,
            },
        }
    }
}

} // verus!
