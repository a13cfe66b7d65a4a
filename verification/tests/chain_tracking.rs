use ckb_analyzer::ancestor::{AncestorSearch, ReorganizationEvent, SearchError, SearchStep};
use ckb_analyzer::chain::{decode_header, ChainTip, ChainTracker, Header, TipChange};
use ckb_analyzer::hash::H256;
use ckb_analyzer::store::HeaderStore;
use ckb_analyzer::wire::DecodeError;
use std::collections::HashMap;

/// The hash of the header at `height` on the branch `branch`.
fn id(branch: u8, height: u64) -> H256 {
    let mut bytes = [0u8; 32];
    bytes[0] = 0xa0 + branch;
    bytes[1..9].copy_from_slice(&height.to_be_bytes());
    H256 { bytes }
}

fn header(branch: u8, height: u64, parent_branch: u8) -> Header {
    Header {
        hash: id(branch, height),
        parent_hash: if height == 0 { H256 { bytes: [0u8; 32] } } else { id(parent_branch, height - 1) },
        number: height,
        timestamp: 1_600_000_000_000 + height * 8_000,
    }
}

/// A store with a trunk up to `fork` and two branches above it: branch 1 up
/// to `old_top`, branch 2 up to `new_top`.
fn forked_store(fork: u64, old_top: u64, new_top: u64) -> HashMap<H256, Header> {
    let mut store = HashMap::new();
    for height in 0..=fork {
        let h = header(0, height, 0);
        store.insert(h.hash, h);
    }
    for height in fork + 1..=old_top {
        let h = header(1, height, if height == fork + 1 { 0 } else { 1 });
        store.insert(h.hash, h);
    }
    for height in fork + 1..=new_top {
        let h = header(2, height, if height == fork + 1 { 0 } else { 2 });
        store.insert(h.hash, h);
    }
    store
}

/// How a driven search ended.
#[derive(Debug, PartialEq)]
enum Ending {
    Reported(ReorganizationEvent),
    Refused(SearchError),
    /// The store does not hold the header asked for: the driver stops.
    Missed(H256),
}

impl Ending {
    fn unwrap(self) -> ReorganizationEvent {
        match self {
            Ending::Reported(event) => event,
            other => panic!("no event: {:?}", other),
        }
    }
}

/// Answers every lookup of `search` from `store` and returns the hashes that
/// were looked up, with the way in which the search ended.
fn drive(search: &mut AncestorSearch, store: &HashMap<H256, Header>) -> (Vec<H256>, Ending) {
    let mut fetched = Vec::new();
    loop {
        match search.next_step() {
            SearchStep::Found(_) => {
                let event = search.report().expect("a finished search reports");
                return (fetched, Ending::Reported(event));
            }
            SearchStep::Fetch(hash) => {
                fetched.push(hash);
                match store.get(&hash) {
                    None => return (fetched, Ending::Missed(hash)),
                    Some(header) => {
                        if let Err(error) = search.supply(*header) {
                            return (fetched, Ending::Refused(error));
                        }
                    }
                }
            }
        }
    }
}

#[test]
fn first_header_is_an_extension() {
    let mut tracker = ChainTracker::new();
    assert_eq!(tracker.current_tip(), None);
    let genesis = header(0, 0, 0);
    assert_eq!(tracker.compare(&genesis), TipChange::Extended);
    assert!(tracker.on_new_header(genesis).is_none());
    assert_eq!(tracker.current_tip(), Some(ChainTip { number: 0, hash: id(0, 0) }));
}

#[test]
fn first_header_need_not_be_genesis() {
    let mut tracker = ChainTracker::new();
    assert!(tracker.on_new_header(header(0, 500, 0)).is_none());
    assert_eq!(tracker.current_tip(), Some(ChainTip { number: 500, hash: id(0, 500) }));
}

#[test]
fn linear_chain_reports_no_reorganization() {
    let mut tracker = ChainTracker::new();
    for height in 0..200 {
        let next = header(0, height, 0);
        assert!(tracker.on_new_header(next).is_none(), "height {}", height);
        assert_eq!(tracker.current_tip(), Some(next.tip()));
    }
}

#[test]
fn divergent_header_reports_exactly_one_reorganization() {
    let store = forked_store(5, 8, 9);
    let mut tracker = ChainTracker::new();
    assert!(tracker.on_new_header(store[&id(1, 7)]).is_none());
    assert!(tracker.on_new_header(store[&id(1, 8)]).is_none());

    let new_tip = store[&id(2, 9)];
    assert_eq!(tracker.compare(&new_tip), TipChange::Diverged);
    let mut search = tracker.on_new_header(new_tip).expect("a switch of branches");
    assert_eq!(tracker.current_tip(), Some(new_tip.tip()));
    assert_eq!(search.report(), None);

    let (_, outcome) = drive(&mut search, &store);
    let event = outcome.unwrap();
    assert_eq!(
        event,
        ReorganizationEvent {
            timestamp: 1_600_000_000_000 + 5 * 8_000,
            attached_length: 4,
            old_tip: ChainTip { number: 8, hash: id(1, 8) },
            new_tip: ChainTip { number: 9, hash: id(2, 9) },
            ancestor: ChainTip { number: 5, hash: id(0, 5) },
        }
    );
    // The finished search keeps reporting the same event and takes no more headers.
    assert_eq!(search.report(), Some(event));
    assert_eq!(search.supply(store[&id(0, 4)]), Err(SearchError::NotWaiting));

    // The next header on the new branch is an extension again.
    assert!(tracker.on_new_header(header(2, 10, 2)).is_none());
}

#[test]
fn ancestor_is_on_both_branches() {
    let store = forked_store(5, 8, 9);
    let mut search = AncestorSearch::begin(store[&id(1, 8)], store[&id(2, 9)]);
    let (_, outcome) = drive(&mut search, &store);
    let ancestor = outcome.unwrap().ancestor;

    let walk_down = |from: H256| {
        let mut seen = vec![from];
        let mut at = store[&from];
        while let Some(parent) = store.get(&at.parent_hash) {
            seen.push(parent.hash);
            at = *parent;
        }
        seen
    };
    assert!(walk_down(id(1, 8)).contains(&ancestor.hash));
    assert!(walk_down(id(2, 9)).contains(&ancestor.hash));
}

#[test]
fn same_header_twice_is_ignored() {
    let mut tracker = ChainTracker::new();
    let first = header(0, 10, 0);
    let second = header(0, 11, 0);
    assert!(tracker.on_new_header(first).is_none());
    assert!(tracker.on_new_header(second).is_none());
    let tip = tracker.current_tip();

    assert_eq!(tracker.compare(&second), TipChange::Unchanged);
    assert!(tracker.on_new_header(second).is_none());
    assert_eq!(tracker.current_tip(), tip);
}

#[test]
fn same_divergent_header_twice_reports_once() {
    let store = forked_store(3, 5, 5);
    let mut tracker = ChainTracker::new();
    assert!(tracker.on_new_header(store[&id(1, 5)]).is_none());
    assert!(tracker.on_new_header(store[&id(2, 5)]).is_some());
    assert!(tracker.on_new_header(store[&id(2, 5)]).is_none());
    assert_eq!(tracker.current_tip(), Some(ChainTip { number: 5, hash: id(2, 5) }));
}

#[test]
fn search_equalizes_heights_then_walks_in_lockstep() {
    let store = forked_store(90, 100, 97);
    let mut search = AncestorSearch::begin(store[&id(1, 100)], store[&id(2, 97)]);
    let (fetched, outcome) = drive(&mut search, &store);

    // Three steps bring the old branch from 100 down to 97.
    assert_eq!(&fetched[..3], &[id(1, 99), id(1, 98), id(1, 97)]);
    // Then one step on each branch per height, from 96 down to 90.
    let mut lockstep = Vec::new();
    for height in (91..=96).rev() {
        lockstep.push(id(1, height));
        lockstep.push(id(2, height));
    }
    lockstep.push(id(0, 90));
    lockstep.push(id(0, 90));
    assert_eq!(&fetched[3..], &lockstep[..]);
    assert_eq!(fetched.len(), 3 + 2 * 7);

    let event = outcome.unwrap();
    assert_eq!(event.ancestor, ChainTip { number: 90, hash: id(0, 90) });
    assert_eq!(event.attached_length, 7);
    assert_eq!(event.timestamp, 1_600_000_000_000 + 90 * 8_000);
}

#[test]
fn search_equalizes_a_higher_new_branch() {
    let store = forked_store(10, 12, 20);
    let mut search = AncestorSearch::begin(store[&id(1, 12)], store[&id(2, 20)]);
    let (fetched, outcome) = drive(&mut search, &store);
    let equalizing: Vec<H256> = (12..20).rev().map(|height| id(2, height)).collect();
    assert_eq!(&fetched[..8], &equalizing[..]);
    assert_eq!(fetched.len(), 8 + 2 * 2);
    let event = outcome.unwrap();
    assert_eq!(event.ancestor.number, 10);
    assert_eq!(event.attached_length, 10);
}

#[test]
fn competing_branch_at_equal_height() {
    let store = forked_store(41, 42, 42);
    let mut tracker = ChainTracker::new();
    assert!(tracker.on_new_header(store[&id(1, 42)]).is_none());
    let mut search = tracker.on_new_header(store[&id(2, 42)]).expect("a competing tip");
    assert_eq!(search.next_step(), SearchStep::Fetch(id(0, 41)));
    let (fetched, outcome) = drive(&mut search, &store);
    assert_eq!(fetched, vec![id(0, 41), id(0, 41)]);
    let event = outcome.unwrap();
    assert_eq!(event.attached_length, 1);
    assert_eq!(event.ancestor, ChainTip { number: 41, hash: id(0, 41) });
}

#[test]
fn new_tip_below_old_tip_on_the_same_branch() {
    // The chain is cut back to a header that the old tip descends from.
    let store = forked_store(30, 33, 30);
    let mut search = AncestorSearch::begin(store[&id(1, 33)], store[&id(0, 30)]);
    let (fetched, outcome) = drive(&mut search, &store);
    assert_eq!(fetched, vec![id(1, 32), id(1, 31), id(0, 30)]);
    let event = outcome.unwrap();
    assert_eq!(event.attached_length, 0);
    assert_eq!(event.ancestor, ChainTip { number: 30, hash: id(0, 30) });
}

#[test]
fn lookup_miss_ends_without_an_event() {
    let mut store = forked_store(5, 8, 9);
    store.remove(&id(2, 7));
    let mut search = AncestorSearch::begin(store[&id(1, 8)], store[&id(2, 9)]);
    let (fetched, outcome) = drive(&mut search, &store);
    assert_eq!(outcome, Ending::Missed(id(2, 7)));
    assert_eq!(fetched.last(), Some(&id(2, 7)));
    // Nothing was guessed: the search still asks for the header and reports nothing.
    assert_eq!(search.next_step(), SearchStep::Fetch(id(2, 7)));
    assert_eq!(search.report(), None);
}

#[test]
fn header_at_the_wrong_height_is_refused() {
    let store = forked_store(5, 8, 9);
    let mut search = AncestorSearch::begin(store[&id(1, 8)], store[&id(2, 9)]);
    assert_eq!(search.next_step(), SearchStep::Fetch(id(2, 8)));
    assert_eq!(search.supply(store[&id(2, 7)]), Err(SearchError::HeightMismatch));
    assert_eq!(search.supply(store[&id(2, 9)]), Err(SearchError::HeightMismatch));
    let mut highest = store[&id(2, 8)];
    highest.number = u64::MAX;
    assert_eq!(search.supply(highest), Err(SearchError::HeightMismatch));
    assert_eq!(search.next_step(), SearchStep::Fetch(id(2, 8)));
    assert_eq!(search.supply(store[&id(2, 8)]), Ok(()));
    assert_eq!(search.next_step(), SearchStep::Fetch(id(1, 7)));
}

#[test]
fn branches_without_common_ancestor_run_into_a_miss() {
    let mut store = HashMap::new();
    for height in 0..=3 {
        let a = header(1, height, 1);
        let b = header(2, height, 2);
        store.insert(a.hash, a);
        store.insert(b.hash, b);
    }
    let mut search = AncestorSearch::begin(store[&id(1, 3)], store[&id(2, 3)]);
    let (fetched, outcome) = drive(&mut search, &store);
    assert_eq!(fetched.len(), 7);
    assert_eq!(outcome, Ending::Missed(H256 { bytes: [0u8; 32] }));
    assert_eq!(search.report(), None);
}

#[test]
fn hashes_compare_by_all_bytes() {
    let a = id(1, 7);
    let mut b = a;
    assert!(a == b);
    b.bytes[31] = 1;
    assert!(a != b);
    b.bytes[31] = 0;
    b.bytes[0] ^= 0x80;
    assert!(a != b);
}

#[test]
fn hash_prefix_is_the_first_eight_bytes() {
    let mut bytes = [0xffu8; 32];
    bytes[..8].copy_from_slice(&[1, 2, 3, 4, 5, 6, 7, 8]);
    assert_eq!(H256 { bytes }.prefix(), 0x0807_0605_0403_0201);
    assert_eq!(H256 { bytes: [0xff; 32] }.prefix(), u64::MAX);
    assert_eq!(H256 { bytes: [0; 32] }.prefix(), 0);
}

/// The same headers as `forked_store`, held by the library's own store.
fn forked_header_store(fork: u64, old_top: u64, new_top: u64) -> HeaderStore {
    let mut store = HeaderStore::new();
    for header in forked_store(fork, old_top, new_top).values() {
        store.insert(*header);
    }
    store
}

#[test]
fn store_finds_headers_by_hash() {
    let mut store = HeaderStore::new();
    assert_eq!(store.get(&id(0, 1)), None);
    let first = header(0, 1, 0);
    store.insert(first);
    assert_eq!(store.get(&id(0, 1)), Some(first));
    assert_eq!(store.get(&id(0, 2)), None);

    // Hashes that agree in their first bytes are kept apart.
    let mut near = first;
    near.hash.bytes[31] = 0x77;
    near.number = 99;
    store.insert(near);
    assert_eq!(store.get(&near.hash), Some(near));
    assert_eq!(store.get(&first.hash), Some(first));

    // A header stored again under its hash takes the place of the first.
    let mut changed = first;
    changed.timestamp = 5;
    store.insert(changed);
    assert_eq!(store.get(&first.hash), Some(changed));
    assert_eq!(store.get(&near.hash), Some(near));
}

#[test]
fn locate_ancestor_in_a_store() {
    let store = forked_header_store(90, 100, 97);
    let old_tip = store.get(&id(1, 100)).unwrap();
    let new_tip = store.get(&id(2, 97)).unwrap();
    let mut search = AncestorSearch::begin(old_tip, new_tip);
    assert_eq!(
        search.locate_ancestor(&store),
        Ok(ReorganizationEvent {
            timestamp: 1_600_000_000_000 + 90 * 8_000,
            attached_length: 7,
            old_tip: old_tip.tip(),
            new_tip: new_tip.tip(),
            ancestor: ChainTip { number: 90, hash: id(0, 90) },
        })
    );
    assert_eq!(search.next_step(), SearchStep::Found(store.get(&id(0, 90)).unwrap()));
}

#[test]
fn locate_ancestor_stops_at_a_header_of_the_wrong_height() {
    let mut store = forked_header_store(5, 8, 9);
    let mut wrong = header(2, 7, 2);
    wrong.number = 6;
    store.insert(wrong);
    let mut search =
        AncestorSearch::begin(store.get(&id(1, 8)).unwrap(), store.get(&id(2, 9)).unwrap());
    assert_eq!(search.locate_ancestor(&store), Err(SearchError::HeightMismatch));
    assert_eq!(search.next_step(), SearchStep::Fetch(id(2, 7)));
}

const HEADER_JSON: &str = r#"{
    "compact_target": "0x1e083126",
    "dao": "0xb5a3e047474401001bc476b9ee573000c0c387962a38000000febffacf030000",
    "epoch": "0x7080018000001",
    "hash": "0xa5f5c85987a15de25661e5a214f2c1449cd803f071acc7999820f25246471f40",
    "nonce": "0x0",
    "number": "0x400",
    "parent_hash": "0xae003585fa15309b30b31aed3dcf385e9472c3c3e93746a6c4540629a6a1ed2d",
    "proposals_hash": "0x0000000000000000000000000000000000000000000000000000000000000000",
    "timestamp": "0x5cd2b117",
    "transactions_root": "0xc47d5b78b3c4c4c853e2a32810818940d0ee403423bea9ec7b8e566d9595206c",
    "extra_hash": "0x0000000000000000000000000000000000000000000000000000000000000000",
    "version": "0x0"
}"#;

#[test]
fn header_message_is_decoded_and_tracked() {
    let mut tracker = ChainTracker::new();
    let outcome = tracker.on_header_message(HEADER_JSON);
    assert!(matches!(outcome, Ok(None)));
    let tip = tracker.current_tip().expect("the header is tracked");
    assert_eq!(tip.number, 0x400);
    let mut expected = [0u8; 32];
    for (i, byte) in expected.iter_mut().enumerate() {
        let text = "a5f5c85987a15de25661e5a214f2c1449cd803f071acc7999820f25246471f40";
        *byte = u8::from_str_radix(&text[2 * i..2 * i + 2], 16).unwrap();
    }
    assert_eq!(tip.hash, H256 { bytes: expected });

    // A header that names the decoded one as parent extends the chain.
    let child = Header {
        hash: id(9, 0x401),
        parent_hash: tip.hash,
        number: 0x401,
        timestamp: 0x5cd2b117 + 8_000,
    };
    assert_eq!(tracker.compare(&child), TipChange::Extended);

    // The same message once more changes nothing.
    assert!(matches!(tracker.on_header_message(HEADER_JSON), Ok(None)));
    assert_eq!(tracker.current_tip(), Some(tip));
}

#[test]
fn header_is_decoded_from_json() {
    let header = decode_header(HEADER_JSON).unwrap();
    assert_eq!(header.number, 0x400);
    assert_eq!(header.timestamp, 0x5cd2b117);
    assert_eq!(header.hash.bytes[..4], [0xa5, 0xf5, 0xc8, 0x59]);
    assert_eq!(header.parent_hash.bytes[..4], [0xae, 0x00, 0x35, 0x85]);
    assert_eq!(header.parent_hash.bytes[28..], [0xa6, 0xa1, 0xed, 0x2d]);

    // The hash follows the fields, not the text: another nonce, another hash.
    let other = decode_header(&HEADER_JSON.replace("\"nonce\": \"0x0\"", "\"nonce\": \"0x1\"")).unwrap();
    assert_eq!(other.number, header.number);
    assert!(other.hash != header.hash);

    assert_eq!(decode_header(""), Err(DecodeError::MalformedHeader));
    assert_eq!(
        decode_header(&HEADER_JSON.replace("0x400", "1024")),
        Err(DecodeError::MalformedHeader)
    );
}

#[test]
fn header_message_that_diverges_starts_a_search() {
    let mut tracker = ChainTracker::new();
    assert!(tracker.on_new_header(header(1, 0x400, 1)).is_none());
    let search = tracker.on_header_message(HEADER_JSON).unwrap().expect("a switch of branches");
    let mut parent = [0u8; 32];
    for (i, byte) in parent.iter_mut().enumerate() {
        let text = "ae003585fa15309b30b31aed3dcf385e9472c3c3e93746a6c4540629a6a1ed2d";
        *byte = u8::from_str_radix(&text[2 * i..2 * i + 2], 16).unwrap();
    }
    // At equal heights the old branch is walked first.
    assert_eq!(search.next_step(), SearchStep::Fetch(id(1, 0x3ff)));
    let mut search = search;
    assert_eq!(search.supply(header(1, 0x3ff, 1)), Ok(()));
    assert_eq!(search.next_step(), SearchStep::Fetch(H256 { bytes: parent }));
}

#[test]
fn malformed_header_message_is_refused() {
    let mut tracker = ChainTracker::new();
    assert!(tracker.on_new_header(header(0, 1, 0)).is_none());
    assert!(matches!(tracker.on_header_message("{}"), Err(DecodeError::MalformedHeader)));
    assert!(matches!(tracker.on_header_message("not json"), Err(DecodeError::MalformedHeader)));
    assert_eq!(tracker.current_tip(), Some(ChainTip { number: 1, hash: id(0, 1) }));
}
