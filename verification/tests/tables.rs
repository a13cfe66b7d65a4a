use chrono::{DateTime, NaiveDateTime};
use ckb_analyzer::ancestor::ReorganizationEvent;
use ckb_analyzer::chain::ChainTip;
use ckb_analyzer::hash::H256;
use ckb_analyzer::table::{
    hash_string, Block, Epoch, Heartbeat, Propagation, Reorganization, SubscribeNewTipHeader,
    SubscribeNewTransaction, SubscribeProposedTransaction, Transaction, TwoPCCommitment, Uncle,
};
use ckb_analyzer::text::{digit_char, push_hex, push_signed, push_unsigned};

fn at(millis: i64) -> NaiveDateTime {
    DateTime::from_timestamp_millis(millis).unwrap().naive_utc()
}

fn net() -> String {
    "mainnet".to_string()
}

#[test]
fn decimal_text() {
    let cases: [(i64, &str); 9] = [
        (0, "0"),
        (7, "7"),
        (10, "10"),
        (-1, "-1"),
        (-10, "-10"),
        (1234567890, "1234567890"),
        (-9007199254740993, "-9007199254740993"),
        (i64::MAX, "9223372036854775807"),
        (i64::MIN, "-9223372036854775808"),
    ];
    for (n, expected) in cases {
        let mut text = String::from("n=");
        push_signed(&mut text, n);
        assert_eq!(text, format!("n={}", expected));
        assert_eq!(&text[2..], n.to_string());
    }
    let mut text = String::new();
    push_unsigned(&mut text, u64::MAX);
    push_unsigned(&mut text, 0);
    push_unsigned(&mut text, 909);
    assert_eq!(text, "184467440737095516150909");
}

#[test]
fn hexadecimal_text() {
    let mut text = String::from(">");
    push_hex(&mut text, &[0x00, 0x0f, 0xa0, 0xff, 0x12]);
    assert_eq!(text, ">000fa0ff12");
    push_hex(&mut text, &[]);
    assert_eq!(text, ">000fa0ff12");
    let all: String = (0..16).map(digit_char).collect();
    assert_eq!(all, "0123456789abcdef");

    let mut bytes = [0u8; 32];
    for (i, byte) in bytes.iter_mut().enumerate() {
        *byte = (i * 8 + 1) as u8;
    }
    assert_eq!(
        hash_string(&H256 { bytes }),
        "0x0109111921293139414951596169717981899199a1a9b1b9c1c9d1d9e1e9f1f9"
    );
    assert_eq!(
        hash_string(&H256 { bytes: [0u8; 32] }),
        "0x0000000000000000000000000000000000000000000000000000000000000000"
    );
}

#[test]
fn block_insert_query() {
    let row = Block {
        network: net(),
        time: at(1_600_000_040_123),
        number: 42,
        interval: 8123,
        n_transactions: 3,
        n_proposals: 4,
        n_uncles: 1,
        hash: "0xaa".to_string(),
        miner: "0xbb".to_string(),
        version: 0,
    };
    assert_eq!(
        row.insert_query(),
        "INSERT INTO mainnet_block (network, time, number, interval, n_transactions, \
         n_proposals, n_uncles, hash, miner, version)\
         VALUES ('mainnet', '2020-09-13 12:27:20.123', 42, 8123, 3, 4, 1, '0xaa', '0xbb', 0)"
    );
}

#[test]
fn uncle_insert_query() {
    let row = Uncle {
        network: net(),
        time: at(1_600_000_040_000),
        number: 41,
        lag_to_canonical: -250,
        n_transactions: 0,
        n_proposals: 2,
        hash: "0xcc".to_string(),
        miner: "0xdd".to_string(),
        version: 1,
    };
    assert_eq!(
        row.insert_query(),
        "INSERT INTO mainnet_uncle (network, time, number, lag_to_canonical, n_transactions, \
         n_proposals, hash, miner, version)\
         VALUES ('mainnet', '2020-09-13 12:27:20', 41, -250, 0, 2, '0xcc', '0xdd', 1)"
    );
}

#[test]
fn two_pc_commitment_insert_query() {
    let row = TwoPCCommitment { network: net(), time: at(0), number: 100, delay: 3 };
    assert_eq!(
        row.insert_query(),
        "INSERT INTO mainnet_two_pc_commitment (network, time, number, delay) \
         VALUES ('mainnet', '1970-01-01 00:00:00', 100, 3)"
    );
}

#[test]
fn epoch_insert_query() {
    let row = Epoch {
        network: "testnet".to_string(),
        time: at(1_600_000_040_000),
        number: 12,
        length: 1800,
        duration: 14_400_000,
        n_uncles: 37,
    };
    assert_eq!(
        row.insert_query(),
        "INSERT INTO testnet_epoch (network, time, number, length, duration, n_uncles) \
         VALUES ('testnet', '2020-09-13 12:27:20', 12, 1800, 14400000, 37)"
    );
}

#[test]
fn reorganization_insert_query() {
    let row = Reorganization {
        network: net(),
        time: at(1_600_000_040_000),
        attached_length: 4,
        old_tip_number: 8,
        new_tip_number: 9,
        ancestor_number: 5,
        old_tip_hash: "0x01".to_string(),
        new_tip_hash: "0x02".to_string(),
        ancestor_hash: "0x03".to_string(),
    };
    assert_eq!(
        row.insert_query(),
        "INSERT INTO mainnet_reorganization (network, time, attached_length, old_tip_number, \
         new_tip_number, ancestor_number, old_tip_hash, new_tip_hash, ancestor_hash)\
         VALUES ('mainnet', '2020-09-13 12:27:20', 4, 8, 9, 5, '0x01', '0x02', '0x03')"
    );
}

fn event(timestamp: u64) -> ReorganizationEvent {
    ReorganizationEvent {
        timestamp,
        attached_length: 4,
        old_tip: ChainTip { number: 8, hash: H256 { bytes: [0x11; 32] } },
        new_tip: ChainTip { number: 9, hash: H256 { bytes: [0x22; 32] } },
        ancestor: ChainTip { number: 5, hash: H256 { bytes: [0xab; 32] } },
    }
}

#[test]
fn reorganization_row_from_event() {
    let row = Reorganization::from_event(net(), &event(1_600_000_040_007)).unwrap();
    assert_eq!(row.network, "mainnet");
    assert_eq!(row.time, at(1_600_000_040_007));
    assert_eq!(row.time.to_string(), "2020-09-13 12:27:20.007");
    assert_eq!(row.attached_length, 4);
    assert_eq!(row.old_tip_number, 8);
    assert_eq!(row.new_tip_number, 9);
    assert_eq!(row.ancestor_number, 5);
    assert_eq!(row.old_tip_hash, format!("0x{}", "11".repeat(32)));
    assert_eq!(row.new_tip_hash, format!("0x{}", "22".repeat(32)));
    assert_eq!(row.ancestor_hash, format!("0x{}", "ab".repeat(32)));
    assert_eq!(
        row.insert_query(),
        format!(
            "INSERT INTO mainnet_reorganization (network, time, attached_length, \
             old_tip_number, new_tip_number, ancestor_number, old_tip_hash, new_tip_hash, \
             ancestor_hash)VALUES ('mainnet', '2020-09-13 12:27:20.007', 4, 8, 9, 5, \
             '0x{}', '0x{}', '0x{}')",
            "11".repeat(32),
            "22".repeat(32),
            "ab".repeat(32)
        )
    );
}

#[test]
fn reorganization_row_out_of_range() {
    // A time beyond what the calendar holds.
    assert!(Reorganization::from_event(net(), &event(i64::MAX as u64)).is_none());
    assert!(Reorganization::from_event(net(), &event(u64::MAX)).is_none());
    // Numbers that do not fit their columns.
    let mut long = event(0);
    long.attached_length = i32::MAX as u64 + 1;
    assert!(Reorganization::from_event(net(), &long).is_none());
    long.attached_length = i32::MAX as u64;
    assert_eq!(Reorganization::from_event(net(), &long).unwrap().attached_length, i32::MAX);
    let mut high = event(0);
    high.new_tip.number = i64::MAX as u64 + 1;
    assert!(Reorganization::from_event(net(), &high).is_none());
    let mut high = event(0);
    high.old_tip.number = u64::MAX;
    assert!(Reorganization::from_event(net(), &high).is_none());
    let mut high = event(0);
    high.ancestor.number = i64::MAX as u64 + 1;
    assert!(Reorganization::from_event(net(), &high).is_none());
}

#[test]
fn transaction_insert_query() {
    let row = Transaction {
        network: net(),
        enter_time: Some(at(1_600_000_040_000)),
        commit_time: None,
        remove_time: None,
        hash: "0xee".to_string(),
    };
    assert_eq!(
        row.insert_query(),
        "INSERT INTO mainnet_transaction (network, enter_time, hash)\
         VALUES ('mainnet', '2020-09-13 12:27:20', '0xee')"
    );
}

#[test]
fn transaction_update_query() {
    let committed = Transaction {
        network: net(),
        enter_time: None,
        commit_time: Some(at(1_600_000_040_000)),
        remove_time: Some(at(1_600_000_050_000)),
        hash: "0xee".to_string(),
    };
    assert_eq!(
        committed.update_query(),
        "UPDATE mainnet_transaction SET commit_time='2020-09-13 12:27:20' WHERE hash='0xee'"
    );
    let removed = Transaction { commit_time: None, ..committed.clone() };
    assert_eq!(
        removed.update_query(),
        "UPDATE mainnet_transaction SET remove_time='2020-09-13 12:27:30' WHERE hash='0xee'"
    );
}

#[test]
fn heartbeat_insert_query() {
    let row = Heartbeat {
        network: net(),
        time: at(1_600_000_040_000),
        peer_id: "QmPeer".to_string(),
        host: "10.0.0.1".to_string(),
        connected_duration: 3_600_000,
        client_version: "0.38.0".to_string(),
        country: "NZ".to_string(),
    };
    assert_eq!(
        row.insert_query(),
        "INSERT INTO mainnet_heartbeat(network, time, peer_id, host, connected_duration, \
         client_version, country)\
         VALUES ('mainnet', '2020-09-13 12:27:20', 'QmPeer', '10.0.0.1', 3600000, '0.38.0', 'NZ')"
    );
}

#[test]
fn propagation_insert_query() {
    let row = Propagation {
        network: net(),
        time: at(1_600_000_040_000),
        peer_id: "QmPeer".to_string(),
        hash: "0xff".to_string(),
        message_name: "compact_block".to_string(),
    };
    assert_eq!(
        row.insert_query(),
        "INSERT INTO mainnet_propagation(network, time, peer_id, hash, message_name)\
         VALUES ('mainnet', '2020-09-13 12:27:20', 'QmPeer', '0xff', 'compact_block')"
    );
}

#[test]
fn subscribe_new_tip_header_insert_query() {
    let row = SubscribeNewTipHeader {
        network: net(),
        time: at(1_600_000_040_500),
        hostname: "node-1".to_string(),
        block_timestamp: at(1_600_000_040_000),
        block_number: u64::MAX,
        block_hash: "0x12".to_string(),
    };
    assert_eq!(
        row.insert_query(),
        "INSERT INTO mainnet_subscribe_new_tip_header(network, time, hostname, \
         block_timestamp, block_number, block_hash)\
         VALUES ('mainnet', '2020-09-13 12:27:20.500', 'node-1', '2020-09-13 12:27:20', \
         18446744073709551615, '0x12')"
    );
}

#[test]
fn subscribe_new_transaction_insert_query() {
    let row = SubscribeNewTransaction {
        network: net(),
        time: at(1_600_000_040_000),
        hostname: "node-1".to_string(),
        transaction_hash: "0x34".to_string(),
    };
    assert_eq!(
        row.insert_query(),
        "INSERT INTO mainnet_subscribe_new_transaction(network, time, hostname, \
         transaction_hash)VALUES ('mainnet', '2020-09-13 12:27:20', 'node-1', '0x34')"
    );
}

#[test]
fn subscribe_proposed_transaction_insert_query() {
    let row = SubscribeProposedTransaction {
        network: net(),
        time: at(1_600_000_040_000),
        hostname: "node-2".to_string(),
        transaction_hash: "0x56".to_string(),
    };
    assert_eq!(
        row.insert_query(),
        "INSERT INTO mainnet_subscribe_proposed_transaction(network, time, hostname, \
         transaction_hash)VALUES ('mainnet', '2020-09-13 12:27:20', 'node-2', '0x56')"
    );
}
