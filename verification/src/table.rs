//! The rows that the analyzer stores, one kind for each table, and the SQL
//! statements that store them.

use crate::ancestor::ReorganizationEvent;
use crate::hash::H256;
use crate::text::{decimal, hex, push_hex, push_signed, push_str, push_unsigned};
use chrono::{DateTime, NaiveDateTime};
use vstd::prelude::*;

verus! {

/// `chrono::NaiveDateTime`: a date and a time of day without a time zone.
#[verifier::external_type_specification]
#[verifier::external_body]
pub struct ExNaiveDateTime(NaiveDateTime);

/// `NaiveDateTime`'s `Clone`, which copies the value.
pub assume_specification[ <NaiveDateTime as Clone>::clone ](time: &NaiveDateTime) -> (copy:
    NaiveDateTime)
    ensures
        copy == *time,
;

/// The text that `chrono` prints for `time`: the date, a space, and the time
/// of day, with a fraction of the second if there is one.
pub uninterp spec fn datetime_text(time: NaiveDateTime) -> Seq<char>;

/// The date and time that lie `millis` milliseconds after the beginning of
/// 1970, if `chrono` can hold it.
pub uninterp spec fn datetime_of_millis(millis: int) -> Option<NaiveDateTime>;

/// Calls `NaiveDateTime`'s `Display` through `to_string`.
///
/// Trusted: the text depends on `time` alone.
#[verifier::external_body]
pub(crate) fn time_text(time: &NaiveDateTime) -> (text: String)
    ensures
        text@ == datetime_text(*time),
{
    time.to_string()
}

/// Calls `DateTime::from_timestamp_millis` and `DateTime::naive_utc`.
///
/// Trusted: whether there is a result, and which, depends on `millis` alone.
#[verifier::external_body]
pub(crate) fn datetime_from_millis(millis: i64) -> (time: Option<NaiveDateTime>)
    ensures
        time == datetime_of_millis(millis as int),
{
    DateTime::from_timestamp_millis(millis).map(|time| time.naive_utc())
}

/// The text of a hash in a row: `0x` and its bytes in hexadecimal.
pub open spec fn hash_text(hash: H256) -> Seq<char> {
    "0x"@ + hex(hash@)
}

/// The text of a hash in a row: `0x` and its bytes in hexadecimal.
pub fn hash_string(hash: &H256) -> (text: String)
    ensures
        text@ == hash_text(*hash),
{
    let mut text = String::new();
    push_str(&mut text, "0x");
    assert(text@ =~= "0x"@);
    push_hex(&mut text, hash.bytes.as_slice());
    text
}

/// A block of the canonical chain.
#[derive(Clone, Debug)]
pub struct Block {
    /// Name of the observed network.
    pub network: String,
    /// Block time.
    pub time: NaiveDateTime,
    /// Block height.
    pub number: i64,
    /// Milliseconds since the parent block.
    pub interval: i64,
    pub n_transactions: i32,
    pub n_proposals: i32,
    pub n_uncles: i32,
    /// Block hash, in hexadecimal.
    pub hash: String,
    /// Lock hash of the miner, in hexadecimal.
    pub miner: String,
    pub version: i32,
}

impl Block {
    /// The text of `insert_query`.
    pub open spec fn spec_insert_query(&self) -> Seq<char> {
        "INSERT INTO "@
            + self.network@
            + "_block (network, time, number, interval, n_transactions, n_proposals, n_uncles, hash, miner, version)VALUES ('"@
            + self.network@
            + "', '"@
            + datetime_text(self.time)
            + "', "@
            + decimal(self.number as int)
            + ", "@
            + decimal(self.interval as int)
            + ", "@
            + decimal(self.n_transactions as int)
            + ", "@
            + decimal(self.n_proposals as int)
            + ", "@
            + decimal(self.n_uncles as int)
            + ", '"@
            + self.hash@
            + "', '"@
            + self.miner@
            + "', "@
            + decimal(self.version as int)
            + ")"@
    }

    /// The statement that stores the row.
    pub fn insert_query(&self) -> (query: String)
        ensures
            query@ == self.spec_insert_query(),
    {
        let mut query = String::new();
        push_str(&mut query, "INSERT INTO ");
        assert(query@ =~= "INSERT INTO "@);
        push_str(&mut query, self.network.as_str());
        push_str(&mut query, "_block (network, time, number, interval, n_transactions, n_proposals, n_uncles, hash, miner, version)VALUES ('");
        push_str(&mut query, self.network.as_str());
        push_str(&mut query, "', '");
        push_str(&mut query, time_text(&self.time).as_str());
        push_str(&mut query, "', ");
        push_signed(&mut query, self.number);
        push_str(&mut query, ", ");
        push_signed(&mut query, self.interval);
        push_str(&mut query, ", ");
        push_signed(&mut query, self.n_transactions as i64);
        push_str(&mut query, ", ");
        push_signed(&mut query, self.n_proposals as i64);
        push_str(&mut query, ", ");
        push_signed(&mut query, self.n_uncles as i64);
        push_str(&mut query, ", '");
        push_str(&mut query, self.hash.as_str());
        push_str(&mut query, "', '");
        push_str(&mut query, self.miner.as_str());
        push_str(&mut query, "', ");
        push_signed(&mut query, self.version as i64);
        push_str(&mut query, ")");
        query
    }
}

/// An uncle block.
#[derive(Clone, Debug)]
pub struct Uncle {
    pub network: String,
    /// Block time.
    pub time: NaiveDateTime,
    /// Block height.
    pub number: i64,
    /// Milliseconds behind the canonical block of the same height.
    pub lag_to_canonical: i64,
    pub n_transactions: i32,
    pub n_proposals: i32,
    /// Block hash, in hexadecimal.
    pub hash: String,
    /// Lock hash of the miner, in hexadecimal.
    pub miner: String,
    pub version: i32,
}

impl Uncle {
    /// The text of `insert_query`.
    pub open spec fn spec_insert_query(&self) -> Seq<char> {
        "INSERT INTO "@
            + self.network@
            + "_uncle (network, time, number, lag_to_canonical, n_transactions, n_proposals, hash, miner, version)VALUES ('"@
            + self.network@
            + "', '"@
            + datetime_text(self.time)
            + "', "@
            + decimal(self.number as int)
            + ", "@
            + decimal(self.lag_to_canonical as int)
            + ", "@
            + decimal(self.n_transactions as int)
            + ", "@
            + decimal(self.n_proposals as int)
            + ", '"@
            + self.hash@
            + "', '"@
            + self.miner@
            + "', "@
            + decimal(self.version as int)
            + ")"@
    }

    /// The statement that stores the row.
    pub fn insert_query(&self) -> (query: String)
        ensures
            query@ == self.spec_insert_query(),
    {
        let mut query = String::new();
        push_str(&mut query, "INSERT INTO ");
        assert(query@ =~= "INSERT INTO "@);
        push_str(&mut query, self.network.as_str());
        push_str(&mut query, "_uncle (network, time, number, lag_to_canonical, n_transactions, n_proposals, hash, miner, version)VALUES ('");
        push_str(&mut query, self.network.as_str());
        push_str(&mut query, "', '");
        push_str(&mut query, time_text(&self.time).as_str());
        push_str(&mut query, "', ");
        push_signed(&mut query, self.number);
        push_str(&mut query, ", ");
        push_signed(&mut query, self.lag_to_canonical);
        push_str(&mut query, ", ");
        push_signed(&mut query, self.n_transactions as i64);
        push_str(&mut query, ", ");
        push_signed(&mut query, self.n_proposals as i64);
        push_str(&mut query, ", '");
        push_str(&mut query, self.hash.as_str());
        push_str(&mut query, "', '");
        push_str(&mut query, self.miner.as_str());
        push_str(&mut query, "', ");
        push_signed(&mut query, self.version as i64);
        push_str(&mut query, ")");
        query
    }
}

/// The delay between the proposal of a transaction and its commitment.
#[derive(Clone, Debug)]
pub struct TwoPCCommitment {
    pub network: String,
    pub time: NaiveDateTime,
    /// Height of the committing block.
    pub number: i64,
    pub delay: i32,
}

impl TwoPCCommitment {
    /// The text of `insert_query`.
    pub open spec fn spec_insert_query(&self) -> Seq<char> {
        "INSERT INTO "@
            + self.network@
            + "_two_pc_commitment (network, time, number, delay) VALUES ('"@
            + self.network@
            + "', '"@
            + datetime_text(self.time)
            + "', "@
            + decimal(self.number as int)
            + ", "@
            + decimal(self.delay as int)
            + ")"@
    }

    /// The statement that stores the row.
    pub fn insert_query(&self) -> (query: String)
        ensures
            query@ == self.spec_insert_query(),
    {
        let mut query = String::new();
        push_str(&mut query, "INSERT INTO ");
        assert(query@ =~= "INSERT INTO "@);
        push_str(&mut query, self.network.as_str());
        push_str(&mut query, "_two_pc_commitment (network, time, number, delay) VALUES ('");
        push_str(&mut query, self.network.as_str());
        push_str(&mut query, "', '");
        push_str(&mut query, time_text(&self.time).as_str());
        push_str(&mut query, "', ");
        push_signed(&mut query, self.number);
        push_str(&mut query, ", ");
        push_signed(&mut query, self.delay as i64);
        push_str(&mut query, ")");
        query
    }
}

/// An epoch that has ended.
#[derive(Clone, Debug)]
pub struct Epoch {
    pub network: String,
    /// Block time of the last block of the epoch.
    pub time: NaiveDateTime,
    pub number: i64,
    pub length: i32,
    /// Milliseconds.
    pub duration: i32,
    pub n_uncles: i32,
}

impl Epoch {
    /// The text of `insert_query`.
    pub open spec fn spec_insert_query(&self) -> Seq<char> {
        "INSERT INTO "@
            + self.network@
            + "_epoch (network, time, number, length, duration, n_uncles) VALUES ('"@
            + self.network@
            + "', '"@
            + datetime_text(self.time)
            + "', "@
            + decimal(self.number as int)
            + ", "@
            + decimal(self.length as int)
            + ", "@
            + decimal(self.duration as int)
            + ", "@
            + decimal(self.n_uncles as int)
            + ")"@
    }

    /// The statement that stores the row.
    pub fn insert_query(&self) -> (query: String)
        ensures
            query@ == self.spec_insert_query(),
    {
        let mut query = String::new();
        push_str(&mut query, "INSERT INTO ");
        assert(query@ =~= "INSERT INTO "@);
        push_str(&mut query, self.network.as_str());
        push_str(&mut query, "_epoch (network, time, number, length, duration, n_uncles) VALUES ('");
        push_str(&mut query, self.network.as_str());
        push_str(&mut query, "', '");
        push_str(&mut query, time_text(&self.time).as_str());
        push_str(&mut query, "', ");
        push_signed(&mut query, self.number);
        push_str(&mut query, ", ");
        push_signed(&mut query, self.length as i64);
        push_str(&mut query, ", ");
        push_signed(&mut query, self.duration as i64);
        push_str(&mut query, ", ");
        push_signed(&mut query, self.n_uncles as i64);
        push_str(&mut query, ")");
        query
    }
}

/// A switch of the canonical chain to another branch.
#[derive(Clone, Debug)]
pub struct Reorganization {
    pub network: String,
    /// Block time of the common ancestor of the two branches.
    pub time: NaiveDateTime,
    /// Number of blocks on the new branch above the common ancestor.
    pub attached_length: i32,
    pub old_tip_number: i64,
    pub new_tip_number: i64,
    pub ancestor_number: i64,
    pub old_tip_hash: String,
    pub new_tip_hash: String,
    pub ancestor_hash: String,
}

impl Reorganization {
    /// The text of `insert_query`.
    pub open spec fn spec_insert_query(&self) -> Seq<char> {
        "INSERT INTO "@
            + self.network@
            + "_reorganization (network, time, attached_length, old_tip_number, new_tip_number, ancestor_number, old_tip_hash, new_tip_hash, ancestor_hash)VALUES ('"@
            + self.network@
            + "', '"@
            + datetime_text(self.time)
            + "', "@
            + decimal(self.attached_length as int)
            + ", "@
            + decimal(self.old_tip_number as int)
            + ", "@
            + decimal(self.new_tip_number as int)
            + ", "@
            + decimal(self.ancestor_number as int)
            + ", '"@
            + self.old_tip_hash@
            + "', '"@
            + self.new_tip_hash@
            + "', '"@
            + self.ancestor_hash@
            + "')"@
    }

    /// The statement that stores the row.
    pub fn insert_query(&self) -> (query: String)
        ensures
            query@ == self.spec_insert_query(),
    {
        let mut query = String::new();
        push_str(&mut query, "INSERT INTO ");
        assert(query@ =~= "INSERT INTO "@);
        push_str(&mut query, self.network.as_str());
        push_str(&mut query, "_reorganization (network, time, attached_length, old_tip_number, new_tip_number, ancestor_number, old_tip_hash, new_tip_hash, ancestor_hash)VALUES ('");
        push_str(&mut query, self.network.as_str());
        push_str(&mut query, "', '");
        push_str(&mut query, time_text(&self.time).as_str());
        push_str(&mut query, "', ");
        push_signed(&mut query, self.attached_length as i64);
        push_str(&mut query, ", ");
        push_signed(&mut query, self.old_tip_number);
        push_str(&mut query, ", ");
        push_signed(&mut query, self.new_tip_number);
        push_str(&mut query, ", ");
        push_signed(&mut query, self.ancestor_number);
        push_str(&mut query, ", '");
        push_str(&mut query, self.old_tip_hash.as_str());
        push_str(&mut query, "', '");
        push_str(&mut query, self.new_tip_hash.as_str());
        push_str(&mut query, "', '");
        push_str(&mut query, self.ancestor_hash.as_str());
        push_str(&mut query, "')");
        query
    }


    /// Whether `event` can be stored as a row: its numbers fit the columns
    /// and its time is one that `chrono` can hold.
    pub open spec fn storable(event: ReorganizationEvent) -> bool {
        &&& event.attached_length <= i32::MAX
        &&& event.old_tip.number <= i64::MAX
        &&& event.new_tip.number <= i64::MAX
        &&& event.ancestor.number <= i64::MAX
        &&& event.timestamp <= i64::MAX
        &&& datetime_of_millis(event.timestamp as int) is Some
    }

    /// Whether the row holds what `event` reports of the network `network`.
    pub open spec fn describes(&self, network: Seq<char>, event: ReorganizationEvent) -> bool {
        &&& self.network@ == network
        &&& Some(self.time) == datetime_of_millis(event.timestamp as int)
        &&& self.attached_length == event.attached_length
        &&& self.old_tip_number == event.old_tip.number
        &&& self.new_tip_number == event.new_tip.number
        &&& self.ancestor_number == event.ancestor.number
        &&& self.old_tip_hash@ == hash_text(event.old_tip.hash)
        &&& self.new_tip_hash@ == hash_text(event.new_tip.hash)
        &&& self.ancestor_hash@ == hash_text(event.ancestor.hash)
    }

    /// The row for a reorganization of the network `network`, timed at the
    /// block time of the common ancestor; `None` if a number of the event
    /// does not fit its column or its time is out of range.
    pub fn from_event(network: String, event: &ReorganizationEvent) -> (row: Option<
        Reorganization,
    >)
        ensures
            row is Some <==> Reorganization::storable(*event),
            row matches Some(stored) ==> stored.describes(network@, *event),
    {
        if event.attached_length > i32::MAX as u64 || event.old_tip.number > i64::MAX as u64
            || event.new_tip.number > i64::MAX as u64 || event.ancestor.number > i64::MAX as u64
            || event.timestamp > i64::MAX as u64 {
            return None;
        }
        match datetime_from_millis(event.timestamp as i64) {
            None => None,
            Some(time) => Some(
                Reorganization {
                    network,
                    time,
                    attached_length: event.attached_length as i32,
                    old_tip_number: event.old_tip.number as i64,
                    new_tip_number: event.new_tip.number as i64,
                    ancestor_number: event.ancestor.number as i64,
                    old_tip_hash: hash_string(&event.old_tip.hash),
                    new_tip_hash: hash_string(&event.new_tip.hash),
                    ancestor_hash: hash_string(&event.ancestor.hash),
                },
            ),
        }
    }
}

/// The life of a transaction in the pool.
#[derive(Clone, Debug)]
pub struct Transaction {
    pub network: String,
    /// When the transaction entered the pool.
    pub enter_time: Option<NaiveDateTime>,
    /// When the transaction was committed.
    pub commit_time: Option<NaiveDateTime>,
    /// When the transaction was removed from the pool.
    pub remove_time: Option<NaiveDateTime>,
    pub hash: String,
}

impl Transaction {
    /// The text of `insert_query`.
    pub open spec fn spec_insert_query(&self) -> Seq<char> {
        "INSERT INTO "@
            + self.network@
            + "_transaction (network, enter_time, hash)VALUES ('"@
            + self.network@
            + "', '"@
            + datetime_text(self.enter_time.unwrap())
            + "', '"@
            + self.hash@
            + "')"@
    }

    /// The statement that stores a transaction that entered the pool.
    pub fn insert_query(&self) -> (query: String)
        requires
            self.enter_time is Some,
        ensures
            query@ == self.spec_insert_query(),
    {
        let mut query = String::new();
        push_str(&mut query, "INSERT INTO ");
        assert(query@ =~= "INSERT INTO "@);
        push_str(&mut query, self.network.as_str());
        push_str(&mut query, "_transaction (network, enter_time, hash)VALUES ('");
        push_str(&mut query, self.network.as_str());
        push_str(&mut query, "', '");
        let enter_time = self.enter_time.unwrap();
        push_str(&mut query, time_text(&enter_time).as_str());
        push_str(&mut query, "', '");
        push_str(&mut query, self.hash.as_str());
        push_str(&mut query, "')");
        query
    }

    /// The text of `update_query`: the time of commitment if there is one,
    /// else the time of removal.
    pub open spec fn spec_update_query(&self) -> Seq<char> {
        if self.commit_time is Some {
            "UPDATE "@
                + self.network@
                + "_transaction SET commit_time='"@
                + datetime_text(self.commit_time.unwrap())
                + "' WHERE hash='"@
                + self.hash@
                + "'"@
        } else {
            "UPDATE "@
                + self.network@
                + "_transaction SET remove_time='"@
                + datetime_text(self.remove_time.unwrap())
                + "' WHERE hash='"@
                + self.hash@
                + "'"@
        }
    }

    /// The statement that stores how the transaction left the pool: its
    /// commitment if the row holds a time of commitment, else its removal.
    pub fn update_query(&self) -> (query: String)
        requires
            self.commit_time is Some || self.remove_time is Some,
        ensures
            query@ == self.spec_update_query(),
    {
        let mut query = String::new();
        push_str(&mut query, "UPDATE ");
        assert(query@ =~= "UPDATE "@);
        push_str(&mut query, self.network.as_str());
        match self.commit_time {
            Some(commit_time) => {
                push_str(&mut query, "_transaction SET commit_time='");
                push_str(&mut query, time_text(&commit_time).as_str());
            },
            None => {
                let remove_time = self.remove_time.unwrap();
                push_str(&mut query, "_transaction SET remove_time='");
                push_str(&mut query, time_text(&remove_time).as_str());
            },
        }
        push_str(&mut query, "' WHERE hash='");
        push_str(&mut query, self.hash.as_str());
        push_str(&mut query, "'");
        query
    }
}

/// A peer seen alive.
#[derive(Clone, Debug)]
pub struct Heartbeat {
    pub network: String,
    pub time: NaiveDateTime,
    pub peer_id: String,
    pub host: String,
    /// Milliseconds.
    pub connected_duration: i64,
    pub client_version: String,
    pub country: String,
}

impl Heartbeat {
    /// The text of `insert_query`.
    pub open spec fn spec_insert_query(&self) -> Seq<char> {
        "INSERT INTO "@
            + self.network@
            + "_heartbeat(network, time, peer_id, host, connected_duration, client_version, country)VALUES ('"@
            + self.network@
            + "', '"@
            + datetime_text(self.time)
            + "', '"@
            + self.peer_id@
            + "', '"@
            + self.host@
            + "', "@
            + decimal(self.connected_duration as int)
            + ", '"@
            + self.client_version@
            + "', '"@
            + self.country@
            + "')"@
    }

    /// The statement that stores the row.
    pub fn insert_query(&self) -> (query: String)
        ensures
            query@ == self.spec_insert_query(),
    {
        let mut query = String::new();
        push_str(&mut query, "INSERT INTO ");
        assert(query@ =~= "INSERT INTO "@);
        push_str(&mut query, self.network.as_str());
        push_str(&mut query, "_heartbeat(network, time, peer_id, host, connected_duration, client_version, country)VALUES ('");
        push_str(&mut query, self.network.as_str());
        push_str(&mut query, "', '");
        push_str(&mut query, time_text(&self.time).as_str());
        push_str(&mut query, "', '");
        push_str(&mut query, self.peer_id.as_str());
        push_str(&mut query, "', '");
        push_str(&mut query, self.host.as_str());
        push_str(&mut query, "', ");
        push_signed(&mut query, self.connected_duration);
        push_str(&mut query, ", '");
        push_str(&mut query, self.client_version.as_str());
        push_str(&mut query, "', '");
        push_str(&mut query, self.country.as_str());
        push_str(&mut query, "')");
        query
    }
}

/// The arrival of a message from a peer.
#[derive(Clone, Debug)]
pub struct Propagation {
    pub network: String,
    pub time: NaiveDateTime,
    pub peer_id: String,
    pub hash: String,
    pub message_name: String,
}

impl Propagation {
    /// The text of `insert_query`.
    pub open spec fn spec_insert_query(&self) -> Seq<char> {
        "INSERT INTO "@
            + self.network@
            + "_propagation(network, time, peer_id, hash, message_name)VALUES ('"@
            + self.network@
            + "', '"@
            + datetime_text(self.time)
            + "', '"@
            + self.peer_id@
            + "', '"@
            + self.hash@
            + "', '"@
            + self.message_name@
            + "')"@
    }

    /// The statement that stores the row.
    pub fn insert_query(&self) -> (query: String)
        ensures
            query@ == self.spec_insert_query(),
    {
        let mut query = String::new();
        push_str(&mut query, "INSERT INTO ");
        assert(query@ =~= "INSERT INTO "@);
        push_str(&mut query, self.network.as_str());
        push_str(&mut query, "_propagation(network, time, peer_id, hash, message_name)VALUES ('");
        push_str(&mut query, self.network.as_str());
        push_str(&mut query, "', '");
        push_str(&mut query, time_text(&self.time).as_str());
        push_str(&mut query, "', '");
        push_str(&mut query, self.peer_id.as_str());
        push_str(&mut query, "', '");
        push_str(&mut query, self.hash.as_str());
        push_str(&mut query, "', '");
        push_str(&mut query, self.message_name.as_str());
        push_str(&mut query, "')");
        query
    }
}

/// A new tip header announced by a node.
#[derive(Clone, Debug)]
pub struct SubscribeNewTipHeader {
    pub network: String,
    pub time: NaiveDateTime,
    pub hostname: String,
    pub block_timestamp: NaiveDateTime,
    pub block_number: u64,
    pub block_hash: String,
}

impl SubscribeNewTipHeader {
    /// The text of `insert_query`.
    pub open spec fn spec_insert_query(&self) -> Seq<char> {
        "INSERT INTO "@
            + self.network@
            + "_subscribe_new_tip_header(network, time, hostname, block_timestamp, block_number, block_hash)VALUES ('"@
            + self.network@
            + "', '"@
            + datetime_text(self.time)
            + "', '"@
            + self.hostname@
            + "', '"@
            + datetime_text(self.block_timestamp)
            + "', "@
            + decimal(self.block_number as int)
            + ", '"@
            + self.block_hash@
            + "')"@
    }

    /// The statement that stores the row.
    pub fn insert_query(&self) -> (query: String)
        ensures
            query@ == self.spec_insert_query(),
    {
        let mut query = String::new();
        push_str(&mut query, "INSERT INTO ");
        assert(query@ =~= "INSERT INTO "@);
        push_str(&mut query, self.network.as_str());
        push_str(&mut query, "_subscribe_new_tip_header(network, time, hostname, block_timestamp, block_number, block_hash)VALUES ('");
        push_str(&mut query, self.network.as_str());
        push_str(&mut query, "', '");
        push_str(&mut query, time_text(&self.time).as_str());
        push_str(&mut query, "', '");
        push_str(&mut query, self.hostname.as_str());
        push_str(&mut query, "', '");
        push_str(&mut query, time_text(&self.block_timestamp).as_str());
        push_str(&mut query, "', ");
        push_unsigned(&mut query, self.block_number);
        push_str(&mut query, ", '");
        push_str(&mut query, self.block_hash.as_str());
        push_str(&mut query, "')");
        query
    }
}

/// A new transaction announced by a node.
#[derive(Clone, Debug)]
pub struct SubscribeNewTransaction {
    pub network: String,
    pub time: NaiveDateTime,
    pub hostname: String,
    pub transaction_hash: String,
}

impl SubscribeNewTransaction {
    /// The text of `insert_query`.
    pub open spec fn spec_insert_query(&self) -> Seq<char> {
        "INSERT INTO "@
            + self.network@
            + "_subscribe_new_transaction(network, time, hostname, transaction_hash)VALUES ('"@
            + self.network@
            + "', '"@
            + datetime_text(self.time)
            + "', '"@
            + self.hostname@
            + "', '"@
            + self.transaction_hash@
            + "')"@
    }

    /// The statement that stores the row.
    pub fn insert_query(&self) -> (query: String)
        ensures
            query@ == self.spec_insert_query(),
    {
        let mut query = String::new();
        push_str(&mut query, "INSERT INTO ");
        assert(query@ =~= "INSERT INTO "@);
        push_str(&mut query, self.network.as_str());
        push_str(&mut query, "_subscribe_new_transaction(network, time, hostname, transaction_hash)VALUES ('");
        push_str(&mut query, self.network.as_str());
        push_str(&mut query, "', '");
        push_str(&mut query, time_text(&self.time).as_str());
        push_str(&mut query, "', '");
        push_str(&mut query, self.hostname.as_str());
        push_str(&mut query, "', '");
        push_str(&mut query, self.transaction_hash.as_str());
        push_str(&mut query, "')");
        query
    }
}

/// A proposed transaction announced by a node.
#[derive(Clone, Debug)]
pub struct SubscribeProposedTransaction {
    pub network: String,
    pub time: NaiveDateTime,
    pub hostname: String,
    pub transaction_hash: String,
}

impl SubscribeProposedTransaction {
    /// The text of `insert_query`.
    pub open spec fn spec_insert_query(&self) -> Seq<char> {
        "INSERT INTO "@
            + self.network@
            + "_subscribe_proposed_transaction(network, time, hostname, transaction_hash)VALUES ('"@
            + self.network@
            + "', '"@
            + datetime_text(self.time)
            + "', '"@
            + self.hostname@
            + "', '"@
            + self.transaction_hash@
            + "')"@
    }

    /// The statement that stores the row.
    pub fn insert_query(&self) -> (query: String)
        ensures
            query@ == self.spec_insert_query(),
    {
        let mut query = String::new();
        push_str(&mut query, "INSERT INTO ");
        assert(query@ =~= "INSERT INTO "@);
        push_str(&mut query, self.network.as_str());
        push_str(&mut query, "_subscribe_proposed_transaction(network, time, hostname, transaction_hash)VALUES ('");
        push_str(&mut query, self.network.as_str());
        push_str(&mut query, "', '");
        push_str(&mut query, time_text(&self.time).as_str());
        push_str(&mut query, "', '");
        push_str(&mut query, self.hostname.as_str());
        push_str(&mut query, "', '");
        push_str(&mut query, self.transaction_hash.as_str());
        push_str(&mut query, "')");
        query
    }
}

} // verus!
