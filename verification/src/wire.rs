//! Decoding of the payloads that peers send on the relay and sync protocols.
//!
//! The wire format and the hashing of blocks and transactions are those of
//! `ckb_types`; this module calls them and hands on plain hashes.

use crate::chain::Header;
use crate::hash::H256;
use ckb_jsonrpc_types::HeaderView;
use ckb_types::error::VerificationError;
use ckb_types::packed::{RelayMessage, RelayMessageUnion, SyncMessage, SyncMessageUnion};
use ckb_types::prelude::{Entity, Unpack};
use jsonrpc_core::serde_json::Error;
use vstd::prelude::*;

verus! {

/// `molecule::error::VerificationError`: why a payload is not a well-formed
/// message.
#[verifier::external_type_specification]
#[verifier::external_body]
pub struct ExVerificationError(VerificationError);

/// `serde_json::Error`: why a text is not the JSON of the value asked for.
#[verifier::external_type_specification]
#[verifier::external_body]
pub struct ExJsonError(Error);

/// A decoded message of the relay protocol, as far as the probe reads it.
#[derive(Clone, Debug, PartialEq, Eq)]
pub enum RelayItem {
    /// A compact block, by the hash of its header.
    CompactBlock(H256),
    /// Relayed transactions, by their hashes, in the order of the message.
    RelayTransactions(Vec<H256>),
    /// Announced transaction hashes, in the order of the message.
    RelayTransactionHashes(Vec<H256>),
    GetRelayTransactions,
    GetBlockTransactions,
    BlockTransactions,
    GetBlockProposal,
    BlockProposal,
}

/// What a decoded message of the relay protocol holds.
pub enum RelayContent {
    CompactBlock(H256),
    RelayTransactions(Seq<H256>),
    RelayTransactionHashes(Seq<H256>),
    GetRelayTransactions,
    GetBlockTransactions,
    BlockTransactions,
    GetBlockProposal,
    BlockProposal,
}

impl View for RelayItem {
    type V = RelayContent;

    open spec fn view(&self) -> RelayContent {
        match *self {
            RelayItem::CompactBlock(hash) => RelayContent::CompactBlock(hash),
            RelayItem::RelayTransactions(hashes) => RelayContent::RelayTransactions(hashes@),
            RelayItem::RelayTransactionHashes(hashes) => RelayContent::RelayTransactionHashes(
                hashes@,
            ),
            RelayItem::GetRelayTransactions => RelayContent::GetRelayTransactions,
            RelayItem::GetBlockTransactions => RelayContent::GetBlockTransactions,
            RelayItem::BlockTransactions => RelayContent::BlockTransactions,
            RelayItem::GetBlockProposal => RelayContent::GetBlockProposal,
            RelayItem::BlockProposal => RelayContent::BlockProposal,
        }
    }
}

/// The kind of a decoded message of the sync protocol.
#[derive(Clone, Copy, Debug, PartialEq, Eq)]
pub enum SyncItem {
    GetHeaders,
    SendHeaders,
    GetBlocks,
    SendBlock,
    InIBD,
}

/// Why a payload was refused.
#[derive(Clone, Copy, Debug, PartialEq, Eq)]
pub enum DecodeError {
    /// The payload is not a well-formed message of the relay protocol.
    MalformedRelay,
    /// The payload is not a well-formed message of the sync protocol.
    MalformedSync,
    /// The text is not the JSON of a header.
    MalformedHeader,
}

/// What the relay message that `data` encodes holds, if `data` encodes one:
/// the header hash of a compact block, the hash of each relayed transaction,
/// or each announced transaction hash.
pub uninterp spec fn relay_item(data: Seq<u8>) -> Option<RelayContent>;

/// The kind of sync message that `data` encodes, if it encodes one.
pub uninterp spec fn sync_item(data: Seq<u8>) -> Option<SyncItem>;

/// The header that the JSON text `message` describes, if it describes one.
/// The hash is computed from the fields of the header.
pub uninterp spec fn announced_header(message: Seq<char>) -> Option<Header>;

/// Calls `jsonrpc_core::serde_from_str` for a `ckb_jsonrpc_types::HeaderView`,
/// converts that into a `ckb_types::core::HeaderView` and reads its hash,
/// parent hash, number and timestamp.
///
/// Trusted: whether `message` is accepted and which header it gives depend
/// on `message` alone.
#[verifier::external_body]
pub(crate) fn parse_header(message: &str) -> (parsed: Result<Header, Error>)
    ensures
        match parsed {
            Ok(header) => announced_header(message@) == Some(header),
            Err(_) => announced_header(message@) is None,
        },
{
    let json: HeaderView = jsonrpc_core::serde_from_str(message)?;
    let view: ckb_types::core::HeaderView = json.into();
    Ok(
        Header {
            hash: H256 { bytes: view.hash().unpack() },
            parent_hash: H256 { bytes: view.parent_hash().unpack() },
            number: view.number(),
            timestamp: view.timestamp(),
        },
    )
}

/// Calls `RelayMessage::from_slice` and, on a message that it accepts,
/// `RelayMessage::to_enum`; then, on the part that was just checked,
/// `CompactBlock::calc_header_hash`, or `RelayTransactions::transactions`
/// with `Transaction::calc_tx_hash` for each, or
/// `RelayTransactionHashes::tx_hashes`.
///
/// Trusted: whether `data` is accepted and what it decodes to depend on
/// `data` alone.
#[verifier::external_body]
pub(crate) fn parse_relay(data: &[u8]) -> (parsed: Result<RelayItem, VerificationError>)
    ensures
        match parsed {
            Ok(item) => relay_item(data@) == Some(item@),
            Err(_) => relay_item(data@) is None,
        },
{
    Ok(match RelayMessage::from_slice(data)?.to_enum() {
        RelayMessageUnion::CompactBlock(b) => RelayItem::CompactBlock(
            H256 { bytes: b.calc_header_hash().unpack() }),
        RelayMessageUnion::RelayTransactions(l) => RelayItem::RelayTransactions(l.transactions()
            .into_iter().map(|t| H256 { bytes: t.transaction().calc_tx_hash().unpack() }).collect()),
        RelayMessageUnion::RelayTransactionHashes(l) => RelayItem::RelayTransactionHashes(
            l.tx_hashes().into_iter().map(|h| H256 { bytes: h.unpack() }).collect()),
        RelayMessageUnion::GetRelayTransactions(_) => RelayItem::GetRelayTransactions,
        RelayMessageUnion::GetBlockTransactions(_) => RelayItem::GetBlockTransactions,
        RelayMessageUnion::BlockTransactions(_) => RelayItem::BlockTransactions,
        RelayMessageUnion::GetBlockProposal(_) => RelayItem::GetBlockProposal,
        RelayMessageUnion::BlockProposal(_) => RelayItem::BlockProposal,
    })
}

/// Calls `SyncMessage::from_slice` and, on a well-formed message,
/// `SyncMessage::to_enum`.
///
/// Trusted: whether `data` is accepted and which kind of message it decodes
/// to depend on `data` alone.
#[verifier::external_body]
pub(crate) fn parse_sync(data: &[u8]) -> (parsed: Result<SyncItem, VerificationError>)
    ensures
        match parsed {
            Ok(item) => sync_item(data@) == Some(item),
            Err(_) => sync_item(data@) is None,
        },
{
    Ok(
        match SyncMessage::from_slice(data)?.to_enum() {
            SyncMessageUnion::GetHeaders(_) => SyncItem::GetHeaders,
            SyncMessageUnion::SendHeaders(_) => SyncItem::SendHeaders,
            SyncMessageUnion::GetBlocks(_) => SyncItem::GetBlocks,
            SyncMessageUnion::SendBlock(_) => SyncItem::SendBlock,
            SyncMessageUnion::InIBD(_) => SyncItem::InIBD,
        },
    )
}

} // verus!
