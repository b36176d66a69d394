//! The domain entity payloads (blocks, logs, receipts, fee-history queries)
//! and the block-tag designation. The reconciliation logic treats these as
//! opaque, already-decoded values: nothing here is inspected by the resolver,
//! the shapes only carry the data the external dispatch layer produced.

use vstd::prelude::*;

verus! {

/// Numeric chain quantities (block numbers, gas values, difficulties) are
/// arbitrary-precision naturals. Relies on candid's `Nat` type to hold them;
/// values of it are carried through unread.
#[verifier::external_type_specification]
#[verifier::external_body]
pub struct ExNat(candid::Nat);

/// Relies on candid `Nat`'s derived `Clone`: the clone equals the original.
pub assume_specification[ <candid::Nat as Clone>::clone ](n: &candid::Nat) -> (res: candid::Nat)
    ensures
        res == *n,
;

/// Designates a point in the chain: one of the symbolic tags, or an explicit
/// block number.
#[derive(Clone, Debug, PartialEq, Eq)]
pub enum BlockTag {
    Latest,
    Finalized,
    Safe,
    Earliest,
    Pending,
    Number(candid::Nat),
}

impl Default for BlockTag {
    /// When a caller leaves the tag unspecified it defaults to `Latest`.
    fn default() -> (tag: Self)
        ensures
            tag == BlockTag::Latest,
    {
        BlockTag::Latest
    }
}

/// A decoded block header.
#[derive(Clone, Debug, PartialEq, Eq)]
pub struct Block {
    pub base_fee_per_gas: candid::Nat,
    pub number: candid::Nat,
    pub difficulty: candid::Nat,
    pub extra_data: String,
    pub gas_limit: candid::Nat,
    pub gas_used: candid::Nat,
    pub hash: String,
    pub logs_bloom: String,
    pub miner: String,
    pub mix_hash: String,
    pub nonce: candid::Nat,
    pub parent_hash: String,
    pub receipts_root: String,
    pub sha3_uncles: String,
    pub size: candid::Nat,
    pub state_root: String,
    pub timestamp: candid::Nat,
    pub total_difficulty: candid::Nat,
    pub transactions: Vec<String>,
    pub transactions_root: Option<String>,
    pub uncles: Vec<String>,
}

/// A decoded log entry.
#[derive(Clone, Debug, PartialEq, Eq)]
pub struct LogEntry {
    pub address: String,
    pub topics: Vec<String>,
    pub data: String,
    pub block_number: Option<candid::Nat>,
    pub transaction_hash: Option<String>,
    pub transaction_index: Option<candid::Nat>,
    pub block_hash: Option<String>,
    pub log_index: Option<candid::Nat>,
    pub removed: bool,
}

/// The query arguments for a log read.
#[derive(Clone, Debug, PartialEq, Eq)]
pub struct GetLogsArgs {
    pub from_block: Option<BlockTag>,
    pub to_block: Option<BlockTag>,
    pub addresses: Vec<String>,
    pub topics: Option<Vec<Vec<String>>>,
}

/// The query arguments for a fee-history read.
#[derive(Clone, Debug, PartialEq, Eq)]
pub struct FeeHistoryArgs {
    pub block_count: u128,
    pub newest_block: BlockTag,
    pub reward_percentiles: Option<Vec<u8>>,
}

/// A decoded transaction receipt.
#[derive(Clone, Debug, PartialEq, Eq)]
pub struct TransactionReceipt {
    pub block_hash: String,
    pub block_number: candid::Nat,
    pub effective_gas_price: candid::Nat,
    pub gas_used: candid::Nat,
    pub status: candid::Nat,
    pub transaction_hash: String,
    pub contract_address: Option<String>,
    pub from: String,
    pub logs: Vec<LogEntry>,
    pub logs_bloom: String,
    pub to: String,
    pub transaction_index: candid::Nat,
    pub tx_type: String,
}

/// The query arguments for a transaction-count read.
#[derive(Clone, Debug, PartialEq, Eq)]
pub struct GetTransactionCountArgs {
    pub address: String,
    pub block: BlockTag,
}

/// The outcome of submitting a raw transaction. `Sent` carries the
/// transaction hash when the endpoint reported one.
#[derive(Clone, Debug, PartialEq, Eq)]
pub enum SendRawTransactionStatus {
    Sent(Option<String>),
    InsufficientFunds,
    NonceTooLow,
    NonceTooHigh,
}

} // verus!
