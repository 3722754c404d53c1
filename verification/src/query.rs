//! Typed queries to the node.
//!
//! A query names one question that the node answers, with its arguments in
//! the shape the node expects.

use vstd::prelude::*;

verus! {

/// Identifies one block, by its position in the chain or by its hash.
#[derive(Clone, Debug, PartialEq, Eq)]
pub enum BlockTarget {
    /// The block at this height.
    Height(u64),
    /// The block with this hash, as 64 hexadecimal characters.
    Hash(String),
}

/// How much of a block the node returns.
#[derive(Clone, Copy, Debug, PartialEq, Eq, Structural)]
pub enum Verbosity {
    /// The serialised block as hexadecimal text.
    SerializedHexEncodedData,
    /// The block's fields, with the identifiers of its transactions.
    BlockObjectWithoutTransactionInformation,
    /// The block's fields, with every transaction in full.
    BlockObjectWithTransactionInformation,
}

/// The trailing window of a transaction-statistics query. A part left unset
/// is chosen by the node.
#[derive(Clone, Debug, PartialEq, Eq)]
pub struct TxStatsWindow {
    /// Length of the window in blocks.
    pub n_blocks: Option<u64>,
    /// Hash of the block that ends the window.
    pub blockhash: Option<String>,
}

/// The trailing window of a hash-rate estimate. A part left unset is chosen
/// by the node.
#[derive(Clone, Copy, Debug, PartialEq, Eq, Structural)]
pub struct HashRateWindow {
    /// Length of the window in blocks.
    pub n_blocks: Option<u64>,
    /// Height at which the estimate is taken.
    pub height: Option<u64>,
}

/// Which block to retrieve, and in how much detail. With no verbosity the
/// node's own default applies.
#[derive(Clone, Debug, PartialEq, Eq)]
pub struct BlockSelector {
    /// Hash of the block.
    pub blockhash: String,
    /// Level of detail, if the caller chose one.
    pub verbosity: Option<Verbosity>,
}

/// One question to the node.
#[derive(Clone, Debug, PartialEq, Eq)]
pub enum Query {
    /// The height of the chain's tip.
    BlockCount,
    /// The statistics of one block.
    BlockStats(BlockTarget),
    /// A summary of the set of unspent outputs.
    TxOutSetInfo,
    /// Transaction counts over a trailing window.
    ChainTxStats(TxStatsWindow),
    /// The current mining difficulty.
    Difficulty,
    /// The hash of the block at a height.
    BlockHash(u64),
    /// An estimate of the network's hash rate over a trailing window.
    NetworkHashPs(HashRateWindow),
    /// One block.
    Block(BlockSelector),
}

} // verus!
