//! From request parameters to typed queries.
//!
//! Request parameters arrive loosely typed: a text that is a block hash or a
//! height, a number that selects a level of detail, optional window sizes.
//! Each function here turns the parameters of one endpoint into the query to
//! put to the node, or says why they cannot be honoured.

use vstd::prelude::*;
use vstd::string::*;
use crate::decimal::{
    decimal_digits, lemma_usual_writing_is_read_back, parse_unsigned, unsigned_value,
};
use crate::error::ErrorKind;
use crate::query::{BlockSelector, BlockTarget, HashRateWindow, Query, TxStatsWindow, Verbosity};

verus! {

/// Number of characters in a block hash.
pub const BLOCK_HASH_LENGTH: usize = 64;

/// What a text identifies: a hash if it is 64 characters long, whatever the
/// characters, and else the height that it denotes in decimal.
///
/// A height written with exactly 64 characters is therefore taken for a hash.
pub open spec fn target_of(text: String) -> Result<BlockTarget, ErrorKind> {
    if text@.len() == BLOCK_HASH_LENGTH {
        Ok(BlockTarget::Hash(text))
    } else {
        match unsigned_value(text@) {
            Some(height) => Ok(BlockTarget::Height(height)),
            None => Err(ErrorKind::InvalidArgument),
        }
    }
}

/// The level of detail that a verbosity number selects, if it selects one.
pub open spec fn verbosity_of(level: u64) -> Option<Verbosity> {
    if level == 0 {
        Some(Verbosity::SerializedHexEncodedData)
    } else if level == 1 {
        Some(Verbosity::BlockObjectWithoutTransactionInformation)
    } else if level == 2 {
        Some(Verbosity::BlockObjectWithTransactionInformation)
    } else {
        None
    }
}

/// Classifies `text` as a block hash or a block height.
///
/// A hash is handed on as it came. Text of any other length must be a
/// decimal height, or the argument is invalid.
pub fn parse_block_target(text: String) -> (target: Result<BlockTarget, ErrorKind>)
    ensures
        target == target_of(text),
        text@.len() == 64 ==> target == Ok::<BlockTarget, ErrorKind>(BlockTarget::Hash(text)),
        target is Err <==> text@.len() != 64 && unsigned_value(text@) is None,
        target matches Err(kind) ==> kind == ErrorKind::InvalidArgument,
{
    if text.as_str().unicode_len() == BLOCK_HASH_LENGTH {
        Ok(BlockTarget::Hash(text))
    } else {
        match parse_unsigned(text.as_str()) {
            Some(height) => Ok(BlockTarget::Height(height)),
            None => Err(ErrorKind::InvalidArgument),
        }
    }
}

/// Maps a verbosity number to a level of detail: 0, 1 and 2 are the three
/// levels, and every other number is an invalid argument.
pub fn verbosity_for_level(level: u64) -> (verbosity: Result<Verbosity, ErrorKind>)
    ensures
        verbosity == match verbosity_of(level) {
            Some(v) => Ok::<Verbosity, ErrorKind>(v),
            None => Err::<Verbosity, ErrorKind>(ErrorKind::InvalidArgument),
        },
        verbosity is Ok <==> level <= 2,
{
    if level == 0 {
        Ok(Verbosity::SerializedHexEncodedData)
    } else if level == 1 {
        Ok(Verbosity::BlockObjectWithoutTransactionInformation)
    } else if level == 2 {
        Ok(Verbosity::BlockObjectWithTransactionInformation)
    } else {
        Err(ErrorKind::InvalidArgument)
    }
}

/// The query for the statistics of one block.
///
/// The target is classified first; a selection of statistics is understood
/// but not honoured yet.
pub fn block_stats_query(hash_or_height: String, stats: Option<Vec<String>>) -> (query: Result<
    Query,
    ErrorKind,
>)
    ensures
        query == match target_of(hash_or_height) {
            Err(kind) => Err::<Query, ErrorKind>(kind),
            Ok(target) => if stats is Some {
                Err::<Query, ErrorKind>(ErrorKind::NotImplemented)
            } else {
                Ok::<Query, ErrorKind>(Query::BlockStats(target))
            },
        },
{
    let target = parse_block_target(hash_or_height)?;
    if stats.is_some() {
        Err(ErrorKind::NotImplemented)
    } else {
        Ok(Query::BlockStats(target))
    }
}

/// The query for the summary of unspent outputs. A choice of hash type is
/// understood but not honoured yet.
pub fn tx_out_set_info_query(hash_type: Option<String>) -> (query: Result<Query, ErrorKind>)
    ensures
        query == if hash_type is Some {
            Err::<Query, ErrorKind>(ErrorKind::NotImplemented)
        } else {
            Ok::<Query, ErrorKind>(Query::TxOutSetInfo)
        },
{
    if hash_type.is_some() {
        Err(ErrorKind::NotImplemented)
    } else {
        Ok(Query::TxOutSetInfo)
    }
}

/// The query for transaction statistics. Each parameter that is present is
/// handed on; each that is absent is left for the node to choose.
pub fn chain_tx_stats_query(n_blocks: Option<u64>, blockhash: Option<String>) -> (query: Query)
    ensures
        query == Query::ChainTxStats(TxStatsWindow { n_blocks, blockhash }),
{
    Query::ChainTxStats(TxStatsWindow { n_blocks, blockhash })
}

/// The query for the hash of the block at `height`.
pub fn block_hash_query(height: u64) -> (query: Query)
    ensures
        query == Query::BlockHash(height),
{
    Query::BlockHash(height)
}

/// The query for a hash-rate estimate. Each parameter that is present is
/// handed on; each that is absent is left for the node to choose.
pub fn network_hash_ps_query(n_blocks: Option<u64>, height: Option<u64>) -> (query: Query)
    ensures
        query == Query::NetworkHashPs(HashRateWindow { n_blocks, height }),
{
    Query::NetworkHashPs(HashRateWindow { n_blocks, height })
}

/// The query for one block. Without a verbosity the node's default applies;
/// a verbosity other than 0, 1 or 2 is an invalid argument.
pub fn block_query(blockhash: String, verbosity: Option<u64>) -> (query: Result<Query, ErrorKind>)
    ensures
        query == match verbosity {
            None => Ok::<Query, ErrorKind>(Query::Block(BlockSelector { blockhash, verbosity: None })),
            Some(level) => match verbosity_of(level) {
                Some(v) => Ok::<Query, ErrorKind>(
                    Query::Block(BlockSelector { blockhash, verbosity: Some(v) }),
                ),
                None => Err::<Query, ErrorKind>(ErrorKind::InvalidArgument),
            },
        },
{
    match verbosity {
        None => Ok(Query::Block(BlockSelector { blockhash, verbosity: None })),
        Some(level) => {
            let chosen = verbosity_for_level(level)?;
            Ok(Query::Block(BlockSelector { blockhash, verbosity: Some(chosen) }))
        },
    }
}

/// Every height in its usual decimal writing is classified as that height:
/// the writing has at most 20 digits and so is never taken for a hash. Only
/// a height padded to 64 characters, by zeros or a sign, is.
pub proof fn lemma_usual_height_is_classified_as_height(text: String, height: u64)
    requires
        text@ == decimal_digits(height as nat),
    ensures
        target_of(text) == Ok::<BlockTarget, ErrorKind>(BlockTarget::Height(height)),
{
    lemma_usual_writing_is_read_back(height);
}

} // verus!
