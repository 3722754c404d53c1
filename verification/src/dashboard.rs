//! The dashboard: one snapshot of the chain, put together from several
//! answers of the node.
//!
//! A dashboard takes six queries. The first asks for the block count. The
//! other five depend on nothing but that count, so they can be put to the
//! node in any order or all at once: the statistics of the block at the tip,
//! the transaction statistics of the node's default window, the difficulty,
//! the statistics of the block that opened the current epoch, and the hash
//! rate over the last 2016 blocks. [`DashboardPlan`] holds the block count
//! between the two rounds, says what to ask, and combines the answers.
//!
//! Figures that the gateway hands on without computing on them (the
//! difficulty, the hash rate, the price and the money supply) have the type
//! parameter `R`.

use vstd::prelude::*;
use crate::epoch::{
    average_interval, average_seconds_per_block, blocks_until, blocks_until_retarget,
    current_difficulty_epoch, epoch_of, estimated_seconds_until_retarget,
    height_of_last_adjustment, last_adjustment_height, lemma_epoch_arithmetic, seconds_until,
    BLOCKS_PER_DIFFICULTY_PERIOD,
};
use crate::error::{require_answer, ErrorKind};
use crate::query::{BlockTarget, HashRateWindow, TxStatsWindow};
use crate::ratio::Ratio;
use crate::stats::{BlockStats, ChainTxStats};

verus! {

/// Figures that come from outside the node.
#[derive(Clone, Debug, PartialEq)]
pub struct MarketData<R> {
    /// The price of one coin.
    pub price: R,
    /// The number of coins in circulation.
    pub total_money_supply: R,
}

/// The arguments of the five queries that follow the block count.
#[derive(Clone, Debug, PartialEq, Eq)]
pub struct DashboardQueries {
    /// The block whose statistics give the time of the last block and the
    /// current subsidy.
    pub current_block: BlockTarget,
    /// The window of the transaction statistics.
    pub chain_tx_stats: TxStatsWindow,
    /// The block whose statistics give the time of the last adjustment.
    pub adjustment_block: BlockTarget,
    /// The window of the hash-rate estimate.
    pub hash_rate: HashRateWindow,
}

/// The node's answers to the five queries. Each query may have failed by
/// itself, and then its answer is `None`.
#[derive(Debug, PartialEq)]
pub struct DashboardReplies<R> {
    /// Statistics of the block at the tip.
    pub current_block: Option<BlockStats>,
    /// Transaction statistics.
    pub chain_tx_stats: Option<ChainTxStats>,
    /// The current difficulty.
    pub difficulty: Option<R>,
    /// Statistics of the block that opened the current epoch.
    pub adjustment_block: Option<BlockStats>,
    /// The estimated hash rate.
    pub hash_rate: Option<R>,
}

/// One coherent view of the chain.
#[derive(Clone, Debug, PartialEq)]
pub struct DashboardSnapshot<R> {
    /// The price of one coin.
    pub price: R,
    /// The height of the chain's tip.
    pub block_count: u64,
    /// The number of coins in circulation.
    pub total_money_supply: R,
    /// The timestamp of the block at the tip.
    pub time_of_last_block: u64,
    /// The number of transactions in the chain.
    pub total_transactions_count: u64,
    /// Transactions per second over the trailing window.
    pub tps_30days: Ratio,
    /// The current difficulty.
    pub difficulty: R,
    /// The ordinal of the current difficulty epoch.
    pub current_difficulty_epoch: u64,
    /// The number of blocks until the next recalculation.
    pub blocks_until_retarget: u64,
    /// The mean block interval of the current epoch, where it is defined.
    pub average_seconds_per_block_for_current_epoch: Option<u64>,
    /// The time until the next recalculation at the nominal block interval.
    pub estimated_seconds_until_retarget: u64,
    /// The estimated hash rate over the last 2016 blocks.
    pub estimated_hash_rate_for_last_2016_blocks: R,
    /// The subsidy of the block at the tip, in satoshis.
    pub subsidy_in_sats_at_current_block_height: u64,
}

/// The queries that a dashboard needs once the block count is known.
pub open spec fn queries_at(block_count: u64) -> DashboardQueries {
    DashboardQueries {
        current_block: BlockTarget::Height(block_count),
        chain_tx_stats: TxStatsWindow { n_blocks: None, blockhash: None },
        adjustment_block: BlockTarget::Height(last_adjustment_height(block_count as nat) as u64),
        hash_rate: HashRateWindow { n_blocks: Some(BLOCKS_PER_DIFFICULTY_PERIOD), height: None },
    }
}

/// The failure that keeps the answers from making a snapshot, if there is
/// one: the first, in the order of the queries, of a query that the node did
/// not answer and an answer that lacks a figure the snapshot needs.
pub open spec fn first_failure<R>(replies: DashboardReplies<R>) -> Option<ErrorKind> {
    if replies.current_block is None {
        Some(ErrorKind::UpstreamUnavailable)
    } else if replies.current_block->Some_0.reported_time() is None
        || replies.current_block->Some_0.reported_subsidy() is None {
        Some(ErrorKind::UpstreamDataMissing)
    } else if replies.chain_tx_stats is None || replies.difficulty is None
        || replies.adjustment_block is None {
        Some(ErrorKind::UpstreamUnavailable)
    } else if replies.adjustment_block->Some_0.reported_time() is None {
        Some(ErrorKind::UpstreamDataMissing)
    } else if replies.hash_rate is None {
        Some(ErrorKind::UpstreamUnavailable)
    } else {
        None
    }
}

/// Whether the answers hold everything that a snapshot needs: every query
/// was answered, the block at the tip has a timestamp and a subsidy, and the
/// block that opened the epoch has a timestamp.
pub open spec fn complete<R>(replies: DashboardReplies<R>) -> bool {
    &&& replies.current_block matches Some(current)
    &&& current.reported_time() is Some
    &&& current.reported_subsidy() is Some
    &&& replies.chain_tx_stats is Some
    &&& replies.difficulty is Some
    &&& replies.adjustment_block matches Some(adjustment)
    &&& adjustment.reported_time() is Some
    &&& replies.hash_rate is Some
}

/// The snapshot that complete answers make at `block_count`.
pub open spec fn snapshot_of<R>(
    block_count: u64,
    replies: DashboardReplies<R>,
    market: MarketData<R>,
) -> DashboardSnapshot<R>
    recommends
        complete(replies),
{
    let time_of_last_block = replies.current_block->Some_0.reported_time()->Some_0;
    let time_of_last_adjustment = replies.adjustment_block->Some_0.reported_time()->Some_0;
    let chain = replies.chain_tx_stats->Some_0;
    DashboardSnapshot {
        price: market.price,
        block_count,
        total_money_supply: market.total_money_supply,
        time_of_last_block,
        total_transactions_count: chain.txcount,
        tps_30days: Ratio {
            numerator: chain.window_tx_count,
            denominator: chain.window_interval,
        },
        difficulty: replies.difficulty->Some_0,
        current_difficulty_epoch: epoch_of(block_count as nat) as u64,
        blocks_until_retarget: blocks_until(block_count as nat) as u64,
        average_seconds_per_block_for_current_epoch: match average_interval(
            block_count as nat,
            time_of_last_block as nat,
            time_of_last_adjustment as nat,
        ) {
            Some(seconds) => Some(seconds as u64),
            None => None,
        },
        estimated_seconds_until_retarget: seconds_until(block_count as nat) as u64,
        estimated_hash_rate_for_last_2016_blocks: replies.hash_rate->Some_0,
        subsidy_in_sats_at_current_block_height: replies.current_block->Some_0.reported_subsidy()->Some_0,
    }
}

/// A dashboard in the making: the block count is known, and everything else
/// is asked for and computed at that count.
#[derive(Clone, Copy, Debug, PartialEq, Eq)]
pub struct DashboardPlan {
    block_count: u64,
}

impl DashboardPlan {
    /// The block count that the plan was made for.
    pub closed spec fn tip(self) -> u64 {
        self.block_count
    }

    /// Starts a plan at the block count that the node reported in answer to
    /// the dashboard's first query.
    pub fn new(block_count: u64) -> (plan: DashboardPlan)
        ensures
            plan.tip() == block_count,
    {
        DashboardPlan { block_count }
    }

    /// The block count that the plan was made for.
    pub fn block_count(&self) -> (block_count: u64)
        ensures
            block_count == self.tip(),
    {
        self.block_count
    }

    /// What to ask the node: the statistics of the block at the tip and of
    /// the block that opened its epoch, the transaction statistics of the
    /// node's default window, and the hash rate over the last 2016 blocks up
    /// to the tip. The difficulty, the fifth query, takes no argument.
    pub fn queries(&self) -> (queries: DashboardQueries)
        ensures
            queries == queries_at(self.tip()),
            queries.current_block == BlockTarget::Height(self.tip()),
            queries.adjustment_block matches BlockTarget::Height(height) && height % 2016 == 0
                && height <= self.tip() < height + 2016,
    {
        DashboardQueries {
            current_block: BlockTarget::Height(self.block_count),
            chain_tx_stats: TxStatsWindow { n_blocks: None, blockhash: None },
            adjustment_block: BlockTarget::Height(height_of_last_adjustment(self.block_count)),
            hash_rate: HashRateWindow {
                n_blocks: Some(BLOCKS_PER_DIFFICULTY_PERIOD),
                height: None,
            },
        }
    }

    /// Combines the node's answers into a snapshot.
    ///
    /// One query without an answer, or one answer without a figure that the
    /// snapshot needs, fails the whole dashboard; of several failures, the
    /// first in the order of the queries is reported. Otherwise every figure
    /// of the snapshot is taken or computed from the answers at the plan's
    /// block count.
    pub fn assemble<R>(&self, replies: DashboardReplies<R>, market: MarketData<R>) -> (snapshot:
        Result<DashboardSnapshot<R>, ErrorKind>)
        ensures
            snapshot is Ok <==> complete(replies),
            snapshot == match first_failure(replies) {
                Some(kind) => Err::<DashboardSnapshot<R>, ErrorKind>(kind),
                None => Ok::<DashboardSnapshot<R>, ErrorKind>(
                    snapshot_of(self.tip(), replies, market),
                ),
            },
    {
        let block_count: u64 = self.block_count;
        let current = require_answer(replies.current_block)?;
        let time_of_last_block: u64 = current.time()?;
        let subsidy: u64 = current.subsidy()?;
        let chain = require_answer(replies.chain_tx_stats)?;
        let difficulty = require_answer(replies.difficulty)?;
        let adjustment = require_answer(replies.adjustment_block)?;
        let time_of_last_adjustment: u64 = adjustment.time()?;
        let hash_rate = require_answer(replies.hash_rate)?;
        Ok(
            DashboardSnapshot {
                price: market.price,
                block_count,
                total_money_supply: market.total_money_supply,
                time_of_last_block,
                total_transactions_count: chain.txcount,
                tps_30days: chain.transactions_per_second(),
                difficulty,
                current_difficulty_epoch: current_difficulty_epoch(block_count),
                blocks_until_retarget: blocks_until_retarget(block_count),
                average_seconds_per_block_for_current_epoch: average_seconds_per_block(
                    block_count,
                    time_of_last_block,
                    time_of_last_adjustment,
                ),
                estimated_seconds_until_retarget: estimated_seconds_until_retarget(block_count),
                estimated_hash_rate_for_last_2016_blocks: hash_rate,
                subsidy_in_sats_at_current_block_height: subsidy,
            },
        )
    }
}

/// Answers fail to make a snapshot exactly when they are not complete.
pub proof fn lemma_failure_iff_incomplete<R>(replies: DashboardReplies<R>)
    ensures
        first_failure(replies) is None <==> complete(replies),
{
}

/// A snapshot is coherent: it reports the block count that it was computed
/// at, its figures about the current block are those of the answer about
/// that block, its epoch figures are those of its own block count, and what
/// the gateway only hands on is unchanged.
pub proof fn lemma_snapshot_is_coherent<R>(
    block_count: u64,
    replies: DashboardReplies<R>,
    market: MarketData<R>,
)
    requires
        complete(replies),
    ensures
        ({
            let snapshot = snapshot_of(block_count, replies, market);
            let current = replies.current_block->Some_0;
            let adjustment = replies.adjustment_block->Some_0;
            let chain = replies.chain_tx_stats->Some_0;
            &&& snapshot.block_count == block_count
            &&& Some(snapshot.time_of_last_block) == current.reported_time()
            &&& Some(snapshot.subsidy_in_sats_at_current_block_height)
                == current.reported_subsidy()
            &&& snapshot.total_transactions_count == chain.txcount
            &&& snapshot.tps_30days.numerator == chain.window_tx_count
            &&& snapshot.tps_30days.denominator == chain.window_interval
            &&& snapshot.current_difficulty_epoch == block_count / 2016 + 1
            &&& snapshot.blocks_until_retarget == 2016 - block_count % 2016
            &&& snapshot.estimated_seconds_until_retarget == 600
                * snapshot.blocks_until_retarget
            &&& snapshot.average_seconds_per_block_for_current_epoch == if block_count % 2016 == 0
                || snapshot.time_of_last_block < adjustment.reported_time()->Some_0 {
                None
            } else {
                Some(
                    ((snapshot.time_of_last_block - adjustment.reported_time()->Some_0) / (
                    block_count % 2016) as int) as u64,
                )
            }
            &&& Some(snapshot.difficulty) == replies.difficulty
            &&& Some(snapshot.estimated_hash_rate_for_last_2016_blocks) == replies.hash_rate
            &&& snapshot.price == market.price
            &&& snapshot.total_money_supply == market.total_money_supply
        }),
{
    lemma_epoch_arithmetic(block_count as nat);
}

} // verus!
