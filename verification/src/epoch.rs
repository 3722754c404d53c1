//! Difficulty-epoch arithmetic.
//!
//! Mining difficulty is recalculated every 2016 blocks. Everything here is a
//! function of the current block count, plus two block timestamps for the
//! average block interval. All quantities are whole numbers: a block count
//! divides an epoch into a whole number of blocks behind and ahead.

use vstd::prelude::*;
use crate::ratio::Ratio;

verus! {

/// Number of blocks between two difficulty recalculations.
pub const BLOCKS_PER_DIFFICULTY_PERIOD: u64 = 2016;

/// Nominal number of seconds between two blocks.
pub const TARGET_SECONDS_PER_BLOCK: u64 = 600;

/// Ordinal of the epoch that `block_count` lies in, counted from 1.
pub open spec fn epoch_of(block_count: nat) -> nat {
    block_count / (BLOCKS_PER_DIFFICULTY_PERIOD as nat) + 1
}

/// Height at which the epoch of `block_count` began.
pub open spec fn last_adjustment_height(block_count: nat) -> nat {
    ((epoch_of(block_count) - 1) * BLOCKS_PER_DIFFICULTY_PERIOD) as nat
}

/// Height at which the epoch after that of `block_count` begins.
pub open spec fn next_adjustment_height(block_count: nat) -> nat {
    epoch_of(block_count) * (BLOCKS_PER_DIFFICULTY_PERIOD as nat)
}

/// Blocks counted since the epoch of `block_count` began.
pub open spec fn blocks_since(block_count: nat) -> nat {
    (block_count - last_adjustment_height(block_count)) as nat
}

/// Blocks still to come before the next recalculation.
pub open spec fn blocks_until(block_count: nat) -> nat {
    (next_adjustment_height(block_count) - block_count) as nat
}

/// Seconds until the next recalculation if every block takes the nominal interval.
pub open spec fn seconds_until(block_count: nat) -> nat {
    (TARGET_SECONDS_PER_BLOCK as nat) * blocks_until(block_count)
}

/// Mean number of whole seconds per block over the current epoch, where it is
/// defined: at least one block has been counted in the epoch and the tip is
/// not stamped earlier than the block that opened the epoch.
pub open spec fn average_interval(
    block_count: nat,
    time_of_last_block: nat,
    time_of_last_adjustment: nat,
) -> Option<nat> {
    if blocks_since(block_count) == 0 || time_of_last_block < time_of_last_adjustment {
        None
    } else {
        Some(((time_of_last_block - time_of_last_adjustment) as nat) / blocks_since(block_count))
    }
}

/// How the quantities above relate to quotient and remainder by 2016.
pub proof fn lemma_epoch_arithmetic(block_count: nat)
    ensures
        last_adjustment_height(block_count) == (block_count / 2016) * 2016,
        last_adjustment_height(block_count) <= block_count < next_adjustment_height(block_count),
        next_adjustment_height(block_count) == last_adjustment_height(block_count) + 2016,
        blocks_since(block_count) == block_count % 2016,
        blocks_until(block_count) == 2016 - block_count % 2016,
        1 <= blocks_until(block_count) <= 2016,
{
}

/// The epoch that the chain is in at `block_count`.
pub fn current_difficulty_epoch(block_count: u64) -> (epoch: u64)
    ensures
        epoch == epoch_of(block_count as nat),
        epoch == block_count / 2016 + 1,
{
    block_count / BLOCKS_PER_DIFFICULTY_PERIOD + 1
}

/// The height of the block that opened the current epoch.
pub fn height_of_last_adjustment(block_count: u64) -> (height: u64)
    ensures
        height == last_adjustment_height(block_count as nat),
        height == (epoch_of(block_count as nat) - 1) * 2016,
        height % 2016 == 0,
        height <= block_count < height + 2016,
{
    proof {
        lemma_epoch_arithmetic(block_count as nat);
    }
    (block_count / BLOCKS_PER_DIFFICULTY_PERIOD) * BLOCKS_PER_DIFFICULTY_PERIOD
}

/// The number of blocks counted since the last recalculation.
pub fn blocks_since_last_retarget(block_count: u64) -> (blocks: u64)
    ensures
        blocks == blocks_since(block_count as nat),
        blocks == block_count % 2016,
        blocks == 2016 - blocks_until(block_count as nat),
{
    proof {
        lemma_epoch_arithmetic(block_count as nat);
    }
    block_count % BLOCKS_PER_DIFFICULTY_PERIOD
}

/// The part of the current epoch that lies behind, as a fraction of one:
/// the blocks counted in the epoch over the length of an epoch.
pub fn percent_of_epoch_complete(block_count: u64) -> (part: Ratio)
    ensures
        part == (Ratio { numerator: (block_count % 2016) as u64, denominator: 2016 }),
        part.numerator == blocks_since(block_count as nat),
        part.numerator < part.denominator,
{
    Ratio {
        numerator: blocks_since_last_retarget(block_count),
        denominator: BLOCKS_PER_DIFFICULTY_PERIOD,
    }
}

/// The number of blocks left until the next recalculation.
pub fn blocks_until_retarget(block_count: u64) -> (blocks: u64)
    ensures
        blocks == blocks_until(block_count as nat),
        blocks == 2016 - block_count % 2016,
        1 <= blocks <= 2016,
{
    proof {
        lemma_epoch_arithmetic(block_count as nat);
    }
    BLOCKS_PER_DIFFICULTY_PERIOD - block_count % BLOCKS_PER_DIFFICULTY_PERIOD
}

/// The time left until the next recalculation, at the nominal block interval.
pub fn estimated_seconds_until_retarget(block_count: u64) -> (seconds: u64)
    ensures
        seconds == seconds_until(block_count as nat),
        seconds == 600 * blocks_until(block_count as nat),
        600 <= seconds <= 1_209_600,
{
    TARGET_SECONDS_PER_BLOCK * blocks_until_retarget(block_count)
}

/// The mean block interval of the current epoch, in whole seconds.
///
/// There is no mean to report, and the result is `None`, at the first block
/// of an epoch, where no block has been counted yet, and where the tip's
/// timestamp lies before that of the block that opened the epoch.
pub fn average_seconds_per_block(
    block_count: u64,
    time_of_last_block: u64,
    time_of_last_adjustment: u64,
) -> (average: Option<u64>)
    ensures
        average == if block_count % 2016 == 0 || time_of_last_block < time_of_last_adjustment {
            None
        } else {
            Some(
                ((time_of_last_block - time_of_last_adjustment) / (block_count % 2016) as int) as u64,
            )
        },
        (match average {
            Some(seconds) => Some(seconds as nat),
            None => None,
        }) == average_interval(
            block_count as nat,
            time_of_last_block as nat,
            time_of_last_adjustment as nat,
        ),
{
    let blocks: u64 = blocks_since_last_retarget(block_count);
    if blocks == 0 || time_of_last_block < time_of_last_adjustment {
        None
    } else {
        Some((time_of_last_block - time_of_last_adjustment) / blocks)
    }
}

/// Every epoch opens at a multiple of 2016, and the epoch's ordinal is one
/// more than the number of whole periods behind the block count.
pub proof fn lemma_adjustment_height_is_period_multiple(block_count: nat)
    ensures
        epoch_of(block_count) == block_count / 2016 + 1,
        last_adjustment_height(block_count) % 2016 == 0,
{
    lemma_epoch_arithmetic(block_count);
}

/// The blocks behind and the blocks ahead make up one whole period.
pub proof fn lemma_distances_fill_period(block_count: nat)
    ensures
        blocks_until(block_count) + blocks_since(block_count) == 2016,
{
    lemma_epoch_arithmetic(block_count);
}

/// At the first block of an epoch nothing has been counted yet, and the mean
/// block interval is undefined whatever the timestamps are.
pub proof fn lemma_epoch_start_has_no_average(
    block_count: nat,
    time_of_last_block: nat,
    time_of_last_adjustment: nat,
)
    requires
        block_count % 2016 == 0,
    ensures
        blocks_since(block_count) == 0,
        blocks_until(block_count) == 2016,
        average_interval(block_count, time_of_last_block, time_of_last_adjustment) is None,
{
    lemma_epoch_arithmetic(block_count);
}

/// Within one epoch the estimated time to the recalculation falls by one
/// nominal interval per block: it is the distance to the epoch's end, taken
/// at 600 seconds a block, and so would be zero at the boundary itself.
pub proof fn lemma_seconds_until_decreases_within_epoch(earlier: nat, later: nat)
    requires
        earlier < later,
        epoch_of(earlier) == epoch_of(later),
    ensures
        seconds_until(later) < seconds_until(earlier),
        seconds_until(earlier) - seconds_until(later) == 600 * (later - earlier),
        seconds_until(earlier) == 600 * (next_adjustment_height(earlier) - earlier),
        seconds_until(later) == 600 * (next_adjustment_height(earlier) - later),
{
    lemma_epoch_arithmetic(earlier);
    lemma_epoch_arithmetic(later);
}

} // verus!
