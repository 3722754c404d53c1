//! What the node reports, reduced to the figures that the gateway reads.

use vstd::prelude::*;
use crate::error::ErrorKind;
use crate::ratio::Ratio;

verus! {

/// Per-block figures as the node reported them.
///
/// The node answers in one of two shapes. Asked for everything it reports
/// every figure; asked for a selection it reports only those, and any other
/// figure is absent.
#[allow(inconsistent_fields)]
#[derive(Clone, Copy, Debug, PartialEq, Eq, Structural)]
pub enum BlockStats {
    /// Every figure is present.
    AllStats {
        /// The block's timestamp, in seconds since the Unix epoch.
        time: u64,
        /// The newly issued amount paid to the block's miner, in satoshis.
        subsidy: u64,
    },
    /// Only the figures that were asked for are present.
    SelectiveStats {
        /// The block's timestamp, if it was reported.
        time: Option<u64>,
        /// The block's subsidy, if it was reported.
        subsidy: Option<u64>,
    },
}

impl BlockStats {
    /// The block's timestamp, if the node reported it.
    pub open spec fn reported_time(self) -> Option<u64> {
        match self {
            BlockStats::AllStats { time, .. } => Some(time),
            BlockStats::SelectiveStats { time, .. } => time,
        }
    }

    /// The block's subsidy, if the node reported it.
    pub open spec fn reported_subsidy(self) -> Option<u64> {
        match self {
            BlockStats::AllStats { subsidy, .. } => Some(subsidy),
            BlockStats::SelectiveStats { subsidy, .. } => subsidy,
        }
    }

    /// The block's timestamp, or `UpstreamDataMissing` where the node left
    /// it out.
    pub fn time(&self) -> (time: Result<u64, ErrorKind>)
        ensures
            time == match self.reported_time() {
                Some(t) => Ok::<u64, ErrorKind>(t),
                None => Err::<u64, ErrorKind>(ErrorKind::UpstreamDataMissing),
            },
    {
        match self {
            BlockStats::AllStats { time, .. } => Ok(*time),
            BlockStats::SelectiveStats { time: Some(t), .. } => Ok(*t),
            BlockStats::SelectiveStats { time: None, .. } => Err(ErrorKind::UpstreamDataMissing),
        }
    }

    /// The block's subsidy, or `UpstreamDataMissing` where the node left it
    /// out.
    pub fn subsidy(&self) -> (subsidy: Result<u64, ErrorKind>)
        ensures
            subsidy == match self.reported_subsidy() {
                Some(s) => Ok::<u64, ErrorKind>(s),
                None => Err::<u64, ErrorKind>(ErrorKind::UpstreamDataMissing),
            },
    {
        match self {
            BlockStats::AllStats { subsidy, .. } => Ok(*subsidy),
            BlockStats::SelectiveStats { subsidy: Some(s), .. } => Ok(*s),
            BlockStats::SelectiveStats { subsidy: None, .. } => Err(
                ErrorKind::UpstreamDataMissing,
            ),
        }
    }
}

/// Transaction counts of the chain and of a trailing window of it.
#[derive(Clone, Copy, Debug, PartialEq, Eq, Structural)]
pub struct ChainTxStats {
    /// Transactions in the chain up to the end of the window.
    pub txcount: u64,
    /// Transactions within the window.
    pub window_tx_count: u64,
    /// Seconds that the window spans.
    pub window_interval: u64,
}

impl ChainTxStats {
    /// The rate of transactions over the window, per second: its count over
    /// its span. A window that spans no time has no rate.
    pub fn transactions_per_second(&self) -> (rate: Ratio)
        ensures
            rate == (Ratio { numerator: self.window_tx_count, denominator: self.window_interval }),
    {
        Ratio { numerator: self.window_tx_count, denominator: self.window_interval }
    }
}

} // verus!
