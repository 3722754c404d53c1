use node_dashboard::error::ErrorKind;
use node_dashboard::ratio::Ratio;
use node_dashboard::stats::{BlockStats, ChainTxStats};

#[test]
fn all_stats_always_have_their_figures() {
    let stats = BlockStats::AllStats { time: 1_631_333_672, subsidy: 625_000_000 };
    assert_eq!(stats.time(), Ok(1_631_333_672));
    assert_eq!(stats.subsidy(), Ok(625_000_000));
}

#[test]
fn selective_stats_have_what_was_reported() {
    let stats = BlockStats::SelectiveStats { time: Some(12), subsidy: Some(34) };
    assert_eq!(stats.time(), Ok(12));
    assert_eq!(stats.subsidy(), Ok(34));
}

#[test]
fn an_absent_figure_is_missing_upstream_data() {
    let no_time = BlockStats::SelectiveStats { time: None, subsidy: Some(34) };
    assert_eq!(no_time.time(), Err(ErrorKind::UpstreamDataMissing));
    assert_eq!(no_time.subsidy(), Ok(34));
    let no_subsidy = BlockStats::SelectiveStats { time: Some(12), subsidy: None };
    assert_eq!(no_subsidy.time(), Ok(12));
    assert_eq!(no_subsidy.subsidy(), Err(ErrorKind::UpstreamDataMissing));
    let nothing = BlockStats::SelectiveStats { time: None, subsidy: None };
    assert_eq!(nothing.time(), Err(ErrorKind::UpstreamDataMissing));
    assert_eq!(nothing.subsidy(), Err(ErrorKind::UpstreamDataMissing));
}

#[test]
fn rate_of_a_window_is_count_over_span() {
    let chain = ChainTxStats {
        txcount: 670_000_000,
        window_tx_count: 5_000_000,
        window_interval: 2_592_000,
    };
    assert_eq!(
        chain.transactions_per_second(),
        Ratio { numerator: 5_000_000, denominator: 2_592_000 }
    );
    let still = ChainTxStats { txcount: 1, window_tx_count: 0, window_interval: 0 };
    assert_eq!(still.transactions_per_second(), Ratio { numerator: 0, denominator: 0 });
}
