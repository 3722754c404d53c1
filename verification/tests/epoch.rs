use node_dashboard::epoch::{
    average_seconds_per_block, blocks_since_last_retarget, blocks_until_retarget,
    current_difficulty_epoch, estimated_seconds_until_retarget, height_of_last_adjustment,
    percent_of_epoch_complete, BLOCKS_PER_DIFFICULTY_PERIOD, TARGET_SECONDS_PER_BLOCK,
};
use node_dashboard::ratio::Ratio;

#[test]
fn constants_are_the_protocol_values() {
    assert_eq!(BLOCKS_PER_DIFFICULTY_PERIOD, 2016);
    assert_eq!(TARGET_SECONDS_PER_BLOCK, 600);
}

#[test]
fn epoch_at_block_700000() {
    assert_eq!(current_difficulty_epoch(700_000), 348);
    assert_eq!(height_of_last_adjustment(700_000), 699_552);
    assert_eq!(height_of_last_adjustment(700_000), 347 * 2016);
}

#[test]
fn epoch_figures_at_block_700000() {
    assert_eq!(blocks_since_last_retarget(700_000), 448);
    assert_eq!(blocks_until_retarget(700_000), 1568);
    assert_eq!(estimated_seconds_until_retarget(700_000), 940_800);
}

#[test]
fn epoch_of_genesis_is_one() {
    assert_eq!(current_difficulty_epoch(0), 1);
    assert_eq!(height_of_last_adjustment(0), 0);
    assert_eq!(blocks_since_last_retarget(0), 0);
    assert_eq!(blocks_until_retarget(0), 2016);
    assert_eq!(estimated_seconds_until_retarget(0), 1_209_600);
}

#[test]
fn epoch_changes_at_a_multiple_of_2016() {
    assert_eq!(current_difficulty_epoch(2015), 1);
    assert_eq!(current_difficulty_epoch(2016), 2);
    assert_eq!(current_difficulty_epoch(2017), 2);
    assert_eq!(height_of_last_adjustment(2015), 0);
    assert_eq!(height_of_last_adjustment(2016), 2016);
    assert_eq!(height_of_last_adjustment(4031), 2016);
    assert_eq!(height_of_last_adjustment(4032), 4032);
}

#[test]
fn epoch_is_quotient_plus_one_on_many_counts() {
    let mut b: u64 = 0;
    while b < 50_000 {
        assert_eq!(current_difficulty_epoch(b), b / 2016 + 1);
        assert_eq!(height_of_last_adjustment(b) % 2016, 0);
        assert!(height_of_last_adjustment(b) <= b);
        assert!(b - height_of_last_adjustment(b) < 2016);
        b += 7;
    }
}

#[test]
fn largest_block_count_does_not_overflow() {
    let b = u64::MAX;
    assert_eq!(current_difficulty_epoch(b), 9_150_170_671_482_913);
    assert_eq!(height_of_last_adjustment(b), 18_446_744_073_709_550_592);
    assert_eq!(blocks_since_last_retarget(b), 1023);
    assert_eq!(blocks_until_retarget(b), 993);
    assert_eq!(estimated_seconds_until_retarget(b), 595_800);
}

#[test]
fn blocks_behind_and_ahead_make_one_period() {
    let mut b: u64 = 690_000;
    while b < 710_000 {
        assert_eq!(blocks_until_retarget(b) + blocks_since_last_retarget(b), 2016);
        b += 1;
    }
    assert_eq!(blocks_until_retarget(u64::MAX) + blocks_since_last_retarget(u64::MAX), 2016);
}

#[test]
fn nothing_is_counted_at_the_start_of_an_epoch() {
    for k in [0u64, 1, 2, 347, 348, 1_000_000] {
        let b = k * 2016;
        assert_eq!(blocks_since_last_retarget(b), 0);
        assert_eq!(blocks_until_retarget(b), 2016);
        assert_eq!(average_seconds_per_block(b, 1_700_000_000, 1_600_000_000), None);
        assert_eq!(average_seconds_per_block(b, 5, 5), None);
    }
}

#[test]
fn seconds_until_retarget_fall_within_an_epoch() {
    let start: u64 = 347 * 2016;
    let mut previous = estimated_seconds_until_retarget(start);
    assert_eq!(previous, 2016 * 600);
    for b in (start + 1)..(start + 2016) {
        let now = estimated_seconds_until_retarget(b);
        assert!(now < previous);
        assert_eq!(previous - now, 600);
        assert_eq!(now, 600 * (start + 2016 - b));
        previous = now;
    }
    assert_eq!(previous, 600);
    assert_eq!(estimated_seconds_until_retarget(start + 2016), 2016 * 600);
}

#[test]
fn seconds_until_retarget_is_600_per_block() {
    assert_eq!(estimated_seconds_until_retarget(1), 2015 * 600);
    assert_eq!(estimated_seconds_until_retarget(2015), 600);
    assert_eq!(estimated_seconds_until_retarget(1008), 604_800);
}

#[test]
fn average_is_elapsed_seconds_over_blocks_counted() {
    // 448 blocks into the epoch, 268800 seconds after it opened.
    assert_eq!(average_seconds_per_block(700_000, 1_631_000_000, 1_630_731_200), Some(600));
    // The quotient is rounded down.
    assert_eq!(average_seconds_per_block(700_000, 1_631_000_447, 1_630_731_200), Some(600));
    assert_eq!(average_seconds_per_block(700_000, 1_631_000_448, 1_630_731_200), Some(601));
    assert_eq!(average_seconds_per_block(2017, 1000, 0), Some(1000));
    assert_eq!(average_seconds_per_block(2018, 1001, 0), Some(500));
    assert_eq!(average_seconds_per_block(2017, 7, 7), Some(0));
    assert_eq!(average_seconds_per_block(4031, u64::MAX, 0), Some(u64::MAX / 2015));
}

#[test]
fn average_is_undefined_when_the_tip_is_stamped_earlier() {
    assert_eq!(average_seconds_per_block(700_000, 1_630_731_199, 1_630_731_200), None);
    assert_eq!(average_seconds_per_block(1, 0, u64::MAX), None);
}

#[test]
fn part_of_the_epoch_behind_at_block_700000() {
    let part = percent_of_epoch_complete(700_000);
    assert_eq!(part, Ratio { numerator: 448, denominator: 2016 });
    assert_eq!(part.scaled(100), Some(22));
    assert_eq!(part.scaled(1_000_000), Some(222_222));
    let real = 700_000.0f64 / 2016.0 % 1.0;
    assert!((part.numerator as f64 / part.denominator as f64 - real).abs() < 1e-9);
}

#[test]
fn part_of_the_epoch_behind_stays_below_one() {
    assert_eq!(percent_of_epoch_complete(0), Ratio { numerator: 0, denominator: 2016 });
    assert_eq!(percent_of_epoch_complete(2015), Ratio { numerator: 2015, denominator: 2016 });
    assert_eq!(percent_of_epoch_complete(2016), Ratio { numerator: 0, denominator: 2016 });
    assert_eq!(percent_of_epoch_complete(u64::MAX), Ratio { numerator: 1023, denominator: 2016 });
    let mut b: u64 = 0;
    while b < 10_000 {
        let part = percent_of_epoch_complete(b);
        assert!(part.numerator < part.denominator);
        assert_eq!(blocks_until_retarget(b), 2016 - part.numerator);
        b += 1;
    }
}
