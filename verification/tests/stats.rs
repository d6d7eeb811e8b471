use hash_attacks::attacks::attack_options::AttackOptions;
use hash_attacks::attacks::attack_stats::{AttackStats, CumulativeAttackStats, StatsError};

fn folded(counts: &[u64]) -> CumulativeAttackStats {
    let mut stats = CumulativeAttackStats::default();
    for count in counts {
        assert_eq!(stats.include_attack(&AttackStats { generated_messages_count: *count }), Ok(()));
    }
    stats
}

#[test]
fn options_default_to_the_fixed_base() {
    assert!(!AttackOptions::default().incremental_transform());
}

#[test]
fn options_builder_switches_the_transform() {
    let options = AttackOptions::default().set_incremental_transform(true);
    assert!(options.incremental_transform());
    assert!(!options.set_incremental_transform(false).incremental_transform());
    assert!(options.incremental_transform());
}

#[test]
fn attack_stats_start_at_zero() {
    assert_eq!(AttackStats::default().generated_messages_count, 0);
}

#[test]
fn cumulative_stats_start_empty() {
    let stats = CumulativeAttackStats::default();
    assert_eq!((stats.sum(), stats.squares_sum(), stats.count()), (0, 0, 0));
    assert_eq!(stats.observed(), Err(StatsError::NoData));
}

#[test]
fn fold_of_two_four_six() {
    let stats = folded(&[2, 4, 6]);
    assert_eq!(stats.sum(), 12);
    assert_eq!(stats.squares_sum(), 56);
    assert_eq!(stats.count(), 3);
    assert_eq!(stats.observed(), Ok((12, 56, 3)));
}

#[test]
fn mean_and_variance_of_two_four_six() {
    let (sum, squares_sum, count) = folded(&[2, 4, 6]).observed().unwrap();
    let mean = sum as f64 / count as f64;
    let variance = squares_sum as f64 / count as f64 - mean * mean;
    assert_eq!(mean, 4.0);
    assert!((variance - 8.0 / 3.0).abs() < 1e-12);
    // the same variance as an exact fraction: (n * sum of squares - sum^2) / n^2 = 24 / 9
    let n = count as u128;
    assert_eq!(n * squares_sum - sum * sum, 24);
    assert_eq!(n * n, 9);
    let delta = (variance.sqrt() / (count as f64).sqrt()) * 2.576;
    let (low, high) = (mean - delta, mean + delta);
    assert!(low < mean && mean < high);
    assert!(((mean - low) - (high - mean)).abs() < 1e-12);
}

#[test]
fn fold_does_not_depend_on_the_order() {
    let orders: [[u64; 3]; 6] =
        [[2, 4, 6], [2, 6, 4], [4, 2, 6], [4, 6, 2], [6, 2, 4], [6, 4, 2]];
    for order in orders.iter() {
        let stats = folded(order);
        assert_eq!((stats.sum(), stats.squares_sum(), stats.count()), (12, 56, 3));
    }
}

#[test]
fn fold_of_a_single_zero() {
    let stats = folded(&[0]);
    assert_eq!(stats.observed(), Ok((0, 0, 1)));
}

#[test]
fn fold_holds_the_square_of_the_largest_count() {
    let stats = folded(&[u64::MAX]);
    assert_eq!(stats.sum(), u64::MAX as u128);
    assert_eq!(stats.squares_sum(), (u64::MAX as u128) * (u64::MAX as u128));
    assert_eq!(stats.count(), 1);
}

#[test]
fn fold_refuses_an_overflow_and_stays_as_it_was() {
    let mut stats = folded(&[u64::MAX, 3]);
    let before = (stats.sum(), stats.squares_sum(), stats.count());
    let outcome = stats.include_attack(&AttackStats { generated_messages_count: u64::MAX });
    assert_eq!(outcome, Err(StatsError::Overflow));
    assert_eq!((stats.sum(), stats.squares_sum(), stats.count()), before);
    assert_eq!(stats.include_attack(&AttackStats { generated_messages_count: 5 }), Ok(()));
    assert_eq!(stats.count(), 3);
    assert_eq!(stats.sum(), u64::MAX as u128 + 8);
}
