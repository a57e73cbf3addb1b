use tier_last_day_stats::{Statistic, TierStats};

fn stats(total_size: u64, num_versions: i32, num_objects: i32) -> TierStats {
    TierStats { total_size, num_versions, num_objects }
}

#[test]
fn zero_is_all_zero_counters() {
    assert_eq!(TierStats::zero(), stats(0, 0, 0));
    assert_eq!(TierStats::default(), stats(0, 0, 0));
}

#[test]
fn combine_sums_each_counter() {
    assert_eq!(stats(100, 2, 1).combine(&stats(50, 3, 4)), stats(150, 5, 5));
    assert_eq!(stats(7, -2, 9).combine(&stats(0, 0, 0)), stats(7, -2, 9));
}

#[test]
fn combine_wraps_instead_of_failing() {
    assert_eq!(stats(u64::MAX, i32::MAX, i32::MIN).combine(&stats(1, 1, -1)), stats(0, i32::MIN, i32::MAX));
    assert_eq!(stats(u64::MAX, 0, 0).combine(&stats(u64::MAX, 0, 0)), stats(u64::MAX - 1, 0, 0));
}

#[test]
fn combine_is_commutative_and_associative_on_samples() {
    let a = stats(u64::MAX - 3, i32::MAX - 1, -5);
    let b = stats(9, 7, i32::MIN + 2);
    let c = stats(1 << 40, -100, -100);
    assert_eq!(a.combine(&b), b.combine(&a));
    assert_eq!(a.combine(&b).combine(&c), a.combine(&b.combine(&c)));
}
