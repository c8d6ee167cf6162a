use canbusnoop::periods::{calculate_jitter, elapsed, mean_period};
use canbusnoop::ratio::Ratio;
use std::collections::VecDeque;

const MS: u64 = 1_000_000;

#[test]
fn elapsed_is_the_difference() {
    assert_eq!(elapsed(10, 25), 15);
    assert_eq!(elapsed(25, 25), 0);
    assert_eq!(elapsed(0, u64::MAX), u64::MAX);
}

#[test]
fn elapsed_backwards_is_zero() {
    assert_eq!(elapsed(25, 10), 0);
    assert_eq!(elapsed(u64::MAX, 0), 0);
}

#[test]
fn mean_of_empty_window_is_absent() {
    assert_eq!(mean_period(&VecDeque::new()), None);
}

#[test]
fn mean_is_floor_of_millisecond_sum() {
    let window: VecDeque<u64> = VecDeque::from(vec![100 * MS, 150 * MS]);
    assert_eq!(mean_period(&window), Some(125 * MS));
    // 1.9 ms and 2.9 ms count as 1 ms and 2 ms: the mean is 1 ms.
    let window: VecDeque<u64> = VecDeque::from(vec![1_900_000, 2_900_000]);
    assert_eq!(mean_period(&window), Some(MS));
    let window: VecDeque<u64> = VecDeque::from(vec![7 * MS]);
    assert_eq!(mean_period(&window), Some(7 * MS));
}

#[test]
fn jitter_of_short_windows_is_zero() {
    assert_eq!(calculate_jitter(&VecDeque::new()), Ratio { num: 0, den: 1 });
    assert_eq!(calculate_jitter(&VecDeque::from(vec![5 * MS])), Ratio { num: 0, den: 1 });
}

#[test]
fn jitter_sums_distances_in_both_directions() {
    let window: VecDeque<u64> = VecDeque::from(vec![10, 30, 5, 5, 6]);
    // 20 + 25 + 0 + 1
    assert_eq!(calculate_jitter(&window), Ratio { num: 46, den: 4 });
    let window: VecDeque<u64> = VecDeque::from(vec![100 * MS, 150 * MS]);
    assert_eq!(calculate_jitter(&window), Ratio { num: 50 * MS as u128, den: 1 });
}

#[test]
fn ratio_floor_rounds_down() {
    assert_eq!(Ratio { num: 46, den: 4 }.floor(), Some(11));
    assert_eq!(Ratio { num: 0, den: 1 }.floor(), Some(0));
    assert_eq!(Ratio { num: 5, den: 0 }.floor(), None);
}
