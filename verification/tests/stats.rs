use canbusnoop::frame::Frame;
use canbusnoop::ratio::Ratio;
use canbusnoop::stats::Stats;

const MS: u64 = 1_000_000;

fn frame() -> Frame {
    Frame::new(0x100, vec![0xAA])
}

fn stats_after(started_at: u64, arrivals: &[u64]) -> Stats {
    let mut stats = Stats::new(started_at);
    for &now in arrivals {
        stats.push(frame(), now);
    }
    stats
}

#[test]
fn fresh_stats_hold_nothing() {
    let stats = Stats::new(5 * MS);
    assert_eq!(stats.count(), 0);
    assert_eq!(stats.last_period(), None);
    assert_eq!(stats.min_period(), None);
    assert_eq!(stats.max_period(), None);
    assert_eq!(stats.avg_period(), None);
    assert_eq!(stats.frequency(), None);
    assert_eq!(stats.throughput(), Ratio { num: 0, den: 1 });
    assert_eq!(stats.period_jitter(), Ratio { num: 0, den: 1 });
    assert!(stats.period_history().is_empty());
}

#[test]
fn three_frames_at_0_100_250_ms() {
    let stats = stats_after(0, &[0, 100 * MS, 250 * MS]);
    assert_eq!(stats.count(), 3);
    assert_eq!(stats.last_period(), Some(150 * MS));
    assert_eq!(stats.min_period(), Some(100 * MS));
    assert_eq!(stats.max_period(), Some(150 * MS));
    assert_eq!(stats.avg_period(), Some(125 * MS));
    assert_eq!(stats.period_jitter(), Ratio { num: 50 * MS as u128, den: 1 });
    assert_eq!(stats.period_history(), vec![100 * MS, 150 * MS]);
}

#[test]
fn count_is_number_of_pushes() {
    for n in 0..40u64 {
        let arrivals: Vec<u64> = (0..n).map(|i| i * 7 * MS).collect();
        assert_eq!(stats_after(0, &arrivals).count(), n);
    }
}

#[test]
fn first_push_gives_no_period() {
    let stats = stats_after(3 * MS, &[10 * MS]);
    assert_eq!(stats.count(), 1);
    assert_eq!(stats.last_period(), None);
    assert_eq!(stats.min_period(), None);
    assert_eq!(stats.max_period(), None);
    assert_eq!(stats.avg_period(), None);
    assert_eq!(stats.period_jitter(), Ratio { num: 0, den: 1 });
}

#[test]
fn second_push_gives_the_one_period() {
    let stats = stats_after(0, &[10 * MS, 52 * MS]);
    assert_eq!(stats.last_period(), Some(42 * MS));
    assert_eq!(stats.min_period(), Some(42 * MS));
    assert_eq!(stats.max_period(), Some(42 * MS));
    assert_eq!(stats.avg_period(), Some(42 * MS));
    assert_eq!(stats.period_jitter(), Ratio { num: 0, den: 1 });
}

#[test]
fn mean_period_is_cut_to_whole_milliseconds() {
    let stats = stats_after(0, &[0, 1_500_000]);
    assert_eq!(stats.last_period(), Some(1_500_000));
    assert_eq!(stats.avg_period(), Some(1_000_000));
    let shorter = stats_after(0, &[0, 999_999]);
    assert_eq!(shorter.avg_period(), Some(0));
    assert_eq!(shorter.frequency(), None);
}

#[test]
fn mean_period_rounds_the_quotient_down() {
    // 1 ms, 2 ms, 2 ms: the sum is 5, the mean 1.66.. ms.
    let stats = stats_after(0, &[0, MS, 3 * MS, 5 * MS]);
    assert_eq!(stats.avg_period(), Some(MS));
}

#[test]
fn window_lies_between_least_and_greatest_period() {
    let arrivals: Vec<u64> = vec![0, 5, 6, 30, 31, 33, 90, 91, 95, 200, 201, 202, 203, 500, 501]
        .into_iter()
        .map(|t: u64| t * MS)
        .collect();
    for n in 2..=arrivals.len() {
        let stats = stats_after(0, &arrivals[..n]);
        let least = stats.min_period().unwrap();
        let greatest = stats.max_period().unwrap();
        for period in stats.period_history() {
            assert!(least <= period && period <= greatest);
        }
        let last = stats.last_period().unwrap();
        assert!(least <= last && last <= greatest);
    }
}

#[test]
fn least_and_greatest_period_outlive_the_window() {
    // The first period is the greatest, the second the least; both have
    // left the window at the end.
    let mut arrivals: Vec<u64> = vec![0, 1000 * MS, 1001 * MS];
    for i in 1..=20u64 {
        arrivals.push(1001 * MS + i * 10 * MS);
    }
    let stats = stats_after(0, &arrivals);
    assert_eq!(stats.min_period(), Some(MS));
    assert_eq!(stats.max_period(), Some(1000 * MS));
    assert_eq!(stats.period_history(), vec![10 * MS; 11]);
    assert_eq!(stats.avg_period(), Some(10 * MS));
}

#[test]
fn window_keeps_the_eleven_newest_periods_in_order() {
    // Arrivals with the periods 1 ms, 2 ms, 3 ms, ...
    let mut arrivals: Vec<u64> = vec![0];
    for i in 1..=30u64 {
        arrivals.push(arrivals.last().unwrap() + i * MS);
    }
    for n in 0..=arrivals.len() {
        let stats = stats_after(0, &arrivals[..n]);
        let periods: Vec<u64> = (1..n as u64).map(|i| i * MS).collect();
        let newest: Vec<u64> = periods[periods.len().saturating_sub(11)..].to_vec();
        assert!(stats.period_history().len() <= 11);
        assert_eq!(stats.period_history(), newest);
    }
    let stats = stats_after(0, &arrivals[..14]);
    // 13 periods were seen: 3 ms up to 13 ms are kept.
    assert_eq!(stats.period_history().len(), 11);
    assert_eq!(stats.period_history()[0], 3 * MS);
    assert_eq!(stats.period_history()[10], 13 * MS);
    assert_eq!(stats.avg_period(), Some(8 * MS));
    assert_eq!(stats.period_jitter(), Ratio { num: 10 * MS as u128, den: 10 });
}

#[test]
fn jitter_is_mean_distance_of_neighbours() {
    // Periods 10, 30, 20, 20 ms: distances 20, 10, 0.
    let stats = stats_after(0, &[0, 10 * MS, 40 * MS, 60 * MS, 80 * MS]);
    assert_eq!(stats.period_jitter(), Ratio { num: 30 * MS as u128, den: 3 });
    assert_eq!(stats.period_jitter().floor(), Some(10 * MS as u128));
}

#[test]
fn throughput_is_count_over_seconds_since_start() {
    let stats = stats_after(0, &[0]);
    assert_eq!(stats.throughput(), Ratio { num: 1, den: 1 });
    let stats = stats_after(0, &[0, 500 * MS]);
    assert_eq!(stats.throughput(), Ratio { num: 2_000_000_000, den: 500_000_000 });
    assert_eq!(stats.throughput().floor(), Some(4));
    let stats = stats_after(100 * MS, &[150 * MS, 200 * MS, 350 * MS]);
    assert_eq!(stats.throughput(), Ratio { num: 3_000_000_000, den: 250_000_000 });
    assert_eq!(stats.throughput().floor(), Some(12));
}

#[test]
fn throughput_without_elapsed_time_is_nothing() {
    let stats = stats_after(7, &[7, 7]);
    assert_eq!(stats.count(), 2);
    assert_eq!(stats.throughput(), Ratio { num: 0, den: 1 });
    assert_eq!(stats.throughput().floor(), Some(0));
    assert_eq!(stats.last_period(), Some(0));
    assert_eq!(stats.frequency(), None);
    // As soon as time has passed there is a rate again.
    let stats = stats_after(7, &[7, 7, 8]);
    assert_eq!(stats.throughput(), Ratio { num: 3_000_000_000, den: 1 });
}

#[test]
fn quotients_never_have_a_zero_denominator() {
    let runs: [&[u64]; 8] = [
        &[],
        &[0],
        &[5, 5],
        &[9, 3, 1],
        &[5, 5, 5, 5],
        &[0, MS, 3 * MS],
        &[5, 6],
        &[u64::MAX, 0, u64::MAX],
    ];
    for arrivals in runs {
        for started_at in [0u64, 5, u64::MAX] {
            let stats = stats_after(started_at, arrivals);
            assert_ne!(stats.throughput().den, 0);
            assert_ne!(stats.period_jitter().den, 0);
            if let Some(hertz) = stats.frequency() {
                assert_ne!(hertz.den, 0);
            }
            assert!(stats.throughput().floor().is_some());
        }
    }
}

#[test]
fn frequency_is_one_second_over_mean_period() {
    let stats = stats_after(0, &[0, 100 * MS, 250 * MS]);
    assert_eq!(stats.frequency(), Some(Ratio { num: 1_000_000_000, den: 125_000_000 }));
    assert_eq!(stats.frequency().unwrap().floor(), Some(8));
}

#[test]
fn clock_that_goes_back_gives_period_zero() {
    let stats = stats_after(50 * MS, &[40 * MS, 30 * MS]);
    assert_eq!(stats.count(), 2);
    assert_eq!(stats.last_period(), Some(0));
    assert_eq!(stats.min_period(), Some(0));
    assert_eq!(stats.throughput(), Ratio { num: 0, den: 1 });
}

#[test]
fn getters_answer_the_same_twice() {
    let stats = stats_after(0, &[0, 3 * MS, 9 * MS, 10 * MS]);
    assert_eq!(stats.count(), stats.count());
    assert_eq!(stats.last_period(), stats.last_period());
    assert_eq!(stats.min_period(), stats.min_period());
    assert_eq!(stats.max_period(), stats.max_period());
    assert_eq!(stats.avg_period(), stats.avg_period());
    assert_eq!(stats.throughput(), stats.throughput());
    assert_eq!(stats.period_jitter(), stats.period_jitter());
    assert_eq!(stats.frequency(), stats.frequency());
    assert_eq!(stats.period_history(), stats.period_history());
}

#[test]
fn clone_holds_the_same_values() {
    let stats = stats_after(0, &[0, 3 * MS, 9 * MS, 10 * MS]);
    let copy = stats.clone();
    assert_eq!(copy, stats);
    assert_eq!(copy.period_history(), vec![3 * MS, 6 * MS, MS]);
}

#[test]
fn large_periods_do_not_overflow() {
    let stats = stats_after(0, &[0, u64::MAX, 0, u64::MAX]);
    assert_eq!(stats.count(), 4);
    assert_eq!(stats.period_history(), vec![u64::MAX, 0, u64::MAX]);
    assert_eq!(stats.max_period(), Some(u64::MAX));
    assert_eq!(stats.min_period(), Some(0));
    assert_eq!(stats.period_jitter(), Ratio { num: 2 * (u64::MAX as u128), den: 2 });
    // 18446744073709 whole milliseconds twice, over three periods.
    assert_eq!(stats.avg_period(), Some(12_297_829_382_472 * MS));
}
