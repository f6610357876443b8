//! Statistics aggregation on concrete sample sets.  All derived
//! millisecond quantities are fixed-point thousandths: 110 ms is 110_000.

use noir_bench::stats::TimingStat;
use noir_bench::compute_iteration_stats;

#[test]
fn test_timing_stat_from_samples() {
    let samples: Vec<u64> = vec![100, 110, 105, 115, 120];
    let stat = TimingStat::from_samples(&samples);

    assert_eq!(stat.iterations, 5);
    assert_eq!(stat.mean_ms, 110_000);
    assert_eq!(stat.min_ms, 100_000);
    assert_eq!(stat.max_ms, 120_000);

    // Median of [100, 105, 110, 115, 120] = 110
    assert_eq!(stat.median_ms, Some(110_000));

    // Stddev: sqrt(((100-110)^2 + (110-110)^2 + (105-110)^2 + (115-110)^2
    // + (120-110)^2) / 5) = sqrt(50) = 7.071..., in thousandths: 7071
    assert_eq!(stat.stddev_ms, Some(7_071));

    // p95 with 5 samples: index = ceil(0.95 * 5) - 1 = 4 -> 120
    assert_eq!(stat.p95_ms, Some(120_000));
}

#[test]
fn test_timing_stat_empty_samples() {
    let samples: Vec<u64> = vec![];
    let stat = TimingStat::from_samples(&samples);

    assert_eq!(stat.iterations, 0);
    assert_eq!(stat.mean_ms, 0);
    assert_eq!(stat.min_ms, 0);
    assert_eq!(stat.max_ms, 0);
    assert!(stat.median_ms.is_none());
    assert!(stat.stddev_ms.is_none());
    assert!(stat.p95_ms.is_none());
}

#[test]
fn test_timing_stat_single_sample() {
    let samples: Vec<u64> = vec![42];
    let stat = TimingStat::from_samples(&samples);

    assert_eq!(stat.iterations, 1);
    assert_eq!(stat.mean_ms, 42_000);
    assert_eq!(stat.min_ms, 42_000);
    assert_eq!(stat.max_ms, 42_000);
    assert_eq!(stat.median_ms, Some(42_000));
    assert_eq!(stat.stddev_ms, Some(0));
    assert_eq!(stat.p95_ms, Some(42_000));
}

#[test]
fn test_timing_stat_even_count_median() {
    // Median of [100, 110, 120, 130] = (110 + 120) / 2 = 115
    let samples: Vec<u64> = vec![130, 100, 120, 110];
    let stat = TimingStat::from_samples(&samples);
    assert_eq!(stat.median_ms, Some(115_000));
    // p95: index = ceil(0.95 * 4) - 1 = 4 - 1 = 3 -> 130
    assert_eq!(stat.p95_ms, Some(130_000));
}

#[test]
fn test_timing_stat_p95_twenty_samples() {
    // With n = 20: index = ceil(0.95 * 20) - 1 = 19 - 1 = 18, the
    // second-largest sample.
    let mut samples: Vec<u64> = Vec::new();
    for i in 1..=20u64 {
        samples.push(i * 10);
    }
    let stat = TimingStat::from_samples(&samples);
    assert_eq!(stat.p95_ms, Some(190_000));
}

#[test]
fn test_compute_iteration_stats_basic() {
    let stats = compute_iteration_stats(vec![100, 110, 120], 3, 1);
    assert_eq!(stats.iterations, 3);
    assert_eq!(stats.warmup, 1);
    assert_eq!(stats.times_ms, vec![100, 110, 120]);
    assert_eq!(stats.avg_ms, Some(110_000));
    assert_eq!(stats.min_ms, Some(100));
    assert_eq!(stats.max_ms, Some(120));
    // variance = ((10^2 + 0 + 10^2) / 3) = 66.67, sqrt = 8.164...
    assert_eq!(stats.stddev_ms, Some(8_164));
}

#[test]
fn test_compute_iteration_stats_empty() {
    let stats = compute_iteration_stats(vec![], 0, 0);
    assert_eq!(stats.iterations, 0);
    assert!(stats.avg_ms.is_none());
    assert!(stats.min_ms.is_none());
    assert!(stats.max_ms.is_none());
    assert!(stats.stddev_ms.is_none());
}
