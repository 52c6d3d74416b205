use browser_core::clock::saturating_nanos;
use browser_core::metrics::{Metrics, Ratio, ERROR_WINDOW_NANOS, MAX_SAMPLES};
use std::time::Duration;

fn nanos(duration: Duration) -> u64 {
    duration.as_nanos() as u64
}

fn value(ratio: Ratio) -> f64 {
    ratio.numerator as f64 / ratio.denominator as f64
}

#[test]
fn test_metrics_initialization() {
    let metrics = Metrics::new();
    let stats = metrics.get_stats();

    assert_eq!(stats.total_navigations, 0);
    assert_eq!(stats.failed_navigations, 0);
    assert_eq!(value(stats.error_rate), 0.0);
    assert!(metrics.is_healthy());
}

#[test]
fn test_record_successful_navigation() {
    let mut metrics = Metrics::new();

    metrics.record_navigation(true, nanos(Duration::from_millis(100)));
    metrics.record_navigation(true, nanos(Duration::from_millis(150)));
    metrics.record_navigation(true, nanos(Duration::from_millis(200)));

    let stats = metrics.get_stats();
    assert_eq!(stats.total_navigations, 3);
    assert_eq!(stats.failed_navigations, 0);
    assert_eq!(value(stats.error_rate), 0.0);
    assert!(value(stats.avg_load_time_ms) > 0.0);
}

#[test]
fn test_record_failed_navigation() {
    let mut metrics = Metrics::new();

    metrics.record_navigation(true, nanos(Duration::from_millis(100)));
    metrics.record_navigation(false, nanos(Duration::ZERO));
    metrics.record_navigation(true, nanos(Duration::from_millis(100)));

    let stats = metrics.get_stats();
    assert_eq!(stats.total_navigations, 3);
    assert_eq!(stats.failed_navigations, 1);
    assert!((value(stats.error_rate) - 0.333).abs() < 0.01);
}

#[test]
fn test_error_rate_calculation() {
    let mut metrics = Metrics::new();

    metrics.record_navigation(true, nanos(Duration::from_millis(100)));
    metrics.record_navigation(true, nanos(Duration::from_millis(100)));
    metrics.record_navigation(false, nanos(Duration::ZERO));
    metrics.record_navigation(true, nanos(Duration::from_millis(100)));
    metrics.record_navigation(true, nanos(Duration::from_millis(100)));

    let error_rate = value(metrics.get_error_rate());
    assert!((error_rate - 0.2).abs() < 0.01);
}

#[test]
fn test_health_check() {
    let mut metrics = Metrics::new();

    for _ in 0..100 {
        metrics.record_navigation(true, nanos(Duration::from_millis(100)));
    }
    assert!(metrics.is_healthy());

    for _ in 0..10 {
        metrics.record_navigation(false, nanos(Duration::ZERO));
    }
    assert!(!metrics.is_healthy());
}

#[test]
fn test_percentile_calculation() {
    let mut metrics = Metrics::new();

    for i in 0..100 {
        metrics.record_navigation(true, nanos(Duration::from_millis(i)));
    }

    let stats = metrics.get_stats();
    assert!(stats.p95_load_time_ms as f64 >= 90.0);
    assert!(stats.p99_load_time_ms as f64 >= 95.0);
}

#[test]
fn test_record_error() {
    let mut metrics = Metrics::new();

    metrics.record_error("Test error");

    let stats = metrics.get_stats();
    assert_eq!(stats.last_error, Some("Test error".to_string()));
    assert_eq!(stats.failed_navigations, 1);
}

#[test]
fn error_rate_is_failures_over_navigations() {
    let mut metrics = Metrics::new();
    assert_eq!(metrics.get_error_rate(), Ratio { numerator: 0, denominator: 1 });

    for i in 0..7u64 {
        metrics.record_navigation_at(i % 3 != 0, 1_000, i);
    }
    assert_eq!(metrics.get_error_rate(), Ratio { numerator: 3, denominator: 7 });
}

#[test]
fn error_rate_does_not_depend_on_order() {
    let outcomes = [true, false, true, true, false, true];
    let mut forward = Metrics::new();
    for success in outcomes.iter() {
        forward.record_navigation_at(*success, 5, 10);
    }
    let mut backward = Metrics::new();
    for success in outcomes.iter().rev() {
        backward.record_navigation_at(*success, 5, 10);
    }
    assert_eq!(forward.get_error_rate(), backward.get_error_rate());
    assert_eq!(forward.get_error_rate(), Ratio { numerator: 2, denominator: 6 });
}

#[test]
fn reported_errors_count_towards_the_rate() {
    let mut metrics = Metrics::new();
    metrics.record_error_at("first", 1);
    assert_eq!(metrics.get_error_rate(), Ratio { numerator: 0, denominator: 1 });

    metrics.record_navigation_at(true, 10, 2);
    metrics.record_navigation_at(true, 10, 3);
    assert_eq!(metrics.get_error_rate(), Ratio { numerator: 1, denominator: 2 });

    metrics.record_navigation_at(false, 0, 4);
    metrics.record_error_at("second", 5);
    assert_eq!(metrics.get_error_rate(), Ratio { numerator: 3, denominator: 3 });
    assert_eq!(metrics.get_stats().last_error, Some("second".to_string()));
}

#[test]
fn percentiles_of_hundred_samples_are_exact() {
    let mut metrics = Metrics::new();
    for i in (0..100u64).rev() {
        metrics.record_navigation_at(true, nanos(Duration::from_millis(i)), i);
    }
    let stats = metrics.get_stats();
    assert_eq!(stats.p95_load_time_ms, 95);
    assert_eq!(stats.p99_load_time_ms, 99);
    assert_eq!(
        stats.avg_load_time_ms,
        Ratio { numerator: 4_950_000_000, denominator: 100_000_000 }
    );
    assert_eq!(value(stats.avg_load_time_ms), 49.5);
}

#[test]
fn percentiles_rank_unsorted_samples() {
    let mut metrics = Metrics::new();
    for ms in [30u64, 10, 50, 20, 40] {
        metrics.record_navigation_at(true, nanos(Duration::from_millis(ms)), 0);
    }
    let stats = metrics.get_stats();
    assert_eq!(stats.p95_load_time_ms, 50);
    assert_eq!(stats.p99_load_time_ms, 50);
    assert_eq!(stats.avg_load_time_ms, Ratio { numerator: 150_000_000, denominator: 5_000_000 });
    assert_eq!(value(stats.avg_load_time_ms), 30.0);
}

#[test]
fn percentile_of_a_single_sample() {
    let mut metrics = Metrics::new();
    metrics.record_navigation_at(true, nanos(Duration::from_millis(42)), 0);
    let stats = metrics.get_stats();
    assert_eq!(stats.p95_load_time_ms, 42);
    assert_eq!(stats.p99_load_time_ms, 42);
}

#[test]
fn percentile_rank_is_floor_of_count_times_percent() {
    let mut metrics = Metrics::new();
    for ms in 1..=20u64 {
        metrics.record_navigation_at(true, nanos(Duration::from_millis(ms)), 0);
    }
    let stats = metrics.get_stats();
    assert_eq!(stats.p95_load_time_ms, 20);
    assert_eq!(stats.p99_load_time_ms, 20);

    let mut metrics = Metrics::new();
    for ms in 1..=10u64 {
        metrics.record_navigation_at(true, nanos(Duration::from_millis(ms)), 0);
    }
    let stats = metrics.get_stats();
    assert_eq!(stats.p95_load_time_ms, 10);
}

#[test]
fn empty_sample_set_gives_zero_statistics() {
    let mut metrics = Metrics::new();
    metrics.record_navigation_at(false, 77, 1);
    let stats = metrics.get_stats();
    assert_eq!(stats.avg_load_time_ms, Ratio { numerator: 0, denominator: 1 });
    assert_eq!(stats.p95_load_time_ms, 0);
    assert_eq!(stats.p99_load_time_ms, 0);
    assert_eq!(stats.last_error, None);
    assert_eq!(stats.mttr_seconds, Ratio { numerator: 0, denominator: 1_000_000_000 });
}

#[test]
fn mean_is_exact_below_a_millisecond() {
    let mut metrics = Metrics::new();
    metrics.record_navigation_at(true, 600_000, 0);
    metrics.record_navigation_at(true, 600_000, 0);
    let stats = metrics.get_stats();
    assert_eq!(stats.avg_load_time_ms, Ratio { numerator: 1_200_000, denominator: 2_000_000 });
    assert_eq!(value(stats.avg_load_time_ms), 0.6);
    assert_eq!(stats.p95_load_time_ms, 0);
}

#[test]
fn mean_lies_between_the_shortest_and_the_longest_sample() {
    let mut metrics = Metrics::new();
    for nanos in [1_500_000u64, 2_499_999, 1_999_999, 700] {
        metrics.record_navigation_at(true, nanos, 0);
    }
    let stats = metrics.get_stats();
    assert_eq!(stats.avg_load_time_ms, Ratio { numerator: 6_000_698, denominator: 4_000_000 });
    let mean = value(stats.avg_load_time_ms);
    assert!(0.0007 <= mean && mean <= 2.499999);
    assert!(stats.p95_load_time_ms <= stats.p99_load_time_ms);
    assert_eq!(stats.p99_load_time_ms, 2);
}

#[test]
fn statistics_do_not_depend_on_the_order_of_the_samples() {
    let samples = [5_000_000u64, 1_000_000, 9_000_000, 3_000_000, 7_000_000, 3_000_000];
    let mut forward = Metrics::new();
    for nanos in samples.iter() {
        forward.record_navigation_at(true, *nanos, 0);
    }
    let mut backward = Metrics::new();
    for nanos in samples.iter().rev() {
        backward.record_navigation_at(true, *nanos, 0);
    }
    let (one, other) = (forward.get_stats(), backward.get_stats());
    assert_eq!(one.avg_load_time_ms, other.avg_load_time_ms);
    assert_eq!(one.p95_load_time_ms, other.p95_load_time_ms);
    assert_eq!(one.p99_load_time_ms, other.p99_load_time_ms);
    assert_eq!(one.avg_load_time_ms, Ratio { numerator: 28_000_000, denominator: 6_000_000 });
    assert_eq!(one.p95_load_time_ms, 9);
}

#[test]
fn only_the_most_recent_thousand_samples_are_kept() {
    let mut metrics = Metrics::new();
    metrics.record_navigation_at(true, nanos(Duration::from_millis(5_000)), 0);
    for _ in 0..MAX_SAMPLES - 1 {
        metrics.record_navigation_at(true, nanos(Duration::from_millis(1)), 0);
    }
    let stats = metrics.get_stats();
    assert_eq!(stats.p99_load_time_ms, 1);
    assert_eq!(
        stats.avg_load_time_ms,
        Ratio { numerator: 5_999_000_000, denominator: 1_000_000_000 }
    );
    assert_eq!(value(stats.avg_load_time_ms), 5.999);

    metrics.record_navigation_at(true, nanos(Duration::from_millis(1)), 0);
    let stats = metrics.get_stats();
    assert_eq!(stats.total_navigations, 1_001);
    assert_eq!(
        stats.avg_load_time_ms,
        Ratio { numerator: 1_000_000_000, denominator: 1_000_000_000 }
    );
    assert_eq!(value(stats.avg_load_time_ms), 1.0);
}

#[test]
fn mttr_is_time_from_error_to_recovery() {
    let mut metrics = Metrics::new();
    assert_eq!(metrics.get_mttr(), 0);

    metrics.record_navigation_at(true, 10, 1_000);
    assert_eq!(metrics.get_mttr(), 0);

    metrics.record_error_at("down", 2_000);
    assert_eq!(metrics.get_mttr(), 0);

    metrics.record_navigation_at(false, 10, 2_500);
    assert_eq!(metrics.get_mttr(), 0);

    metrics.record_navigation_at(true, 10, 5_000);
    assert_eq!(metrics.get_mttr(), 3_000);

    metrics.record_error_at("down again", 5_000);
    assert_eq!(metrics.get_mttr(), 0);

    metrics.record_navigation_at(true, 10, 3_500_000_000);
    let stats = metrics.get_stats();
    assert_eq!(stats.mttr_seconds.numerator, 3_499_995_000);
    assert_eq!(stats.mttr_seconds.denominator, 1_000_000_000);
    assert!((value(stats.mttr_seconds) - 3.499995).abs() < 1e-9);
}

#[test]
fn unhealthy_above_five_percent_and_healthy_at_five() {
    let mut metrics = Metrics::new();
    for _ in 0..19 {
        metrics.record_navigation_at(true, 1, 0);
    }
    metrics.record_navigation_at(false, 1, 0);
    assert_eq!(metrics.get_error_rate(), Ratio { numerator: 1, denominator: 20 });
    assert!(metrics.is_healthy_at(0));

    metrics.record_navigation_at(false, 1, 0);
    assert!(!metrics.is_healthy_at(0));
    assert!(!metrics.is_healthy_at(u64::MAX));

    for _ in 0..18 {
        metrics.record_navigation_at(true, 1, 0);
    }
    assert!(!metrics.is_healthy_at(0));
    metrics.record_navigation_at(true, 1, 0);
    assert_eq!(metrics.get_error_rate(), Ratio { numerator: 2, denominator: 40 });
    assert!(metrics.is_healthy_at(0));
}

#[test]
fn unhealthy_for_three_hundred_seconds_after_an_error() {
    let mut metrics = Metrics::new();
    for _ in 0..100 {
        metrics.record_navigation_at(true, 1, 0);
    }
    let failed = 7_000_000_000;
    metrics.record_error_at("boom", failed);

    assert!(!metrics.is_healthy_at(failed));
    assert!(!metrics.is_healthy_at(failed - 1));
    assert!(!metrics.is_healthy_at(failed + ERROR_WINDOW_NANOS - 1));
    assert!(metrics.is_healthy_at(failed + ERROR_WINDOW_NANOS));
    assert!(metrics.is_healthy_at(failed + ERROR_WINDOW_NANOS + 1));
    assert_eq!(ERROR_WINDOW_NANOS, nanos(Duration::from_secs(300)));
}

#[test]
fn error_without_navigation_fails_only_the_window() {
    let mut metrics = Metrics::new();
    metrics.record_error("early");
    assert!(!metrics.is_healthy());
    let later = metrics.now() + ERROR_WINDOW_NANOS;
    assert!(metrics.is_healthy_at(later));
}

fn wait_until_after(metrics: &Metrics, moment: u64) -> u64 {
    let mut now = metrics.now();
    let mut reads = 0u64;
    while now <= moment && reads < 1_000_000_000 {
        now = metrics.now();
        reads += 1;
    }
    now
}

#[test]
fn clock_of_the_collector_moves_forward() {
    let metrics = Metrics::default();
    let first = metrics.now();
    let second = wait_until_after(&metrics, first);
    assert!(second > first);
    assert!(second < 600_000_000_000);
}

#[test]
fn recovery_is_stamped_with_the_clock() {
    let mut metrics = Metrics::new();
    metrics.record_error_at("at the start", 0);
    wait_until_after(&metrics, 0);
    metrics.record_navigation(true, 1);
    assert!(metrics.get_mttr() > 0);
}

#[test]
fn clock_readings_are_fitted_into_64_bits() {
    assert_eq!(saturating_nanos(0), 0);
    assert_eq!(saturating_nanos(1_500_000_000), 1_500_000_000);
    assert_eq!(saturating_nanos(u64::MAX as u128), u64::MAX);
    assert_eq!(saturating_nanos(u64::MAX as u128 + 1), u64::MAX);
    assert_eq!(saturating_nanos(u128::MAX), u64::MAX);
}
