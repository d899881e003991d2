use eve::benchmark::{stats, BenchmarkStats};

#[test]
fn stats_summarize_unsorted_samples() {
    let summary = stats(vec![50, 10, 40, 20, 30]);
    assert_eq!(
        summary,
        BenchmarkStats { min_ns: 10, median_ns: 30, mean_ns: 30, p95_ns: 50, max_ns: 50 }
    );
}

#[test]
fn stats_take_the_upper_median_and_round_the_mean_down() {
    let summary = stats(vec![4, 1, 3, 2]);
    assert_eq!(summary.min_ns, 1);
    assert_eq!(summary.median_ns, 3);
    assert_eq!(summary.mean_ns, 2);
    assert_eq!(summary.p95_ns, 4);
    assert_eq!(summary.max_ns, 4);
}

#[test]
fn stats_place_the_95th_percentile_by_ceiling() {
    let samples: Vec<u64> = (1..=40).rev().collect();
    let summary = stats(samples);
    assert_eq!(summary.p95_ns, 38);
    assert_eq!(summary.median_ns, 21);
    assert_eq!(summary.mean_ns, 20);
}

#[test]
fn stats_of_one_sample() {
    let summary = stats(vec![u64::MAX]);
    assert_eq!(summary.min_ns, u64::MAX);
    assert_eq!(summary.mean_ns, u64::MAX);
    assert_eq!(summary.p95_ns, u64::MAX);
}
