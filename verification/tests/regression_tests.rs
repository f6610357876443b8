//! Delta classification and report accumulation.  Percentages are in
//! thousandths of a percent: a threshold of 10% is 10_000, and a delta of
//! +20.0% is 20_000.

use noir_bench::regression::{
    CircuitRegression, FlatRecord, MetricDelta, RegressionReport, RegressionStatus,
    compare_flat, compare_records, compute_delta_status,
};

#[test]
fn test_compute_delta_status_regression() {
    let (delta_abs, delta_milli_pct, status) = compute_delta_status(100, 120, 10_000, true);
    assert_eq!(delta_abs, 20);
    assert_eq!(delta_milli_pct, 20_000);
    assert_eq!(status, RegressionStatus::ExceededThreshold);
}

#[test]
fn test_compute_delta_status_improvement() {
    let (delta_abs, delta_milli_pct, status) = compute_delta_status(100, 80, 10_000, true);
    assert_eq!(delta_abs, -20);
    assert_eq!(delta_milli_pct, -20_000);
    assert_eq!(status, RegressionStatus::Improved);
}

#[test]
fn test_compute_delta_status_ok() {
    let (_, delta_milli_pct, status) = compute_delta_status(100, 105, 10_000, true);
    assert_eq!(delta_milli_pct, 5_000);
    assert_eq!(status, RegressionStatus::WithinThreshold);
}

#[test]
fn test_compute_delta_status_zero_baseline() {
    // The documented zero-baseline policy: no percentage, no regression.
    let (delta_abs, delta_milli_pct, status) = compute_delta_status(0, 100, 10_000, true);
    assert_eq!(delta_abs, 100);
    assert_eq!(delta_milli_pct, 0);
    assert_eq!(status, RegressionStatus::WithinThreshold);
}

#[test]
fn test_compute_delta_status_informational_metric() {
    // A metric where higher is not worse never gates CI.
    let (_, _, status) = compute_delta_status(100, 100_000, 10_000, false);
    assert_eq!(status, RegressionStatus::WithinThreshold);
}

#[test]
fn test_compute_delta_status_exact_boundary() {
    // Exactly at the threshold is not a regression: 110 vs 100 at 10%.
    let (_, _, status) = compute_delta_status(100, 110, 10_000, true);
    assert_eq!(status, RegressionStatus::WithinThreshold);
    // One more unit crosses it.
    let (_, _, status2) = compute_delta_status(100, 111, 10_000, true);
    assert_eq!(status2, RegressionStatus::ExceededThreshold);
}

#[test]
fn test_regression_status_emoji() {
    assert_eq!(RegressionStatus::ExceededThreshold.emoji(), "🔴");
    assert_eq!(RegressionStatus::Improved.emoji(), "🟢");
    assert_eq!(RegressionStatus::WithinThreshold.emoji(), "⚪");
}

#[test]
fn test_regression_status_label() {
    assert_eq!(RegressionStatus::ExceededThreshold.label(), "REGRESS");
    assert_eq!(RegressionStatus::Improved.label(), "IMPROVED");
    assert_eq!(RegressionStatus::WithinThreshold.label(), "OK");
    assert_eq!(RegressionStatus::MissingBaseline.label(), "NO_BASE");
}

#[test]
fn test_regression_status_is_failure() {
    assert!(RegressionStatus::ExceededThreshold.is_failure());
    assert!(RegressionStatus::Error.is_failure());
    assert!(!RegressionStatus::WithinThreshold.is_failure());
    assert!(!RegressionStatus::Improved.is_failure());
}

#[test]
fn test_regression_report_new() {
    let report = RegressionReport::new("baseline.jsonl", "target.jsonl", 10_000);
    assert_eq!(report.version, 1);
    assert_eq!(report.metadata.baseline_id, "baseline.jsonl");
    assert_eq!(report.metadata.target_id, "target.jsonl");
    assert_eq!(report.metadata.threshold_milli_pct, 10_000);
    assert_eq!(report.summary.total_circuits, 0);
    assert_eq!(report.summary.ci_exit_code, 0);
}

#[test]
fn test_regression_report_add_circuit() {
    let mut report = RegressionReport::new("base", "target", 10_000);

    let circuit = CircuitRegression {
        circuit_name: "test-circuit".to_string(),
        params: None,
        metrics: vec![MetricDelta {
            metric: "prove_ms".to_string(),
            baseline: 100,
            target: 120,
            delta_abs: 20,
            delta_milli_pct: 20_000,
            threshold_milli_pct: 10_000,
            status: RegressionStatus::ExceededThreshold,
        }],
        status: RegressionStatus::ExceededThreshold,
    };

    report.add_circuit(circuit);
    report.finalize();

    assert_eq!(report.summary.total_circuits, 1);
    assert_eq!(report.summary.regressions, 1);
    assert_eq!(report.summary.ci_exit_code, 1);
}

#[test]
fn test_finalize_passes_without_regressions() {
    let mut report = RegressionReport::new("base", "target", 10_000);
    report.add_circuit(CircuitRegression {
        circuit_name: "c".to_string(),
        params: None,
        metrics: vec![MetricDelta {
            metric: "gates".to_string(),
            baseline: 1000,
            target: 1050,
            delta_abs: 50,
            delta_milli_pct: 5_000,
            threshold_milli_pct: 10_000,
            status: RegressionStatus::WithinThreshold,
        }],
        status: RegressionStatus::WithinThreshold,
    });
    report.finalize();
    assert_eq!(report.summary.regressions, 0);
    assert_eq!(report.summary.errors, 0);
    assert_eq!(report.summary.ci_exit_code, 0);
    assert_eq!(report.summary.unchanged, 1);
}

fn flat(name: &str, metrics: Vec<(&str, u64)>) -> FlatRecord {
    FlatRecord {
        circuit_name: name.to_string(),
        metrics: metrics
            .into_iter()
            .map(|(p, v)| (p.to_string(), v))
            .collect(),
    }
}

#[test]
fn test_compare_flat_classifies_metrics() {
    let baseline = flat("c", vec![("prove_stats.mean_ms", 100_000), ("total_gates", 1000)]);
    let target = flat("c", vec![("prove_stats.mean_ms", 120_000), ("total_gates", 1000)]);
    let result = compare_flat(&baseline, &target, 10_000);
    assert_eq!(result.circuit_name, "c");
    assert_eq!(result.metrics.len(), 2);
    assert_eq!(result.metrics[0].metric, "prove_ms");
    assert_eq!(result.metrics[0].status, RegressionStatus::ExceededThreshold);
    assert_eq!(result.metrics[1].metric, "gates");
    assert_eq!(result.metrics[1].status, RegressionStatus::WithinThreshold);
    assert_eq!(result.status, RegressionStatus::ExceededThreshold);
}

#[test]
fn test_compare_flat_alias_prefers_nested_path() {
    // Both shapes present: the nested prove timing wins and the legacy
    // flat path is not double-counted.
    let baseline = flat(
        "c",
        vec![("prove_stats.mean_ms", 100_000), ("prove_time_ms", 1)],
    );
    let target = flat(
        "c",
        vec![("prove_stats.mean_ms", 100_000), ("prove_time_ms", 999_999)],
    );
    let result = compare_flat(&baseline, &target, 10_000);
    assert_eq!(result.metrics.len(), 1);
    assert_eq!(result.metrics[0].metric, "prove_ms");
    assert_eq!(result.metrics[0].baseline, 100_000);
    assert_eq!(result.status, RegressionStatus::WithinThreshold);
}

#[test]
fn test_compare_flat_legacy_fallback() {
    // Only the legacy flat path present: it feeds the same canonical name.
    let baseline = flat("c", vec![("prove_time_ms", 100)]);
    let target = flat("c", vec![("prove_time_ms", 80)]);
    let result = compare_flat(&baseline, &target, 10_000);
    assert_eq!(result.metrics.len(), 1);
    assert_eq!(result.metrics[0].metric, "prove_ms");
    assert_eq!(result.metrics[0].status, RegressionStatus::Improved);
}

#[test]
fn test_compare_flat_key_sizes_informational() {
    let baseline = flat("c", vec![("proving_key_size_bytes", 100)]);
    let target = flat("c", vec![("proving_key_size_bytes", 100_000)]);
    let result = compare_flat(&baseline, &target, 10_000);
    assert_eq!(result.metrics.len(), 1);
    assert_eq!(result.metrics[0].metric, "pk_size");
    assert_eq!(result.metrics[0].status, RegressionStatus::WithinThreshold);
}

#[test]
fn test_compare_records_missing_baseline() {
    let baselines = vec![flat("known", vec![("total_gates", 10)])];
    let targets = vec![
        flat("known", vec![("total_gates", 10)]),
        flat("unknown", vec![("total_gates", 10)]),
    ];
    let report = compare_records(&baselines, &targets, "base", "head", 10_000);
    assert_eq!(report.summary.total_circuits, 2);
    assert_eq!(report.circuits.len(), 2);
    assert_eq!(report.circuits[0].circuit_name, "known");
    assert_eq!(report.circuits[1].circuit_name, "unknown");
    assert_eq!(report.circuits[1].status, RegressionStatus::MissingBaseline);
    // A missing baseline is never a failure.
    assert_eq!(report.summary.ci_exit_code, 0);
}

#[test]
fn test_compare_records_finalized_exit_code() {
    let baselines = vec![flat("c", vec![("prove_stats.mean_ms", 100_000)])];
    let targets = vec![flat("c", vec![("prove_stats.mean_ms", 150_000)])];
    let report = compare_records(&baselines, &targets, "base", "head", 10_000);
    assert_eq!(report.summary.regressions, 1);
    assert_eq!(report.summary.circuits_with_regressions, 1);
    assert_eq!(report.summary.ci_exit_code, 1);
}

#[test]
fn test_compare_flat_zero_baseline_policy() {
    // A zero baseline value never registers a regression, however large
    // the target value grows.
    let baseline = flat("c", vec![("total_gates", 0)]);
    let target = flat("c", vec![("total_gates", 1_000_000)]);
    let result = compare_flat(&baseline, &target, 10_000);
    assert_eq!(result.metrics.len(), 1);
    assert_eq!(result.metrics[0].delta_milli_pct, 0);
    assert_eq!(result.metrics[0].status, RegressionStatus::WithinThreshold);
    assert_eq!(result.status, RegressionStatus::WithinThreshold);
}

#[test]
fn test_circuit_status_improvement_aggregation() {
    // A circuit with no regression and one improvement is an improvement.
    let baseline = flat(
        "c",
        vec![("prove_stats.mean_ms", 100_000), ("total_gates", 1000)],
    );
    let target = flat(
        "c",
        vec![("prove_stats.mean_ms", 50_000), ("total_gates", 1000)],
    );
    let result = compare_flat(&baseline, &target, 10_000);
    assert_eq!(result.status, RegressionStatus::Improved);
}

#[test]
fn test_compare_records_first_baseline_wins() {
    // Alignment is by exact name, and with duplicate baseline names the
    // first record in baseline order supplies the values.
    let baselines = vec![
        flat("c", vec![("total_gates", 100)]),
        flat("c", vec![("total_gates", 999)]),
    ];
    let targets = vec![flat("c", vec![("total_gates", 100)])];
    let report = compare_records(&baselines, &targets, "base", "head", 10_000);
    assert_eq!(report.circuits.len(), 1);
    assert_eq!(report.circuits[0].metrics.len(), 1);
    assert_eq!(report.circuits[0].metrics[0].baseline, 100);
    assert_eq!(report.circuits[0].metrics[0].status, RegressionStatus::WithinThreshold);
}

#[test]
fn test_compare_flat_values_come_from_the_records() {
    // Each emitted row carries exactly the two records' values under its
    // source path.
    let baseline = flat(
        "c",
        vec![("witness_stats.mean_ms", 7_500), ("peak_rss_mb", 256_500)],
    );
    let target = flat(
        "c",
        vec![("witness_stats.mean_ms", 9_000), ("peak_rss_mb", 300_000)],
    );
    let result = compare_flat(&baseline, &target, 10_000);
    assert_eq!(result.metrics.len(), 2);
    assert_eq!(result.metrics[0].metric, "witness_ms");
    assert_eq!(result.metrics[0].baseline, 7_500);
    assert_eq!(result.metrics[0].target, 9_000);
    assert_eq!(result.metrics[1].metric, "peak_rss_mb");
    assert_eq!(result.metrics[1].baseline, 256_500);
    assert_eq!(result.metrics[1].target, 300_000);
}
