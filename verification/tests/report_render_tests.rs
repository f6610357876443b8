//! Markdown rendering of regression reports and value formatting.

use noir_bench::regression::{
    CircuitRegression, MetricDelta, RegressionReport, RegressionStatus, format_value,
    render_markdown,
};
use noir_bench::provenance::VersionMismatch;

#[test]
fn test_format_value_time() {
    // Millisecond metrics carry thousandths: 100 ms is 100_000.
    assert_eq!(format_value(100_000, "prove_ms"), "100ms");
    assert_eq!(format_value(1_500_000, "prove_ms"), "1.50s");
}

#[test]
fn test_format_value_size() {
    assert_eq!(format_value(500, "proof_size"), "500 B");
    assert_eq!(format_value(1024, "proof_size"), "1.0 KB");
    assert_eq!(format_value(1048576, "proof_size"), "1.0 MB");
}

#[test]
fn test_format_value_gates() {
    assert_eq!(format_value(500, "gates"), "500");
    assert_eq!(format_value(1500, "gates"), "1.5K");
    assert_eq!(format_value(1500000, "gates"), "1.50M");
}

fn exceeded_metric() -> MetricDelta {
    MetricDelta {
        metric: "prove_ms".to_string(),
        baseline: 100_000,
        target: 150_000,
        delta_abs: 50_000,
        delta_milli_pct: 50_000,
        threshold_milli_pct: 10_000,
        status: RegressionStatus::ExceededThreshold,
    }
}

#[test]
fn test_render_markdown_contains_headers() {
    let mut report = RegressionReport::new("base", "target", 10_000);
    report.add_circuit(CircuitRegression {
        circuit_name: "test".to_string(),
        params: None,
        metrics: vec![],
        status: RegressionStatus::WithinThreshold,
    });
    report.finalize();

    let md = render_markdown(&report);

    assert!(md.contains("noir-bench Regression Report"));
    assert!(md.contains("Baseline"));
    assert!(md.contains("Target"));
    assert!(md.contains("Threshold"));
    assert!(md.contains("Summary"));
}

#[test]
fn test_render_markdown_shows_regressions() {
    let mut report = RegressionReport::new("base", "target", 10_000);
    report.add_circuit(CircuitRegression {
        circuit_name: "slow-circuit".to_string(),
        params: None,
        metrics: vec![exceeded_metric()],
        status: RegressionStatus::ExceededThreshold,
    });
    report.finalize();

    let md = render_markdown(&report);

    assert!(md.contains("Regressions"));
    assert!(md.contains("slow-circuit"));
    assert!(md.contains("prove_ms"));
    assert!(md.contains("🔴"));
    assert!(md.contains("+50.0%"));
}

#[test]
fn test_render_markdown_shows_version_mismatches() {
    let mut report = RegressionReport::new("base", "target", 10_000);
    report.version_mismatches.push(VersionMismatch {
        tool: "nargo".to_string(),
        baseline_version: Some("0.38.0".to_string()),
        target_version: Some("0.39.0".to_string()),
    });
    report.finalize();

    let md = render_markdown(&report);

    assert!(md.contains("Version Mismatches"));
    assert!(md.contains("nargo"));
    assert!(md.contains("0.38.0"));
    assert!(md.contains("0.39.0"));
}
