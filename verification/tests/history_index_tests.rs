//! Run index derivation: slugs, status, ordering and slug assignment.

use noir_bench::history::{
    RunIndexRecordV1, assign_detail_slugs, build_index_records, derive_metrics, derive_record,
    derive_status, make_run_href, make_run_slug, sort_records,
};
use noir_bench::schema::{BackendInfo, BenchRecord, EnvironmentInfo, RunConfig};
use noir_bench::stats::TimingStat;

#[test]
fn test_make_run_slug() {
    assert_eq!(make_run_slug(1), "run_000001");
    assert_eq!(make_run_slug(42), "run_000042");
    assert_eq!(make_run_slug(999999), "run_999999");
    assert_eq!(make_run_slug(1000000), "run_1000000"); // exceeds 6 digits, still works
}

#[test]
fn test_make_run_href() {
    assert_eq!(make_run_href("run_000001"), "runs/run_000001.html");
    assert_eq!(make_run_href("run_000042"), "runs/run_000042.html");
}

fn make_test_record(name: &str, timestamp: &str, record_id: &str) -> BenchRecord {
    let mut record = BenchRecord::new(
        name.to_string(),
        EnvironmentInfo::default(),
        BackendInfo {
            name: "bb".to_string(),
            version: Some("0.62.0".to_string()),
            variant: None,
        },
        RunConfig::default(),
    );
    record.timestamp = timestamp.to_string();
    record.record_id = record_id.to_string();
    record
}

#[test]
fn test_derive_status_ok() {
    let mut record = make_test_record("test", "2024-01-15T12:00:00Z", "id1");
    record.prove_stats = Some(TimingStat::from_samples(&vec![100, 110, 120]));
    assert_eq!(derive_status(&record), "ok");
}

#[test]
fn test_derive_status_ok_gates_only() {
    let mut record = make_test_record("test", "2024-01-15T12:00:00Z", "id1");
    record.total_gates = Some(10000);
    assert_eq!(derive_status(&record), "ok");
}

#[test]
fn test_derive_status_error() {
    let record = make_test_record("test", "2024-01-15T12:00:00Z", "id1");
    assert_eq!(derive_status(&record), "error");
}

#[test]
fn test_derive_metrics_with_timing() {
    let mut record = make_test_record("test", "2024-01-15T12:00:00Z", "id1");
    record.prove_stats = Some(TimingStat {
        iterations: 5,
        mean_ms: 110_000,
        median_ms: Some(110_123),
        stddev_ms: Some(7_000),
        min_ms: 100_000,
        max_ms: 120_000,
        p95_ms: Some(118_567),
    });
    record.total_gates = Some(50000);
    record.peak_rss_mb = Some(256_500);

    let metrics = derive_metrics(&record);

    assert_eq!(metrics.prove_ms_p50, Some(110_123));
    assert_eq!(metrics.prove_ms_p95, Some(118_567));
    assert_eq!(metrics.verify_ms_p50, None);
    assert_eq!(metrics.gates, Some(50000));
    assert_eq!(metrics.peak_rss_bytes, Some(256_500_000));
}

fn make_index_record(record_id: &str, timestamp: &str) -> RunIndexRecordV1 {
    RunIndexRecordV1::new(
        record_id.to_string(),
        timestamp.to_string(),
        "circuit".to_string(),
        "bb".to_string(),
        "ok".to_string(),
    )
}

#[test]
fn test_sort_records_by_timestamp_then_id() {
    let records = vec![
        make_index_record("id2", "2024-01-15T12:00:00Z"),
        make_index_record("id1", "2024-01-15T12:00:00Z"),
        make_index_record("id3", "2024-01-14T12:00:00Z"),
    ];

    let sorted = sort_records(records);

    assert_eq!(sorted[0].record_id, "id3"); // earlier timestamp
    assert_eq!(sorted[1].record_id, "id1"); // same timestamp, id1 first
    assert_eq!(sorted[2].record_id, "id2");
}

#[test]
fn test_assign_detail_slugs() {
    let records = vec![
        make_index_record("id1", "2024-01-14T12:00:00Z"),
        make_index_record("id2", "2024-01-15T12:00:00Z"),
        make_index_record("id3", "2024-01-16T12:00:00Z"),
    ];

    let mut sorted = sort_records(records);
    assign_detail_slugs(&mut sorted);

    assert_eq!(sorted[0].detail_slug, Some("run_000001".to_string()));
    assert_eq!(sorted[0].detail_href, Some("runs/run_000001.html".to_string()));
    assert_eq!(sorted[1].detail_slug, Some("run_000002".to_string()));
    assert_eq!(sorted[1].detail_href, Some("runs/run_000002.html".to_string()));
    assert_eq!(sorted[2].detail_slug, Some("run_000003".to_string()));
    assert_eq!(sorted[2].detail_href, Some("runs/run_000003.html".to_string()));
}

#[test]
fn test_assign_detail_slugs_deterministic() {
    let records1 = vec![
        make_index_record("id1", "2024-01-15T12:00:00Z"),
        make_index_record("id2", "2024-01-14T12:00:00Z"),
    ];
    let records2 = records1.clone();

    let mut sorted1 = sort_records(records1);
    let mut sorted2 = sort_records(records2);
    assign_detail_slugs(&mut sorted1);
    assign_detail_slugs(&mut sorted2);

    assert_eq!(sorted1[0].detail_slug, sorted2[0].detail_slug);
    assert_eq!(sorted1[1].detail_slug, sorted2[1].detail_slug);
}

#[test]
fn test_ordering_stability_identical_timestamps() {
    let records = vec![
        make_index_record("zzz", "2024-01-15T12:00:00Z"),
        make_index_record("aaa", "2024-01-15T12:00:00Z"),
        make_index_record("mmm", "2024-01-15T12:00:00Z"),
    ];

    let sorted = sort_records(records);

    assert_eq!(sorted[0].record_id, "aaa");
    assert_eq!(sorted[1].record_id, "mmm");
    assert_eq!(sorted[2].record_id, "zzz");

    let again = sort_records(sorted.clone());
    for (a, b) in sorted.iter().zip(again.iter()) {
        assert_eq!(a.record_id, b.record_id);
    }
}

#[test]
fn test_derive_record_preserves_fields() {
    let mut record = make_test_record("my_circuit", "2024-01-15T12:00:00Z", "unique-id");
    record.prove_stats = Some(TimingStat::from_samples(&vec![100]));
    record.total_gates = Some(25000);

    let index_record = derive_record(&record);

    assert_eq!(index_record.schema_version, 1);
    assert_eq!(index_record.record_id, "unique-id");
    assert_eq!(index_record.timestamp, "2024-01-15T12:00:00Z");
    assert_eq!(index_record.circuit_name, "my_circuit");
    assert_eq!(index_record.backend, "bb");
    assert_eq!(index_record.status, "ok");
    assert_eq!(index_record.metrics.gates, Some(25000));
}

#[test]
fn test_build_index_records_sorts_and_assigns() {
    let records = vec![
        make_test_record("b", "2024-01-16T12:00:00Z", "later"),
        make_test_record("a", "2024-01-15T12:00:00Z", "earlier"),
    ];
    let index = build_index_records(&records);
    assert_eq!(index.len(), 2);
    assert_eq!(index[0].record_id, "earlier");
    assert_eq!(index[0].detail_slug, Some("run_000001".to_string()));
    assert_eq!(index[1].record_id, "later");
    assert_eq!(index[1].detail_slug, Some("run_000002".to_string()));
}
