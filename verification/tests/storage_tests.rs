//! CSV export shape and schema validation.

use noir_bench::schema::{BackendInfo, BenchRecord, EnvironmentInfo, RunConfig, SCHEMA_VERSION};
use noir_bench::stats::TimingStat;
use noir_bench::storage::{CsvExporter, JsonlWriter, csv_headers, csv_line, csv_logger_row};

fn make_test_record(name: &str) -> BenchRecord {
    BenchRecord::new(
        name.to_string(),
        EnvironmentInfo::default(),
        BackendInfo {
            name: "test-backend".to_string(),
            version: Some("1.0.0".to_string()),
            variant: None,
        },
        RunConfig {
            warmup_iterations: 2,
            measured_iterations: 5,
            timeout_secs: None,
        },
    )
}

#[test]
fn test_csv_headers_count() {
    assert_eq!(csv_headers().len(), 24);
}

#[test]
fn test_record_to_row_length() {
    let exporter = CsvExporter::new();
    let record = make_test_record("test_circuit");
    let row = exporter.record_to_row(&record);
    assert_eq!(row.len(), csv_headers().len());
}

#[test]
fn test_record_to_row_values() {
    let exporter = CsvExporter::new();
    let mut record = make_test_record("test_circuit");
    record.prove_stats = Some(TimingStat::from_samples(&vec![100, 110, 105]));
    record.total_gates = Some(1000);
    record.proof_size_bytes = Some(2048);

    let row = exporter.record_to_row(&record);
    assert_eq!(row[0], "1"); // schema_version
    assert_eq!(row[3], "test_circuit");
    assert_eq!(row[4], "test-backend");
    assert_eq!(row[8], "2"); // warmup
    assert_eq!(row[9], "5"); // iterations
    assert_eq!(row[14], "105.000"); // prove mean, three decimals
    assert_eq!(row[18], "2048"); // proof size
    assert_eq!(row[21], "1000"); // gate count
}

#[test]
fn test_optional_fields_default_to_empty() {
    let exporter = CsvExporter::new();
    let record = make_test_record("test_circuit");

    let row = exporter.record_to_row(&record);

    assert_eq!(row[6], ""); // git_sha unset
    assert_eq!(row[14], ""); // prove_mean_ms unset
    assert_eq!(row[21], ""); // gate_count unset
}

#[test]
fn test_csv_line_joins_columns() {
    let cols = vec!["a".to_string(), "b".to_string(), "c".to_string()];
    assert_eq!(csv_line(&cols), "a,b,c\n");
}

#[test]
fn test_csv_logger_row_shape() {
    let line = csv_logger_row(
        "2024-01-15T12:00:00Z",
        "circ",
        Some(8),
        "bb",
        Some(12),
        Some(345),
        None,
        Some(1000),
        Some(2048),
        None,
        "ok",
    );
    assert_eq!(line, "2024-01-15T12:00:00Z,circ,8,bb,12,345,,1000,2048,,ok\n");
}

#[test]
fn test_schema_version_validation() {
    let mut record = make_test_record("test");
    assert!(record.validate_schema_version().is_ok());
    record.schema_version = 999;
    let result = record.validate_schema_version();
    assert!(result.is_err());
    assert!(result
        .unwrap_err()
        .message()
        .contains("schema version mismatch"));
    assert_eq!(SCHEMA_VERSION, 1);
}

#[test]
fn test_jsonl_writer_path() {
    let writer = JsonlWriter::new("out/records.jsonl");
    assert_eq!(writer.path(), "out/records.jsonl");
}
