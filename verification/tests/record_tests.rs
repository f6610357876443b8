//! Record construction, flattening and the command template helpers.

use noir_bench::cmdline::{build_template_args, replace_all};
use noir_bench::regression::{FlatRecord, compare_records, flatten_record};
use noir_bench::schema::{BackendInfo, BenchRecord, EnvironmentInfo, RunConfig};
use noir_bench::stats::TimingStat;
use noir_bench::bench::{CircuitSpec, find_circuit};
use noir_bench::sha256_hex;

fn make_record(name: &str) -> BenchRecord {
    BenchRecord::new(
        name.to_string(),
        EnvironmentInfo::default(),
        BackendInfo { name: "bb".to_string(), version: None, variant: None },
        RunConfig::default(),
    )
}

#[test]
fn test_bench_record_new_fields() {
    let record = make_record("circ");
    assert_eq!(record.schema_version, 1);
    assert_eq!(record.circuit_name, "circ");
    assert!(record.prove_stats.is_none());
    assert!(record.total_gates.is_none());
    assert!(record.cli_args.is_empty());
}

#[test]
fn test_flatten_record_paths() {
    let mut record = make_record("circ");
    record.prove_stats = Some(TimingStat::from_samples(&vec![100, 110, 105]));
    record.total_gates = Some(1000);
    record.proof_size_bytes = Some(2048);

    let flat = flatten_record(&record);
    assert_eq!(flat.circuit_name, "circ");
    let get = |path: &str| {
        flat.metrics
            .iter()
            .find(|(p, _)| p == path)
            .map(|(_, v)| *v)
    };
    assert_eq!(get("prove_stats.mean_ms"), Some(105_000));
    assert_eq!(get("total_gates"), Some(1000));
    assert_eq!(get("proof_size_bytes"), Some(2048));
    assert_eq!(get("witness_stats.mean_ms"), None);
}

#[test]
fn test_compare_flattened_records_end_to_end() {
    let mut base = make_record("circ");
    base.prove_stats = Some(TimingStat::from_samples(&vec![100]));
    let mut head = make_record("circ");
    head.prove_stats = Some(TimingStat::from_samples(&vec![120]));

    let baselines: Vec<FlatRecord> = vec![flatten_record(&base)];
    let targets: Vec<FlatRecord> = vec![flatten_record(&head)];
    let report = compare_records(&baselines, &targets, "base", "head", 10_000);
    assert_eq!(report.summary.total_circuits, 1);
    assert_eq!(report.summary.regressions, 1);
    assert_eq!(report.summary.ci_exit_code, 1);
    assert_eq!(report.circuits[0].metrics[0].delta_milli_pct, 20_000);
}

#[test]
fn test_find_circuit_matching() {
    let specs = vec![
        CircuitSpec { name: "a".to_string(), path: "p1".to_string(), params: Some(8) },
        CircuitSpec { name: "a".to_string(), path: "p2".to_string(), params: Some(16) },
        CircuitSpec { name: "b".to_string(), path: "p3".to_string(), params: None },
    ];
    let hit = find_circuit(&specs, "a", Some(16)).unwrap();
    assert_eq!(hit.path, "p2");
    // Without a requested parameter, the first entry with the name serves.
    let fallback = find_circuit(&specs, "a", None).unwrap();
    assert_eq!(fallback.path, "p1");
    assert!(find_circuit(&specs, "a", Some(32)).is_none());
    assert!(find_circuit(&specs, "zzz", None).is_none());
}

#[test]
fn test_replace_all_placeholder() {
    assert_eq!(replace_all("run {artifact} now", "{artifact}", "a.json"), "run a.json now");
    assert_eq!(replace_all("{x}{x}", "{x}", "y"), "yy");
    assert_eq!(replace_all("none", "{x}", "y"), "none");
}

#[test]
fn test_build_template_args() {
    let args = build_template_args("bb gates -b {artifact}", "prog.json").unwrap();
    assert_eq!(args, vec!["bb", "gates", "-b", "prog.json"]);
    assert!(build_template_args("", "prog.json").is_none());
}

#[test]
fn test_sha256_hex_known_value() {
    // The digest of "hello", as the hashing routine documents it.
    assert_eq!(
        sha256_hex(b"hello"),
        "2cf24dba5fb0a30e26e83b2ac5b9e29e1b161e5c1fa7425e73043362938b9824"
    );
    assert_eq!(sha256_hex(b"hello").len(), 64);
}
