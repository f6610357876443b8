//! Provenance comparison and environment defaults.

use noir_bench::provenance::{
    Provenance, SystemInfo, ToolInfo, check_version_mismatches, collect_minimal,
};
use noir_bench::schema::EnvironmentInfo;

#[test]
fn test_system_info_default() {
    let sys = SystemInfo::default();
    assert!(!sys.os.is_empty());
    assert!(!sys.arch.is_empty());
}

#[test]
fn test_environment_default() {
    let env = EnvironmentInfo::default();
    assert!(!env.os.is_empty());
    assert!(env.cpu_model.is_none());
}

#[test]
fn test_collect_minimal_identity() {
    let prov = collect_minimal();
    assert_eq!(prov.noir_bench.name, "noir-bench");
    assert!(prov.noir_bench.version.is_some());
    assert!(prov.nargo.is_none());
    assert!(prov.backend.is_none());
}

fn tool(name: &str, version: &str) -> ToolInfo {
    ToolInfo {
        name: name.to_string(),
        version: Some(version.to_string()),
        git_sha: None,
        git_dirty: None,
        path: None,
    }
}

fn make_baseline() -> Provenance {
    Provenance {
        noir_bench: tool("noir-bench", "0.1.0"),
        nargo: Some(tool("nargo", "0.38.0")),
        backend: Some(tool("barretenberg", "0.63.0")),
        system: SystemInfo {
            os: "linux".to_string(),
            arch: "x86_64".to_string(),
            cpu_brand: None,
            cpu_cores: None,
            ram_bytes: None,
            hostname: None,
        },
        cli_args: vec![],
        collected_at: "2026-01-15T00:00:00Z".to_string(),
    }
}

#[test]
fn test_version_mismatch_detection() {
    let baseline = make_baseline();
    let mut target = make_baseline();
    target.nargo = Some(tool("nargo", "0.39.0")); // different version

    let mismatches = check_version_mismatches(&baseline, &target);
    assert_eq!(mismatches.len(), 1);
    assert_eq!(mismatches[0].tool, "nargo");
    assert_eq!(mismatches[0].baseline_version, Some("0.38.0".to_string()));
    assert_eq!(mismatches[0].target_version, Some("0.39.0".to_string()));
}

#[test]
fn test_no_mismatches_when_same() {
    let baseline = make_baseline();
    let target = make_baseline();
    let mismatches = check_version_mismatches(&baseline, &target);
    assert!(mismatches.is_empty());
}

#[test]
fn test_system_mismatch_reported_last() {
    let baseline = make_baseline();
    let mut target = make_baseline();
    target.backend = Some(tool("barretenberg", "0.99.0"));
    target.system.os = "macos".to_string();

    let mismatches = check_version_mismatches(&baseline, &target);
    assert_eq!(mismatches.len(), 2);
    assert_eq!(mismatches[0].tool, "barretenberg");
    assert_eq!(mismatches[1].tool, "system");
    assert_eq!(mismatches[1].baseline_version, Some("linux/x86_64".to_string()));
    assert_eq!(mismatches[1].target_version, Some("macos/x86_64".to_string()));
}

#[test]
fn test_absent_tool_is_not_a_mismatch() {
    let baseline = make_baseline();
    let mut target = make_baseline();
    target.nargo = None;
    let mismatches = check_version_mismatches(&baseline, &target);
    assert!(mismatches.is_empty());
}
