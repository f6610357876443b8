//! Version parsing and the mock toolchain.

use noir_bench::toolchain::{MockToolchain, NargoToolchain, Toolchain, parse_nargo_version};

#[test]
fn test_parse_nargo_version_with_equals() {
    let output = "nargo version = 0.38.0\n";
    assert_eq!(parse_nargo_version(output), Some("0.38.0".to_string()));
}

#[test]
fn test_parse_nargo_version_simple() {
    let output = "nargo 0.38.0";
    assert_eq!(parse_nargo_version(output), Some("0.38.0".to_string()));
}

#[test]
fn test_parse_nargo_version_with_extra_info() {
    let output = "nargo version = 0.38.0 (git hash abc123)";
    assert_eq!(parse_nargo_version(output), Some("0.38.0".to_string()));
}

#[test]
fn test_parse_nargo_version_just_version() {
    let output = "0.38.0";
    assert_eq!(parse_nargo_version(output), Some("0.38.0".to_string()));
}

#[test]
fn test_parse_nargo_version_empty() {
    assert_eq!(parse_nargo_version(""), None);
    assert_eq!(parse_nargo_version("   "), None);
}

#[test]
fn test_parse_nargo_version_fallback() {
    // An unknown shape that does not start with a digit comes back whole.
    let output = "some-unknown-format";
    assert_eq!(
        parse_nargo_version(output),
        Some("some-unknown-format".to_string())
    );
}

#[test]
fn test_mock_toolchain_defaults() {
    let mock = MockToolchain::new();
    assert_eq!(mock.name(), "mock-nargo");
    assert!(mock.version().is_ok());
    assert_eq!(mock.version().unwrap(), "0.38.0-mock");
}

#[test]
fn test_mock_toolchain_version_override() {
    let mock = MockToolchain::new().with_version("1.0.0-test");
    assert_eq!(mock.version().unwrap(), "1.0.0-test");
}

#[test]
fn test_mock_toolchain_failing() {
    let mock = MockToolchain::new().failing();
    assert!(mock.version().is_err());
    assert!(mock.compile("/fake").is_err());
    assert!(mock.gen_witness("/fake", "/fake").is_err());
}

#[test]
fn test_mock_toolchain_compile() {
    let mock = MockToolchain::new();
    let result = mock.compile("/fake/project");
    assert!(result.is_ok());
    let artifacts = result.unwrap();
    assert_eq!(artifacts.compile_time_ms, 50);
}

#[test]
fn test_mock_toolchain_witness() {
    let mock = MockToolchain::new();
    let result = mock.gen_witness("/artifact.json", "/Prover.toml");
    assert!(result.is_ok());
    let witness = result.unwrap();
    assert_eq!(witness.witness_gen_time_ms, 25);
}

#[test]
fn test_nargo_toolchain_builders() {
    let tc = NargoToolchain::new();
    assert_eq!(tc.nargo_path(), "nargo");
    assert_eq!(tc.timeout_secs, 300);
    let tc2 = NargoToolchain::with_path("/opt/nargo".to_string()).with_timeout(60);
    assert_eq!(tc2.nargo_path(), "/opt/nargo");
    assert_eq!(tc2.timeout_secs, 60);
}
