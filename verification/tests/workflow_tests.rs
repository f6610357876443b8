//! The orchestrator on the deterministic mock toolchain and backend.

use noir_bench::backend::ProveOutput;
use noir_bench::mock::{MockBackend, MockConfig};
use noir_bench::schema::EnvironmentInfo;
use noir_bench::toolchain::MockToolchain;
use noir_bench::workflow::{
    GateInfoStatus, ProveInputs, VerifyStatus, full_benchmark, prove_only, prove_with_iterations,
};

fn create_mock_toolchain() -> MockToolchain {
    MockToolchain::new().with_version("0.38.0-test")
}

fn create_mock_backend() -> MockBackend {
    let mut output = ProveOutput::default();
    output.prove_time_ms = 100;
    output.backend_prove_time_ms = Some(100);
    output.peak_memory_bytes = Some(50_000_000);
    output.proof_size_bytes = Some(2048);
    output.proving_key_size_bytes = Some(1_000_000);
    output.verification_key_size_bytes = Some(512);
    MockBackend::new(MockConfig::new("mock-backend").with_prove_output(output))
}

#[test]
fn test_prove_only_returns_bench_record() {
    let toolchain = create_mock_toolchain();
    let backend = create_mock_backend();
    let inputs = ProveInputs::new("/tmp/test-artifact.json", "test-circuit");

    let result = prove_only(&toolchain, &backend, &EnvironmentInfo::default(), &inputs);
    assert!(result.is_ok());

    let record = result.unwrap();
    assert_eq!(record.circuit_name, "test-circuit");
    assert_eq!(record.backend.name, "mock-backend");
    assert_eq!(record.schema_version, 1);
}

#[test]
fn test_prove_only_populates_timing_stats() {
    let toolchain = create_mock_toolchain();
    let backend = create_mock_backend();
    let inputs = ProveInputs::new("/tmp/test-artifact.json", "test-circuit");

    let record = prove_only(&toolchain, &backend, &EnvironmentInfo::default(), &inputs).unwrap();

    assert!(record.witness_stats.is_some());
    let witness_stats = record.witness_stats.unwrap();
    assert_eq!(witness_stats.iterations, 1);
    assert!(witness_stats.mean_ms > 0);

    assert!(record.prove_stats.is_some());
    let prove_stats = record.prove_stats.unwrap();
    assert_eq!(prove_stats.iterations, 1);
    assert_eq!(prove_stats.mean_ms, 100_000);
}

#[test]
fn test_prove_only_populates_size_metrics() {
    let toolchain = create_mock_toolchain();
    let backend = create_mock_backend();
    let inputs = ProveInputs::new("/tmp/test-artifact.json", "test-circuit");

    let record = prove_only(&toolchain, &backend, &EnvironmentInfo::default(), &inputs).unwrap();

    assert_eq!(record.proof_size_bytes, Some(2048));
    assert_eq!(record.proving_key_size_bytes, Some(1_000_000));
    assert_eq!(record.verification_key_size_bytes, Some(512));
}

#[test]
fn test_prove_only_sets_backend_and_toolchain_names() {
    let toolchain = create_mock_toolchain();
    let backend = create_mock_backend();
    let inputs = ProveInputs::new("/tmp/test-artifact.json", "test-circuit");

    let record = prove_only(&toolchain, &backend, &EnvironmentInfo::default(), &inputs).unwrap();

    assert_eq!(record.backend.name, "mock-backend");
    assert_eq!(record.env.nargo_version, Some("0.38.0-test".to_string()));
}

#[test]
fn test_prove_inputs_builder() {
    let inputs = ProveInputs::new("/path/to/artifact.json", "my-circuit")
        .with_prover_toml("/path/to/Prover.toml")
        .with_timeout(60);

    assert_eq!(inputs.artifact_path, "/path/to/artifact.json");
    assert_eq!(inputs.prover_toml, Some("/path/to/Prover.toml".to_string()));
    assert_eq!(inputs.circuit_name, "my-circuit");
    assert_eq!(inputs.timeout_secs, 60);
}

#[test]
fn test_prove_with_iterations_multiple_samples() {
    let toolchain = create_mock_toolchain();
    let backend = create_mock_backend();
    let inputs = ProveInputs::new("/tmp/test-artifact.json", "test-circuit");

    let result = prove_with_iterations(
        &toolchain,
        &backend,
        &EnvironmentInfo::default(),
        &inputs,
        1,
        3,
    );
    assert!(result.is_ok());

    let record = result.unwrap();

    // Warmup iterations execute but contribute no samples.
    assert_eq!(record.config.warmup_iterations, 1);
    assert_eq!(record.config.measured_iterations, 3);

    let prove_stats = record.prove_stats.unwrap();
    assert_eq!(prove_stats.iterations, 3);
    let witness_stats = record.witness_stats.unwrap();
    assert_eq!(witness_stats.iterations, 3);
}

#[test]
fn test_prove_with_iterations_zero_fails() {
    let toolchain = create_mock_toolchain();
    let backend = create_mock_backend();
    let inputs = ProveInputs::new("/tmp/test-artifact.json", "test-circuit");

    let result = prove_with_iterations(
        &toolchain,
        &backend,
        &EnvironmentInfo::default(),
        &inputs,
        0,
        0,
    );
    assert!(result.is_err());
}

#[test]
fn test_zero_iterations_rejected_before_any_call() {
    // With a toolchain and backend that fail on every call, the
    // zero-iterations validation error still comes back verbatim: the
    // validation fires before any toolchain or backend call.
    let toolchain = MockToolchain::new().failing();
    let backend = MockBackend::new(MockConfig::new("mock").prove_fails());
    let inputs = ProveInputs::new("/tmp/a.json", "c");

    let err = prove_with_iterations(
        &toolchain,
        &backend,
        &EnvironmentInfo::default(),
        &inputs,
        0,
        0,
    )
    .unwrap_err();
    assert_eq!(err.message(), "iterations must be at least 1");

    let err2 =
        full_benchmark(&toolchain, &backend, &EnvironmentInfo::default(), &inputs, 5, 0)
            .unwrap_err();
    assert_eq!(err2.message(), "iterations must be at least 1");
}

#[test]
fn test_full_benchmark_collects_gates_and_verifies() {
    let toolchain = create_mock_toolchain();
    let backend = MockBackend::default_mock();
    let inputs = ProveInputs::new("/tmp/test-artifact.json", "test-circuit");

    let result =
        full_benchmark(&toolchain, &backend, &EnvironmentInfo::default(), &inputs, 1, 3).unwrap();

    assert_eq!(result.record.config.warmup_iterations, 1);
    assert_eq!(result.record.config.measured_iterations, 3);
    assert_eq!(result.record.prove_stats.as_ref().unwrap().iterations, 3);
    assert!(matches!(result.gate_info_status, GateInfoStatus::Collected));
    assert_eq!(result.constraints, Some(1000));
    assert_eq!(result.record.total_gates, Some(1000));
    // The default mock returns no proof or key paths, so verification is
    // skipped for missing artifacts, never an error.
    assert!(matches!(
        result.verify_status,
        VerifyStatus::SkippedMissingArtifacts
    ));
    assert!(!result.verify_success);
}

#[test]
fn test_full_benchmark_verifies_with_artifacts() {
    let toolchain = create_mock_toolchain();
    let mut output = ProveOutput::default();
    output.prove_time_ms = 80;
    output.proof_path = Some("/tmp/proof".to_string());
    output.vk_path = Some("/tmp/vk".to_string());
    let backend = MockBackend::new(MockConfig::new("mock").with_prove_output(output));
    let inputs = ProveInputs::new("/tmp/test-artifact.json", "test-circuit");

    let result =
        full_benchmark(&toolchain, &backend, &EnvironmentInfo::default(), &inputs, 0, 2).unwrap();

    assert!(matches!(result.verify_status, VerifyStatus::Verified));
    assert!(result.verify_success);
    assert_eq!(result.verify_time_ms, Some(50));
    assert!(result.record.verify_stats.is_some());
}

#[test]
fn test_full_benchmark_prove_failure_aborts() {
    let toolchain = create_mock_toolchain();
    let backend = MockBackend::new(MockConfig::new("mock").prove_fails());
    let inputs = ProveInputs::new("/tmp/test-artifact.json", "test-circuit");

    let result =
        full_benchmark(&toolchain, &backend, &EnvironmentInfo::default(), &inputs, 1, 3);
    assert!(result.is_err());
}

#[test]
fn test_full_benchmark_gate_failure_not_fatal() {
    let toolchain = create_mock_toolchain();
    let backend = MockBackend::new(MockConfig::new("mock").gate_info_fails());
    let inputs = ProveInputs::new("/tmp/test-artifact.json", "test-circuit");

    let result =
        full_benchmark(&toolchain, &backend, &EnvironmentInfo::default(), &inputs, 0, 1).unwrap();
    assert!(matches!(result.gate_info_status, GateInfoStatus::Failed(_)));
    assert!(result.record.total_gates.is_none());
}

#[test]
fn test_prove_only_witness_failure_aborts() {
    // A witness-generation failure in any iteration aborts the workflow
    // with no record at all.
    let toolchain = MockToolchain::new().failing();
    let backend = create_mock_backend();
    let inputs = ProveInputs::new("/tmp/test-artifact.json", "test-circuit");
    assert!(prove_only(&toolchain, &backend, &EnvironmentInfo::default(), &inputs).is_err());
    assert!(prove_with_iterations(
        &toolchain,
        &backend,
        &EnvironmentInfo::default(),
        &inputs,
        1,
        3
    )
    .is_err());
}
