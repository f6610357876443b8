//! The deterministic mock backend.

use noir_bench::backend::{Backend, GateInfo, ProveOutput};
use noir_bench::mock::{MockBackend, MockConfig};

#[test]
fn test_mock_backend_default() {
    let backend = MockBackend::default_mock();
    assert_eq!(backend.name(), "mock");
    assert!(backend.version().is_some());
}

#[test]
fn test_mock_backend_prove() {
    let backend = MockBackend::default_mock();
    let result = backend.prove("test.json", None, 10);
    assert!(result.is_ok());
    let output = result.unwrap();
    assert_eq!(output.prove_time_ms, 100);
}

#[test]
fn test_mock_backend_prove_fails() {
    let config = MockConfig::new("mock").prove_fails();
    let backend = MockBackend::new(config);
    let result = backend.prove("test.json", None, 10);
    assert!(result.is_err());
}

#[test]
fn test_mock_backend_verify() {
    let backend = MockBackend::default_mock();
    let result = backend.verify("proof", "vk");
    assert!(result.is_ok());
    let output = result.unwrap();
    assert!(output.success);
    assert_eq!(output.verify_time_ms, 50);
}

#[test]
fn test_mock_backend_gate_info() {
    let backend = MockBackend::with_gates(2048);
    let result = backend.gate_info("test.json");
    assert!(result.is_ok());
    let info = result.unwrap();
    assert_eq!(info.backend_gates, 2048);
    assert_eq!(info.subgroup_size, Some(2048)); // already a power of 2
}

#[test]
fn test_mock_config_builder() {
    let mut prove_output = ProveOutput::default();
    prove_output.prove_time_ms = 500;
    let config = MockConfig::new("custom")
        .with_prove_output(prove_output)
        .with_gate_info(GateInfo {
            backend_gates: 5000,
            subgroup_size: Some(8192),
            acir_opcodes: Some(100),
            per_opcode: Some(vec![
                ("add_gate".to_string(), 1000),
                ("mul_gate".to_string(), 2000),
            ]),
        });

    let backend = MockBackend::new(config);

    let prove = backend.prove("x", None, 1).unwrap();
    assert_eq!(prove.prove_time_ms, 500);

    let gates = backend.gate_info("x").unwrap();
    assert_eq!(gates.backend_gates, 5000);
    assert!(gates.per_opcode.is_some());
}

#[test]
fn test_mock_backend_verify_fails() {
    let config = MockConfig::new("mock").verify_fails();
    let backend = MockBackend::new(config);
    assert!(backend.verify("proof", "vk").is_err());
}

#[test]
fn test_mock_backend_gate_info_fails() {
    let config = MockConfig::new("mock").gate_info_fails();
    let backend = MockBackend::new(config);
    assert!(backend.gate_info("x").is_err());
}
