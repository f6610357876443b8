//! Backend configuration, capabilities and gate derivation.

use noir_bench::backend::{
    BackendGatesReport, BackendGatesResponse, BarretenbergBackend, BarretenbergConfig,
    Capabilities, GateInfo, gate_info_from_response, next_power_of_two,
};

#[test]
fn test_config_default() {
    let config = BarretenbergConfig::default();
    assert_eq!(config.bb_path, "bb");
    assert!(config.extra_args.is_empty());
}

#[test]
fn test_config_builder() {
    let config = BarretenbergConfig::new("/usr/local/bin/bb".to_string())
        .with_args(vec!["--scheme".to_string(), "ultra_honk".to_string()])
        .with_timeout(60);

    assert_eq!(config.bb_path, "/usr/local/bin/bb");
    assert_eq!(config.extra_args, vec!["--scheme", "ultra_honk"]);
    assert_eq!(config.default_timeout_secs, 60);
}

#[test]
fn test_backend_name() {
    let backend = BarretenbergBackend::from_path("bb".to_string());
    assert_eq!(backend.name(), "barretenberg");
}

#[test]
fn test_backend_capabilities() {
    let backend = BarretenbergBackend::from_path("bb".to_string());
    let caps = backend.capabilities();
    assert!(caps.can_prove);
    assert!(caps.can_verify);
    assert!(caps.has_gate_count);
}

#[test]
fn test_capabilities_barretenberg() {
    let caps = Capabilities::barretenberg();
    assert!(caps.can_prove);
    assert!(caps.can_verify);
    assert!(caps.can_compile);
    assert!(caps.has_gate_count);
    assert!(caps.has_per_opcode_breakdown);
    assert!(caps.has_pk_vk_sizes);
}

#[test]
fn test_capabilities_gates_only() {
    let caps = Capabilities::gates_only();
    assert!(!caps.can_prove);
    assert!(!caps.can_verify);
    assert!(!caps.can_compile);
    assert!(caps.has_gate_count);
    assert!(!caps.has_per_opcode_breakdown);
    assert!(!caps.has_pk_vk_sizes);
}

#[test]
fn test_gate_info_from_gates() {
    let info = GateInfo::from_gates(17);
    assert_eq!(info.backend_gates, 17);
    assert_eq!(info.subgroup_size, Some(32)); // next power of 2
    assert!(info.acir_opcodes.is_none());
    assert!(info.per_opcode.is_none());
}

#[test]
fn test_gate_info_zero_gates() {
    let info = GateInfo::from_gates(0);
    assert_eq!(info.backend_gates, 0);
    assert!(info.subgroup_size.is_none());
}

#[test]
fn test_next_power_of_two_values() {
    assert_eq!(next_power_of_two(1), 1);
    assert_eq!(next_power_of_two(2), 2);
    assert_eq!(next_power_of_two(3), 4);
    assert_eq!(next_power_of_two(17), 32);
    assert_eq!(next_power_of_two(1024), 1024);
    assert_eq!(next_power_of_two(1025), 2048);
}

#[test]
fn test_prove_args_shape() {
    let backend = BarretenbergBackend::new(
        BarretenbergConfig::new("bb".to_string()).with_args(vec!["--extra".to_string()]),
    );
    let args = backend.prove_args("prog.json", "witness.gz", "/tmp/out");
    assert_eq!(
        args,
        vec!["prove", "-b", "prog.json", "-w", "witness.gz", "-o", "/tmp/out", "--extra"]
    );
}

#[test]
fn test_verify_args_shape() {
    let backend = BarretenbergBackend::from_path("bb".to_string());
    let args = backend.verify_args("proof", "vk");
    assert_eq!(args, vec!["verify", "-p", "proof", "-k", "vk"]);
}

#[test]
fn test_gates_args_shape() {
    let backend = BarretenbergBackend::from_path("bb".to_string());
    let args = backend.gates_args("prog.json");
    assert_eq!(args, vec!["gates", "-b", "prog.json"]);
}

#[test]
fn test_gate_info_from_response() {
    let resp = BackendGatesResponse {
        functions: vec![BackendGatesReport {
            acir_opcodes: 5,
            total_gates: 17,
            gates_per_opcode: vec![3, 4, 10],
        }],
    };
    let info = gate_info_from_response(&resp).unwrap();
    assert_eq!(info.backend_gates, 17);
    assert_eq!(info.subgroup_size, Some(32));
    assert_eq!(info.acir_opcodes, Some(5));
    let per_opcode = info.per_opcode.unwrap();
    assert_eq!(per_opcode.len(), 3);
    assert_eq!(per_opcode[0], ("opcode_0".to_string(), 3));
    assert_eq!(per_opcode[2], ("opcode_2".to_string(), 10));
}

#[test]
fn test_gate_info_from_response_empty() {
    let resp = BackendGatesResponse { functions: vec![] };
    assert!(gate_info_from_response(&resp).is_err());
}

#[test]
fn test_gate_info_from_response_first_function_wins() {
    let resp = BackendGatesResponse {
        functions: vec![
            BackendGatesReport { acir_opcodes: 1, total_gates: 4, gates_per_opcode: vec![] },
            BackendGatesReport { acir_opcodes: 9, total_gates: 999, gates_per_opcode: vec![1] },
        ],
    };
    let info = gate_info_from_response(&resp).unwrap();
    assert_eq!(info.backend_gates, 4);
    assert_eq!(info.acir_opcodes, Some(1));
    assert!(info.per_opcode.is_none());
}
