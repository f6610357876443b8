//! Deterministic in-memory backend used for testing the orchestrator.
//!
//! The mock returns configured responses without running any external
//! process, so a workflow driven by it is reproducible call for call.

use vstd::prelude::*;

verus! {

use vstd::string::*;
use crate::BenchResult;
use crate::backend::{Backend, Capabilities, GateInfo, ProveOutput, VerifyOutput};

/// Configuration for mock backend responses.
#[derive(Debug, Clone)]
pub struct MockConfig {
    /// Name to report.
    pub name: String,
    /// Version to report.
    pub version: Option<String>,
    /// Capabilities to report.
    pub capabilities: Capabilities,
    /// Prove output to return.
    pub prove_output: Option<ProveOutput>,
    /// Verify output to return.
    pub verify_output: Option<VerifyOutput>,
    /// Gate information to return.
    pub gate_info: Option<GateInfo>,
    /// Whether prove fails.
    pub prove_fails: bool,
    /// Whether verify fails.
    pub verify_fails: bool,
    /// Whether gate information fails.
    pub gate_info_fails: bool,
}

impl MockConfig {
    /// A mock configuration with the given name and a full set of
    /// deterministic default responses.
    pub fn new(name: &str) -> (r: MockConfig)
        ensures
            r.name@ == name@,
            r.version matches Some(v) && v@ == "mock-1.0.0"@,
            r.capabilities.can_prove && r.capabilities.can_verify && r.capabilities.can_compile,
            r.capabilities.has_gate_count && r.capabilities.has_per_opcode_breakdown
                && r.capabilities.has_pk_vk_sizes,
            r.prove_output matches Some(p) && p.prove_time_ms == 100 && p.witness_gen_time_ms
                == Some(10u64) && p.backend_prove_time_ms == Some(90u64) && p.peak_memory_bytes
                == Some(100000000u64) && p.proof_size_bytes == Some(4096u64)
                && p.proving_key_size_bytes is None && p.verification_key_size_bytes
                == Some(1024u64) && p.proof_path is None && p.vk_path is None,
            r.verify_output matches Some(v) && v.verify_time_ms == 50 && v.success,
            r.gate_info matches Some(g) && g.backend_gates == 1000 && g.subgroup_size
                == Some(1024u64) && g.acir_opcodes == Some(50u64) && g.per_opcode is None,
            !r.prove_fails && !r.verify_fails && !r.gate_info_fails,
    {
        MockConfig {
            name: name.to_owned(),
            version: Some("mock-1.0.0".to_owned()),
            capabilities: Capabilities::barretenberg(),
            prove_output: Some(
                ProveOutput {
                    prove_time_ms: 100,
                    witness_gen_time_ms: Some(10),
                    backend_prove_time_ms: Some(90),
                    peak_memory_bytes: Some(100000000),
                    proof_size_bytes: Some(4096),
                    proving_key_size_bytes: None,
                    verification_key_size_bytes: Some(1024),
                    proof_path: None,
                    vk_path: None,
                },
            ),
            verify_output: Some(VerifyOutput { verify_time_ms: 50, success: true }),
            gate_info: Some(
                GateInfo {
                    backend_gates: 1000,
                    subgroup_size: Some(1024),
                    acir_opcodes: Some(50),
                    per_opcode: None,
                },
            ),
            prove_fails: false,
            verify_fails: false,
            gate_info_fails: false,
        }
    }

    /// Replaces the prove output.
    pub fn with_prove_output(self, output: ProveOutput) -> (r: MockConfig)
        ensures
            r.prove_output == Some(output),
            r.name == self.name,
            r.prove_fails == self.prove_fails,
            r.verify_output == self.verify_output,
            r.gate_info == self.gate_info,
            r.capabilities == self.capabilities,
    {
        MockConfig { prove_output: Some(output), ..self }
    }

    /// Replaces the verify output.
    pub fn with_verify_output(self, output: VerifyOutput) -> (r: MockConfig)
        ensures
            r.verify_output == Some(output),
            r.name == self.name,
            r.prove_output == self.prove_output,
    {
        MockConfig { verify_output: Some(output), ..self }
    }

    /// Replaces gate information.
    pub fn with_gate_info(self, info: GateInfo) -> (r: MockConfig)
        ensures
            r.gate_info == Some(info),
            r.name == self.name,
            r.prove_output == self.prove_output,
    {
        MockConfig { gate_info: Some(info), ..self }
    }

    /// Makes prove fail.
    pub fn prove_fails(self) -> (r: MockConfig)
        ensures
            r.prove_fails,
            r.name == self.name,
            r.verify_fails == self.verify_fails,
            r.gate_info_fails == self.gate_info_fails,
    {
        MockConfig { prove_fails: true, ..self }
    }

    /// Makes verify fail.
    pub fn verify_fails(self) -> (r: MockConfig)
        ensures
            r.verify_fails,
            r.name == self.name,
            r.prove_fails == self.prove_fails,
    {
        MockConfig { verify_fails: true, ..self }
    }

    /// Makes gate information fail.
    pub fn gate_info_fails(self) -> (r: MockConfig)
        ensures
            r.gate_info_fails,
            r.name == self.name,
            r.prove_fails == self.prove_fails,
    {
        MockConfig { gate_info_fails: true, ..self }
    }

    /// Replaces the capabilities.
    pub fn with_capabilities(self, caps: Capabilities) -> (r: MockConfig)
        ensures
            r.capabilities == caps,
            r.name == self.name,
            r.prove_output == self.prove_output,
    {
        MockConfig { capabilities: caps, ..self }
    }
}

/// Mock backend for unit testing: returns the configured responses without
/// performing any proving or verification work.
pub struct MockBackend {
    pub config: MockConfig,
}

impl MockBackend {
    /// A mock backend with the given configuration.
    pub fn new(config: MockConfig) -> (r: MockBackend)
        ensures
            r.config == config,
    {
        MockBackend { config }
    }

    /// A mock backend with the default configuration, named `mock`.
    pub fn default_mock() -> (r: MockBackend)
        ensures
            r.config.name@ == "mock"@,
            !r.config.prove_fails,
    {
        MockBackend::new(MockConfig::new("mock"))
    }

    /// A mock backend that always succeeds and reports the given gate
    /// count, with the subgroup size derived from it as `from_gates` does.
    pub fn with_gates(gates: u64) -> (r: MockBackend)
        requires
            gates <= 0x8000000000000000,
        ensures
            r.config.name@ == "mock"@,
            r.config.gate_info matches Some(g) && g.backend_gates == gates && g.acir_opcodes
                is None && g.per_opcode is None,
            gates == 0 ==> r.config.gate_info->Some_0.subgroup_size is None,
            gates > 0 ==> (r.config.gate_info->Some_0.subgroup_size matches Some(p)
                && crate::backend::is_pow2(p as nat) && gates <= p && (p as int) / 2 < gates),
            r.config.prove_output is Some,
            r.config.verify_output is Some,
            !r.config.prove_fails && !r.config.verify_fails && !r.config.gate_info_fails,
    {
        let mut config = MockConfig::new("mock");
        config.gate_info = Some(GateInfo::from_gates(gates));
        MockBackend::new(config)
    }
}

impl Backend for MockBackend {
    fn name(&self) -> &str {
        self.config.name.as_str()
    }

    fn version(&self) -> Option<String> {
        match &self.config.version {
            Some(v) => Some(v.clone()),
            None => None,
        }
    }

    fn capabilities(&self) -> Capabilities {
        self.config.capabilities.clone()
    }

    fn prove(&self, _artifact: &str, _witness: Option<&str>, _timeout_secs: u64) -> BenchResult<
        ProveOutput,
    > {
        if self.config.prove_fails {
            return Err(crate::BenchError::Message("mock prove failed".to_owned()));
        }
        match &self.config.prove_output {
            Some(o) => Ok(o.clone()),
            None => Err(crate::BenchError::Message("no prove output configured".to_owned())),
        }
    }

    fn verify(&self, _proof: &str, _vk: &str) -> BenchResult<VerifyOutput> {
        if self.config.verify_fails {
            return Err(crate::BenchError::Message("mock verify failed".to_owned()));
        }
        match &self.config.verify_output {
            Some(o) => Ok(o.clone()),
            None => Err(crate::BenchError::Message("no verify output configured".to_owned())),
        }
    }

    fn gate_info(&self, _artifact: &str) -> BenchResult<GateInfo> {
        if self.config.gate_info_fails {
            return Err(crate::BenchError::Message("mock gate_info failed".to_owned()));
        }
        match &self.config.gate_info {
            Some(o) => Ok(o.clone()),
            None => Err(crate::BenchError::Message("no gate info configured".to_owned())),
        }
    }
}

} // verus!
