//! Backend abstraction for proving systems.
//!
//! A backend exposes `prove`, `verify` and `gate_info` for one proving
//! system, described by a capability set that the orchestrator consults to
//! skip (not fail) unsupported steps.  The deterministic mock lives in
//! [`crate::mock`]; the adapter that shells out to a real prover binary is
//! built around the command vectors and the interpretation of gate
//! reports defined here.

use vstd::prelude::*;

verus! {

use vstd::string::*;
use crate::BenchResult;

/// Capabilities that a backend may support.
#[derive(Debug, Clone, PartialEq, Eq, Structural)]
pub struct Capabilities {
    /// Can generate proofs.
    pub can_prove: bool,
    /// Can verify proofs.
    pub can_verify: bool,
    /// Can compile/load circuits.
    pub can_compile: bool,
    /// Reports total gate count.
    pub has_gate_count: bool,
    /// Reports per-opcode gate breakdown.
    pub has_per_opcode_breakdown: bool,
    /// Reports PK/VK sizes.
    pub has_pk_vk_sizes: bool,
}

impl Capabilities {
    /// Capabilities for the Barretenberg backend: every feature supported.
    pub fn barretenberg() -> (r: Capabilities)
        ensures
            r.can_prove && r.can_verify && r.can_compile,
            r.has_gate_count && r.has_per_opcode_breakdown && r.has_pk_vk_sizes,
    {
        Capabilities {
            can_prove: true,
            can_verify: true,
            can_compile: true,
            has_gate_count: true,
            has_per_opcode_breakdown: true,
            has_pk_vk_sizes: true,
        }
    }

    /// Minimal capabilities: only gate count.
    pub fn gates_only() -> (r: Capabilities)
        ensures
            !r.can_prove && !r.can_verify && !r.can_compile,
            r.has_gate_count,
            !r.has_per_opcode_breakdown && !r.has_pk_vk_sizes,
    {
        Capabilities {
            can_prove: false,
            can_verify: false,
            can_compile: false,
            has_gate_count: true,
            has_per_opcode_breakdown: false,
            has_pk_vk_sizes: false,
        }
    }
}

impl Default for Capabilities {
    /// No capability is supported by default.
    fn default() -> (r: Capabilities)
        ensures
            !r.can_prove && !r.can_verify && !r.can_compile,
            !r.has_gate_count && !r.has_per_opcode_breakdown && !r.has_pk_vk_sizes,
    {
        Capabilities {
            can_prove: false,
            can_verify: false,
            can_compile: false,
            has_gate_count: false,
            has_per_opcode_breakdown: false,
            has_pk_vk_sizes: false,
        }
    }
}

/// Output from one prove operation.  Timings are whole milliseconds.
#[derive(Debug, Clone)]
pub struct ProveOutput {
    /// Total proving time in milliseconds (witness gen + backend prove).
    pub prove_time_ms: u64,
    /// Time spent generating the witness, when measured separately.
    pub witness_gen_time_ms: Option<u64>,
    /// Time spent in backend proving, when measured separately.
    pub backend_prove_time_ms: Option<u64>,
    /// Peak memory usage in bytes.
    pub peak_memory_bytes: Option<u64>,
    /// Size of the generated proof in bytes.
    pub proof_size_bytes: Option<u64>,
    /// Size of the proving key in bytes.
    pub proving_key_size_bytes: Option<u64>,
    /// Size of the verification key in bytes.
    pub verification_key_size_bytes: Option<u64>,
    /// Path of the generated proof file.
    pub proof_path: Option<String>,
    /// Path of the verification key file.
    pub vk_path: Option<String>,
}

impl Default for ProveOutput {
    /// A prove output with zero time and nothing measured.
    fn default() -> (r: ProveOutput)
        ensures
            r.prove_time_ms == 0,
            r.witness_gen_time_ms is None,
            r.backend_prove_time_ms is None,
            r.peak_memory_bytes is None,
            r.proof_size_bytes is None,
            r.proving_key_size_bytes is None,
            r.verification_key_size_bytes is None,
            r.proof_path is None,
            r.vk_path is None,
    {
        ProveOutput {
            prove_time_ms: 0,
            witness_gen_time_ms: None,
            backend_prove_time_ms: None,
            peak_memory_bytes: None,
            proof_size_bytes: None,
            proving_key_size_bytes: None,
            verification_key_size_bytes: None,
            proof_path: None,
            vk_path: None,
        }
    }
}

/// Output from one verify operation.
#[derive(Debug, Clone, PartialEq, Eq, Structural)]
pub struct VerifyOutput {
    /// Verification time in milliseconds.
    pub verify_time_ms: u64,
    /// Whether verification succeeded.
    pub success: bool,
}

/// `n` is a power of two.
pub open spec fn is_pow2(n: nat) -> bool
    decreases n,
{
    if n == 0 {
        false
    } else if n == 1 {
        true
    } else {
        n % 2 == 0 && is_pow2(n / 2)
    }
}

/// The least power of two at or above `g`, for `g >= 1`.
pub fn next_power_of_two(g: u64) -> (p: u64)
    requires
        1 <= g <= 0x8000000000000000,
    ensures
        is_pow2(p as nat),
        g <= p,
        (p as int) / 2 < g,
{
    let mut p: u64 = 1;
    while p < g
        invariant
            1 <= g <= 0x8000000000000000,
            is_pow2(p as nat),
            (p as int) / 2 < g,
            p as int <= 2 * (g as int) - 1,
        decreases 2 * (g as int) - p,
    {
        p = p * 2;
    }
    p
}

/// Gate information from circuit analysis.
#[derive(Debug, Clone)]
pub struct GateInfo {
    /// Total backend gates (circuit size).
    pub backend_gates: u64,
    /// Subgroup size: the next power of two at or above the count of gates.
    pub subgroup_size: Option<u64>,
    /// Number of ACIR opcodes.
    pub acir_opcodes: Option<u64>,
    /// Per-opcode gate breakdown as (opcode label, gate count) pairs.
    pub per_opcode: Option<Vec<(String, u64)>>,
}

impl GateInfo {
    /// Gate information with just the total gate count.  A positive count
    /// yields the subgroup size; zero gates yield none.
    pub fn from_gates(gates: u64) -> (r: GateInfo)
        requires
            gates <= 0x8000000000000000,
        ensures
            r.backend_gates == gates,
            gates == 0 ==> r.subgroup_size is None,
            gates > 0 ==> (r.subgroup_size matches Some(p) && is_pow2(p as nat) && gates <= p && (
            p as int) / 2 < gates),
            r.acir_opcodes is None,
            r.per_opcode is None,
    {
        let subgroup_size = if gates > 0 {
            Some(next_power_of_two(gates))
        } else {
            None
        };
        GateInfo { backend_gates: gates, subgroup_size, acir_opcodes: None, per_opcode: None }
    }
}

/// Unified backend trait for proving systems.  Implementations either reply
/// from configuration (the mock) or wrap an external prover binary.
pub trait Backend {
    /// The backend name.
    fn name(&self) -> &str;

    /// The backend version, if available.
    fn version(&self) -> Option<String>;

    /// The capabilities supported by this backend.
    fn capabilities(&self) -> Capabilities;

    /// Generates a proof for the artifact, optionally with a pre-generated
    /// witness, within the timeout.
    fn prove(&self, artifact: &str, witness: Option<&str>, timeout_secs: u64) -> BenchResult<
        ProveOutput,
    >;

    /// Verifies a proof against a verification key.
    fn verify(&self, proof: &str, vk: &str) -> BenchResult<VerifyOutput>;

    /// Gate information for a circuit artifact.
    fn gate_info(&self, artifact: &str) -> BenchResult<GateInfo>;
}

/// One function entry of a backend's gate report, as plain values.  The
/// caller parses that subcommand's JSON response at the process edge and
/// hands the first entry over in this shape.
#[derive(Debug, Clone)]
pub struct BackendGatesReport {
    pub acir_opcodes: u64,
    pub total_gates: u64,
    pub gates_per_opcode: Vec<u64>,
}

/// A backend's gate response: one report per circuit function.
#[derive(Debug, Clone)]
pub struct BackendGatesResponse {
    pub functions: Vec<BackendGatesReport>,
}

/// Interprets a gate response: only the first function entry counts; the
/// subgroup size is derived from a positive gate count; an opcode breakdown
/// is reported only when per-opcode gates are present.
pub fn gate_info_from_response(resp: &BackendGatesResponse) -> (r: BenchResult<GateInfo>)
    ensures
        resp.functions@.len() == 0 ==> r is Err,
        r matches Ok(info) ==> {
            &&& resp.functions@.len() > 0
            &&& info.backend_gates == resp.functions@[0].total_gates
            &&& info.acir_opcodes == Some(resp.functions@[0].acir_opcodes)
            &&& (info.backend_gates == 0 ==> info.subgroup_size is None)
            &&& (info.backend_gates > 0 ==> (info.subgroup_size matches Some(p) && is_pow2(
                p as nat,
            ) && info.backend_gates <= p && (p as int) / 2 < info.backend_gates))
            &&& (resp.functions@[0].gates_per_opcode@.len() == 0 <==> info.per_opcode is None)
        },
        r is Ok <==> resp.functions@.len() > 0 && resp.functions@[0].total_gates
            <= 0x8000000000000000,
{
    if resp.functions.len() == 0 {
        return Err(crate::BenchError::Message("no functions in gates output".to_owned()));
    }
    let func = &resp.functions[0];
    if func.total_gates > 0x8000000000000000 {
        return Err(crate::BenchError::Message("gate count out of range".to_owned()));
    }
    let backend_gates = func.total_gates;
    let subgroup_size = if backend_gates > 0 {
        Some(next_power_of_two(backend_gates))
    } else {
        None
    };
    let per_opcode = if func.gates_per_opcode.len() > 0 {
        let mut labels: Vec<(String, u64)> = Vec::new();
        let mut i: usize = 0;
        while i < func.gates_per_opcode.len()
            invariant
                i <= func.gates_per_opcode@.len(),
                labels@.len() == i,
            decreases func.gates_per_opcode@.len() - i,
        {
            let mut label = String::new();
            crate::strutil::s_append(&mut label, "opcode_");
            crate::strutil::push_u64(&mut label, i as u64);
            let g = func.gates_per_opcode[i];
            labels.push((label, g));
            i = i + 1;
        }
        Some(labels)
    } else {
        None
    };
    Ok(
        GateInfo {
            backend_gates,
            subgroup_size,
            acir_opcodes: Some(func.acir_opcodes),
            per_opcode,
        },
    )
}

/// Configuration for the Barretenberg backend adapter.
#[derive(Debug, Clone)]
pub struct BarretenbergConfig {
    /// Path of the prover binary.
    pub bb_path: String,
    /// Extra arguments appended to every command.
    pub extra_args: Vec<String>,
    /// Default timeout in seconds for operations.
    pub default_timeout_secs: u64,
}

impl Default for BarretenbergConfig {
    /// The binary found as `bb` on the search path, no extra arguments, and
    /// a 24-hour timeout.
    fn default() -> (r: BarretenbergConfig)
        ensures
            r.bb_path@ == "bb"@,
            r.extra_args@.len() == 0,
            r.default_timeout_secs == 86400,
    {
        BarretenbergConfig {
            bb_path: "bb".to_owned(),
            extra_args: Vec::new(),
            default_timeout_secs: 86400,
        }
    }
}

impl BarretenbergConfig {
    /// A configuration with the given binary path and the defaults.
    pub fn new(bb_path: String) -> (r: BarretenbergConfig)
        ensures
            r.bb_path == bb_path,
            r.extra_args@.len() == 0,
            r.default_timeout_secs == 86400,
    {
        BarretenbergConfig { bb_path, extra_args: Vec::new(), default_timeout_secs: 86400 }
    }

    /// Replaces the extra arguments.
    pub fn with_args(self, args: Vec<String>) -> (r: BarretenbergConfig)
        ensures
            r.bb_path == self.bb_path,
            r.extra_args == args,
            r.default_timeout_secs == self.default_timeout_secs,
    {
        BarretenbergConfig { extra_args: args, ..self }
    }

    /// Replaces the default timeout.
    pub fn with_timeout(self, timeout_secs: u64) -> (r: BarretenbergConfig)
        ensures
            r.bb_path == self.bb_path,
            r.extra_args == self.extra_args,
            r.default_timeout_secs == timeout_secs,
    {
        BarretenbergConfig { default_timeout_secs: timeout_secs, ..self }
    }
}

/// The Barretenberg proving backend's configuration and identity.  The
/// process-running adapter wraps this type and consumes the command vectors
/// built below.
#[derive(Debug, Clone)]
pub struct BarretenbergBackend {
    pub config: BarretenbergConfig,
    pub version_cache: Option<String>,
}

/// Appends `extra` to `args`.
fn extend_args(args: &mut Vec<String>, extra: &Vec<String>)
    ensures
        final(args)@.len() == old(args)@.len() + extra@.len(),
        forall|i: int| 0 <= i < old(args)@.len() ==> final(args)@[i] == old(args)@[i],
        forall|i: int|
            0 <= i < extra@.len() ==> final(args)@[old(args)@.len() + i] == extra@[i],
{
    let mut i: usize = 0;
    while i < extra.len()
        invariant
            i <= extra@.len(),
            args@.len() == old(args)@.len() + i,
            forall|k: int| 0 <= k < old(args)@.len() ==> args@[k] == old(args)@[k],
            forall|k: int| 0 <= k < i ==> args@[old(args)@.len() + k] == extra@[k],
        decreases extra@.len() - i,
    {
        let s = extra[i].clone();
        proof {
            assert(s@ == extra@[i as int]@);
        }
        args.push(s);
        i = i + 1;
    }
}

impl BarretenbergBackend {
    /// A backend with the given configuration and no cached version.
    pub fn new(config: BarretenbergConfig) -> (r: BarretenbergBackend)
        ensures
            r.config == config,
            r.version_cache is None,
    {
        BarretenbergBackend { config, version_cache: None }
    }

    /// A backend with just the binary path.
    pub fn from_path(bb_path: String) -> (r: BarretenbergBackend)
        ensures
            r.config.bb_path == bb_path,
            r.config.extra_args@.len() == 0,
            r.version_cache is None,
    {
        BarretenbergBackend::new(BarretenbergConfig::new(bb_path))
    }

    /// This backend's name.
    pub fn name(&self) -> (r: &str)
        ensures
            r@ == "barretenberg"@,
    {
        "barretenberg"
    }

    /// This backend's capabilities: everything supported.
    pub fn capabilities(&self) -> (r: Capabilities)
        ensures
            r.can_prove && r.can_verify && r.has_gate_count,
    {
        Capabilities::barretenberg()
    }

    /// The argument vector for the prove subcommand, before the extra
    /// arguments.
    pub fn prove_args(&self, artifact: &str, witness: &str, out_dir: &str) -> (r: Vec<String>)
        ensures
            r@.len() == 7 + self.config.extra_args@.len(),
            r@[0]@ == "prove"@,
            r@[1]@ == "-b"@,
            r@[2]@ == artifact@,
            r@[3]@ == "-w"@,
            r@[4]@ == witness@,
            r@[5]@ == "-o"@,
            r@[6]@ == out_dir@,
            forall|i: int|
                0 <= i < self.config.extra_args@.len() ==> r@[7 + i] == self.config.extra_args@[i],
    {
        let mut args: Vec<String> = Vec::new();
        args.push("prove".to_owned());
        args.push("-b".to_owned());
        args.push(artifact.to_owned());
        args.push("-w".to_owned());
        args.push(witness.to_owned());
        args.push("-o".to_owned());
        args.push(out_dir.to_owned());
        extend_args(&mut args, &self.config.extra_args);
        args
    }

    /// The argument vector for the verify subcommand.
    pub fn verify_args(&self, proof: &str, vk: &str) -> (r: Vec<String>)
        ensures
            r@.len() == 5 + self.config.extra_args@.len(),
            r@[0]@ == "verify"@,
            r@[1]@ == "-p"@,
            r@[2]@ == proof@,
            r@[3]@ == "-k"@,
            r@[4]@ == vk@,
            forall|i: int|
                0 <= i < self.config.extra_args@.len() ==> r@[5 + i] == self.config.extra_args@[i],
    {
        let mut args: Vec<String> = Vec::new();
        args.push("verify".to_owned());
        args.push("-p".to_owned());
        args.push(proof.to_owned());
        args.push("-k".to_owned());
        args.push(vk.to_owned());
        extend_args(&mut args, &self.config.extra_args);
        args
    }

    /// The argument vector for the subcommand that counts gates.
    pub fn gates_args(&self, artifact: &str) -> (r: Vec<String>)
        ensures
            r@.len() == 3 + self.config.extra_args@.len(),
            r@[0]@ == "gates"@,
            r@[1]@ == "-b"@,
            r@[2]@ == artifact@,
            forall|i: int|
                0 <= i < self.config.extra_args@.len() ==> r@[3 + i] == self.config.extra_args@[i],
    {
        let mut args: Vec<String> = Vec::new();
        args.push("gates".to_owned());
        args.push("-b".to_owned());
        args.push(artifact.to_owned());
        extend_args(&mut args, &self.config.extra_args);
        args
    }
}

} // verus!
