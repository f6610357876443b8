//! Workflow orchestration: composes a `Toolchain` and a `Backend` across
//! warmup and measured iterations and produces a canonical `BenchRecord`.
//!
//! Failure semantics: a witness-generation or prove failure in any iteration
//! aborts the whole workflow with no record; failures of the optional
//! gate-info and verify steps are captured as status values instead.  A
//! request for zero measured iterations is rejected up front, before any
//! toolchain or backend call.

use vstd::prelude::*;

verus! {

use vstd::string::*;
use crate::{BenchError, BenchResult};
use crate::backend::{Backend, GateInfo, ProveOutput};
use crate::schema::{BackendInfo, BenchRecord, EnvironmentInfo, RunConfig, SCHEMA_VERSION};
use crate::stats::{MAX_SAMPLE_MS, MAX_SAMPLES, TimingStat, samples_ok, stat_of};
use crate::toolchain::Toolchain;

/// Inputs for a prove workflow.
#[derive(Debug, Clone)]
pub struct ProveInputs {
    /// Path of the compiled artifact.
    pub artifact_path: String,
    /// Path of the prover inputs file, when not the default.
    pub prover_toml: Option<String>,
    /// Circuit name for the record.
    pub circuit_name: String,
    /// Timeout in seconds for backend operations.
    pub timeout_secs: u64,
    /// Size of the artifact in bytes, when the caller measured it.
    pub artifact_size_bytes: Option<u64>,
}

impl ProveInputs {
    /// Inputs with the required fields and a five-minute timeout.
    pub fn new(artifact_path: &str, circuit_name: &str) -> (r: ProveInputs)
        ensures
            r.artifact_path@ == artifact_path@,
            r.circuit_name@ == circuit_name@,
            r.prover_toml is None,
            r.timeout_secs == 300,
            r.artifact_size_bytes is None,
    {
        ProveInputs {
            artifact_path: artifact_path.to_owned(),
            prover_toml: None,
            circuit_name: circuit_name.to_owned(),
            timeout_secs: 300,
            artifact_size_bytes: None,
        }
    }

    /// Sets the prover inputs path.
    pub fn with_prover_toml(self, prover_toml: &str) -> (r: ProveInputs)
        ensures
            r.prover_toml matches Some(p) && p@ == prover_toml@,
            r.artifact_path == self.artifact_path,
            r.circuit_name == self.circuit_name,
            r.timeout_secs == self.timeout_secs,
            r.artifact_size_bytes == self.artifact_size_bytes,
    {
        ProveInputs { prover_toml: Some(prover_toml.to_owned()), ..self }
    }

    /// Sets the timeout.
    pub fn with_timeout(self, timeout_secs: u64) -> (r: ProveInputs)
        ensures
            r.timeout_secs == timeout_secs,
            r.artifact_path == self.artifact_path,
            r.circuit_name == self.circuit_name,
            r.prover_toml == self.prover_toml,
            r.artifact_size_bytes == self.artifact_size_bytes,
    {
        ProveInputs { timeout_secs, ..self }
    }

    /// Sets the measured artifact size.
    pub fn with_artifact_size(self, bytes: u64) -> (r: ProveInputs)
        ensures
            r.artifact_size_bytes == Some(bytes),
            r.artifact_path == self.artifact_path,
            r.circuit_name == self.circuit_name,
            r.prover_toml == self.prover_toml,
            r.timeout_secs == self.timeout_secs,
    {
        ProveInputs { artifact_size_bytes: Some(bytes), ..self }
    }
}

/// Gate-info collection status for full benchmarks.
#[derive(Debug, Clone)]
pub enum GateInfoStatus {
    Collected,
    SkippedUnsupported,
    Failed(String),
}

/// Verification status for full benchmarks.
#[derive(Debug, Clone)]
pub enum VerifyStatus {
    Verified,
    SkippedUnsupported,
    SkippedMissingArtifacts,
    Failed(String),
}

/// Caps a raw millisecond timing at the largest accepted sample.
fn clamp_sample(t: u64) -> (r: u64)
    ensures
        r == if t > MAX_SAMPLE_MS {
            MAX_SAMPLE_MS as u64
        } else {
            t
        },
        r <= MAX_SAMPLE_MS,
{
    if t > MAX_SAMPLE_MS {
        MAX_SAMPLE_MS
    } else {
        t
    }
}

/// The prover-inputs path handed to the toolchain: the configured one, or
/// the conventional default.
fn prover_toml_path(inputs: &ProveInputs) -> (r: &str)
    ensures
        inputs.prover_toml matches Some(p) ==> r@ == p@,
        inputs.prover_toml is None ==> r@ == "Prover.toml"@,
{
    match &inputs.prover_toml {
        Some(p) => p.as_str(),
        None => "Prover.toml",
    }
}

/// Executes a prove-only workflow: one witness generation and one proof,
/// folded into a record with single-sample timing statistics.
pub fn prove_only<T: Toolchain, B: Backend>(
    toolchain: &T,
    backend: &B,
    env: &EnvironmentInfo,
    inputs: &ProveInputs,
) -> (r: BenchResult<BenchRecord>)
    ensures
        r matches Ok(rec) ==> {
            &&& rec.schema_version == SCHEMA_VERSION
            &&& rec.circuit_name == inputs.circuit_name
            &&& rec.circuit_path == Some(inputs.artifact_path)
            &&& rec.config.warmup_iterations == 0
            &&& rec.config.measured_iterations == 1
            &&& rec.config.timeout_secs == Some(inputs.timeout_secs)
            &&& (rec.witness_stats matches Some(s) && s.iterations == 1)
            &&& (rec.prove_stats matches Some(s) && s.iterations == 1 && s.min_ms == s.mean_ms
                && s.max_ms == s.mean_ms && s.median_ms == Some(s.mean_ms))
            &&& rec.artifact_size_bytes == inputs.artifact_size_bytes
        },
{
    let toolchain_version = toolchain.version();
    let mut env_used = env.clone();
    match toolchain_version {
        Ok(v) => {
            env_used.nargo_version = Some(v);
        },
        Err(_) => {},
    }
    let backend_info = BackendInfo {
        name: backend.name().to_owned(),
        version: backend.version(),
        variant: None,
    };
    let config = RunConfig {
        warmup_iterations: 0,
        measured_iterations: 1,
        timeout_secs: Some(inputs.timeout_secs),
    };
    let mut record = BenchRecord::new(inputs.circuit_name.clone(), env_used, backend_info, config);
    record.circuit_path = Some(inputs.artifact_path.clone());

    let witness_result = match toolchain.gen_witness(
        inputs.artifact_path.as_str(),
        prover_toml_path(inputs),
    ) {
        Ok(w) => w,
        Err(e) => {
            return Err(e);
        },
    };
    let witness_ms = clamp_sample(witness_result.witness_gen_time_ms);
    let mut witness_samples: Vec<u64> = Vec::new();
    witness_samples.push(witness_ms);
    record.witness_stats = Some(TimingStat::from_samples(&witness_samples));

    let prove_output = match backend.prove(
        inputs.artifact_path.as_str(),
        Some(witness_result.witness_path.as_str()),
        inputs.timeout_secs,
    ) {
        Ok(o) => o,
        Err(e) => {
            toolchain.discard_witness(witness_result);
            return Err(e);
        },
    };
    let prove_ms = clamp_sample(prove_output.prove_time_ms);
    let mut prove_samples: Vec<u64> = Vec::new();
    prove_samples.push(prove_ms);
    proof {
        crate::stats::lemma_stat_of_single(prove_samples@);
    }
    record.prove_stats = Some(TimingStat::from_samples(&prove_samples));

    record.proof_size_bytes = prove_output.proof_size_bytes;
    record.proving_key_size_bytes = prove_output.proving_key_size_bytes;
    record.verification_key_size_bytes = prove_output.verification_key_size_bytes;
    record.artifact_size_bytes = inputs.artifact_size_bytes;
    record.peak_rss_mb = peak_rss_thousandth_mb(prove_output.peak_memory_bytes);

    toolchain.discard_witness(witness_result);
    Ok(record)
}

/// Converts a peak-memory byte count into thousandths of a megabyte.
pub fn peak_rss_thousandth_mb(bytes: Option<u64>) -> (r: Option<u64>)
    ensures
        bytes is None <==> r is None,
        bytes matches Some(b) ==> r == Some((((b as int) * 1000) / 1048576) as u64),
{
    match bytes {
        Some(b) => {
            let wide: u128 = (b as u128) * 1000;
            Some((wide / 1048576) as u64)
        },
        None => None,
    }
}

/// The error returned when zero measured iterations are requested.  The
/// validation happens before any toolchain or backend call.
pub fn zero_iterations_error() -> (r: BenchError)
    ensures
        r matches BenchError::Message(m) && m@ == "iterations must be at least 1"@,
{
    BenchError::Message("iterations must be at least 1".to_owned())
}

/// Runs the warmup-plus-measured prove loop shared by the iterating
/// workflows.  Returns the measured witness and prove samples, in iteration
/// order, and the last iteration's prove output.
fn run_prove_loop<T: Toolchain, B: Backend>(
    toolchain: &T,
    backend: &B,
    inputs: &ProveInputs,
    warmup: usize,
    iterations: usize,
) -> (r: BenchResult<(Vec<u64>, Vec<u64>, ProveOutput)>)
    requires
        1 <= iterations,
        warmup + iterations <= MAX_SAMPLES,
    ensures
        r matches Ok(t) ==> {
            &&& t.0@.len() == iterations
            &&& t.1@.len() == iterations
            &&& samples_ok(t.0@)
            &&& samples_ok(t.1@)
        },
{
    let total_runs = warmup + iterations;
    let mut witness_times: Vec<u64> = Vec::new();
    let mut prove_times: Vec<u64> = Vec::new();
    let mut last_output: Option<ProveOutput> = None;
    let mut i: usize = 0;
    while i < total_runs
        invariant
            total_runs == warmup + iterations,
            1 <= iterations,
            total_runs <= MAX_SAMPLES,
            i <= total_runs,
            witness_times@.len() == if i >= warmup {
                (i - warmup) as int
            } else {
                0
            },
            prove_times@.len() == witness_times@.len(),
            samples_ok(witness_times@),
            samples_ok(prove_times@),
            i > warmup ==> last_output is Some,
        decreases total_runs - i,
    {
        let witness_result = match toolchain.gen_witness(
            inputs.artifact_path.as_str(),
            prover_toml_path(inputs),
        ) {
            Ok(w) => w,
            Err(e) => {
                return Err(e);
            },
        };
        let prove_output = match backend.prove(
            inputs.artifact_path.as_str(),
            Some(witness_result.witness_path.as_str()),
            inputs.timeout_secs,
        ) {
            Ok(o) => o,
            Err(e) => {
                toolchain.discard_witness(witness_result);
                return Err(e);
            },
        };
        if i >= warmup {
            witness_times.push(clamp_sample(witness_result.witness_gen_time_ms));
            prove_times.push(clamp_sample(prove_output.prove_time_ms));
        }
        toolchain.discard_witness(witness_result);
        last_output = Some(prove_output);
        i = i + 1;
    }
    match last_output {
        Some(o) => Ok((witness_times, prove_times, o)),
        None => Err(BenchError::Message("no iteration produced output".to_owned())),
    }
}

/// Builds the record shared by the iterating workflows, with environment,
/// backend identity and run configuration resolved once.
fn make_record<T: Toolchain, B: Backend>(
    toolchain: &T,
    backend: &B,
    env: &EnvironmentInfo,
    inputs: &ProveInputs,
    warmup: u32,
    iterations: u32,
) -> (r: BenchRecord)
    ensures
        r.schema_version == SCHEMA_VERSION,
        r.circuit_name == inputs.circuit_name,
        r.circuit_path == Some(inputs.artifact_path),
        r.config.warmup_iterations == warmup,
        r.config.measured_iterations == iterations,
        r.config.timeout_secs == Some(inputs.timeout_secs),
        r.witness_stats is None,
        r.prove_stats is None,
        r.verify_stats is None,
        r.total_gates is None,
        r.artifact_size_bytes is None,
{
    let toolchain_version = toolchain.version();
    let mut env_used = env.clone();
    match toolchain_version {
        Ok(v) => {
            env_used.nargo_version = Some(v);
        },
        Err(_) => {},
    }
    let backend_info = BackendInfo {
        name: backend.name().to_owned(),
        version: backend.version(),
        variant: None,
    };
    let config = RunConfig {
        warmup_iterations: warmup,
        measured_iterations: iterations,
        timeout_secs: Some(inputs.timeout_secs),
    };
    let mut record = BenchRecord::new(inputs.circuit_name.clone(), env_used, backend_info, config);
    record.circuit_path = Some(inputs.artifact_path.clone());
    record
}

/// Executes the prove workflow with warmup and measured iterations.
///
/// Warmup iterations run every call but contribute no samples; the timing
/// statistics aggregate exactly the measured iterations, and the size
/// metrics come from the last iteration only.  Zero measured iterations are
/// rejected before any toolchain or backend call.
pub fn prove_with_iterations<T: Toolchain, B: Backend>(
    toolchain: &T,
    backend: &B,
    env: &EnvironmentInfo,
    inputs: &ProveInputs,
    warmup: usize,
    iterations: usize,
) -> (r: BenchResult<BenchRecord>)
    requires
        warmup + iterations <= MAX_SAMPLES,
    ensures
        iterations == 0 ==> (r matches Err(e) && e matches BenchError::Message(m) && m@
            == "iterations must be at least 1"@),
        r matches Ok(rec) ==> {
            &&& iterations >= 1
            &&& rec.schema_version == SCHEMA_VERSION
            &&& rec.circuit_name == inputs.circuit_name
            &&& rec.circuit_path == Some(inputs.artifact_path)
            &&& rec.config.warmup_iterations == warmup
            &&& rec.config.measured_iterations == iterations
            &&& rec.config.timeout_secs == Some(inputs.timeout_secs)
            &&& (rec.witness_stats matches Some(s) && s.iterations == iterations)
            &&& (rec.prove_stats matches Some(s) && s.iterations == iterations)
            &&& rec.artifact_size_bytes == inputs.artifact_size_bytes
        },
{
    if iterations == 0 {
        return Err(zero_iterations_error());
    }
    let mut record = make_record(
        toolchain,
        backend,
        env,
        inputs,
        warmup as u32,
        iterations as u32,
    );
    let (witness_times, prove_times, last_output) = match run_prove_loop(
        toolchain,
        backend,
        inputs,
        warmup,
        iterations,
    ) {
        Ok(t) => t,
        Err(e) => {
            return Err(e);
        },
    };
    record.witness_stats = Some(TimingStat::from_samples(&witness_times));
    record.prove_stats = Some(TimingStat::from_samples(&prove_times));
    record.proof_size_bytes = last_output.proof_size_bytes;
    record.proving_key_size_bytes = last_output.proving_key_size_bytes;
    record.verification_key_size_bytes = last_output.verification_key_size_bytes;
    record.peak_rss_mb = peak_rss_thousandth_mb(last_output.peak_memory_bytes);
    record.artifact_size_bytes = inputs.artifact_size_bytes;
    Ok(record)
}

/// Result from a full benchmark workflow.
#[derive(Debug, Clone)]
pub struct FullBenchmarkResult {
    /// The record with all timing and size metrics.
    pub record: BenchRecord,
    /// Gate count, when gate analysis succeeded.
    pub constraints: Option<u64>,
    /// ACIR opcode count, when reported.
    pub acir_opcodes: Option<u64>,
    /// Gate-info collection status.
    pub gate_info_status: GateInfoStatus,
    /// Whether verification succeeded.
    pub verify_success: bool,
    /// Verification status.
    pub verify_status: VerifyStatus,
    /// Verification time in milliseconds.
    pub verify_time_ms: Option<u64>,
    /// Proof path from the last iteration.
    pub proof_path: Option<String>,
    /// Verification key path from the last iteration.
    pub vk_path: Option<String>,
}

/// Executes a full benchmark workflow: the prove loop, then the optional
/// gate-info and verify steps.
///
/// Gate-info and verify failures never abort the run: they surface as
/// status values so a caller can distinguish "unsupported" from "failed"
/// from "succeeded".  Zero measured iterations are rejected before any
/// toolchain or backend call.
pub fn full_benchmark<T: Toolchain, B: Backend>(
    toolchain: &T,
    backend: &B,
    env: &EnvironmentInfo,
    inputs: &ProveInputs,
    warmup: usize,
    iterations: usize,
) -> (r: BenchResult<FullBenchmarkResult>)
    requires
        warmup + iterations <= MAX_SAMPLES,
    ensures
        iterations == 0 ==> (r matches Err(e) && e matches BenchError::Message(m) && m@
            == "iterations must be at least 1"@),
        r matches Ok(res) ==> {
            &&& iterations >= 1
            &&& res.record.schema_version == SCHEMA_VERSION
            &&& res.record.circuit_name == inputs.circuit_name
            &&& res.record.config.warmup_iterations == warmup
            &&& res.record.config.measured_iterations == iterations
            &&& (res.record.witness_stats matches Some(s) && s.iterations == iterations)
            &&& (res.record.prove_stats matches Some(s) && s.iterations == iterations)
            &&& (res.gate_info_status matches GateInfoStatus::Collected
                ==> res.record.total_gates is Some && res.constraints is Some)
            &&& (res.gate_info_status matches GateInfoStatus::SkippedUnsupported
                ==> res.record.total_gates is None && res.constraints is None)
            &&& (res.verify_status matches VerifyStatus::Verified ==> res.verify_success
                && res.verify_time_ms is Some && res.record.verify_stats is Some)
            &&& (res.verify_status matches VerifyStatus::SkippedUnsupported
                ==> !res.verify_success && res.verify_time_ms is None)
            &&& (res.verify_status matches VerifyStatus::SkippedMissingArtifacts
                ==> !res.verify_success && res.verify_time_ms is None)
        },
{
    if iterations == 0 {
        return Err(zero_iterations_error());
    }
    let mut record = make_record(
        toolchain,
        backend,
        env,
        inputs,
        warmup as u32,
        iterations as u32,
    );
    let (witness_times, prove_times, last_output) = match run_prove_loop(
        toolchain,
        backend,
        inputs,
        warmup,
        iterations,
    ) {
        Ok(t) => t,
        Err(e) => {
            return Err(e);
        },
    };
    record.witness_stats = Some(TimingStat::from_samples(&witness_times));
    record.prove_stats = Some(TimingStat::from_samples(&prove_times));

    let capabilities = backend.capabilities();

    // Gate info: capability-gated, best-effort.
    let mut gate_info: Option<GateInfo> = None;
    let gate_info_status: GateInfoStatus = if capabilities.has_gate_count {
        match backend.gate_info(inputs.artifact_path.as_str()) {
            Ok(info) => {
                gate_info = Some(info);
                GateInfoStatus::Collected
            },
            Err(e) => {
                let msg = e.message().clone();
                GateInfoStatus::Failed(msg)
            },
        }
    } else {
        GateInfoStatus::SkippedUnsupported
    };
    let mut constraints: Option<u64> = None;
    let mut acir_opcodes: Option<u64> = None;
    match &gate_info {
        Some(gi) => {
            constraints = Some(gi.backend_gates);
            acir_opcodes = gi.acir_opcodes;
            record.total_gates = Some(gi.backend_gates);
            record.acir_opcodes = gi.acir_opcodes;
            record.subgroup_size = gi.subgroup_size;
        },
        None => {},
    }

    record.proof_size_bytes = last_output.proof_size_bytes;
    record.proving_key_size_bytes = last_output.proving_key_size_bytes;
    record.verification_key_size_bytes = last_output.verification_key_size_bytes;
    record.peak_rss_mb = peak_rss_thousandth_mb(last_output.peak_memory_bytes);
    record.artifact_size_bytes = inputs.artifact_size_bytes;
    let proof_path = last_output.proof_path;
    let vk_path = last_output.vk_path;

    // Verify: capability-gated and dependent on the last iteration's
    // artifacts; never an error.
    let mut verify_success = false;
    let mut verify_time_ms: Option<u64> = None;
    let verify_status: VerifyStatus = if !capabilities.can_verify {
        VerifyStatus::SkippedUnsupported
    } else {
        match (&proof_path, &vk_path) {
            (Some(proof), Some(vk)) => {
                match backend.verify(proof.as_str(), vk.as_str()) {
                    Ok(output) => {
                        let mut verify_samples: Vec<u64> = Vec::new();
                        verify_samples.push(clamp_sample(output.verify_time_ms));
                        record.verify_stats = Some(TimingStat::from_samples(&verify_samples));
                        verify_success = output.success;
                        verify_time_ms = Some(output.verify_time_ms);
                        if output.success {
                            VerifyStatus::Verified
                        } else {
                            VerifyStatus::Failed("verification failed".to_owned())
                        }
                    },
                    Err(e) => {
                        let msg = e.message().clone();
                        VerifyStatus::Failed(msg)
                    },
                }
            },
            _ => VerifyStatus::SkippedMissingArtifacts,
        }
    };
    Ok(
        FullBenchmarkResult {
            record,
            constraints,
            acir_opcodes,
            gate_info_status,
            verify_success,
            verify_status,
            verify_time_ms,
            proof_path,
            vk_path,
        },
    )
}

} // verus!
