//! Canonical benchmark record: the unified output shape for all benchmarks.
//!
//! A record is created once per benchmark invocation and never mutated after
//! the orchestrator returns it.  Persistence accepts a record only when its
//! `schema_version` equals [`SCHEMA_VERSION`].

use vstd::prelude::*;

verus! {

use vstd::string::*;
use crate::stats::TimingStat;
use crate::strutil::{push_char, s_append, push_u64};

/// Schema version for forward compatibility.
pub const SCHEMA_VERSION: u32 = 1;

/// Environment information for benchmark reproducibility.  Detection runs
/// outside the library; the library only carries the values.
#[derive(Debug, Clone)]
pub struct EnvironmentInfo {
    pub cpu_model: Option<String>,
    pub cpu_cores: Option<u32>,
    pub total_ram_bytes: Option<u64>,
    pub os: String,
    pub hostname: Option<String>,
    pub git_sha: Option<String>,
    pub git_dirty: Option<bool>,
    pub nargo_version: Option<String>,
    pub bb_version: Option<String>,
}

impl EnvironmentInfo {
    /// An environment record with nothing detected.
    pub fn unknown() -> (r: EnvironmentInfo)
        ensures
            r.os@ == "unknown"@,
            r.cpu_model is None,
            r.cpu_cores is None,
            r.total_ram_bytes is None,
            r.hostname is None,
            r.git_sha is None,
            r.git_dirty is None,
            r.nargo_version is None,
            r.bb_version is None,
    {
        EnvironmentInfo {
            cpu_model: None,
            cpu_cores: None,
            total_ram_bytes: None,
            os: "unknown".to_owned(),
            hostname: None,
            git_sha: None,
            git_dirty: None,
            nargo_version: None,
            bb_version: None,
        }
    }
}

impl Default for EnvironmentInfo {
    /// The default environment record detects nothing.
    fn default() -> (r: EnvironmentInfo)
        ensures
            r.os@ == "unknown"@,
            r.cpu_model is None,
    {
        EnvironmentInfo::unknown()
    }
}

/// The backend that produced a record.
#[derive(Debug, Clone)]
pub struct BackendInfo {
    pub name: String,
    pub version: Option<String>,
    pub variant: Option<String>,
}

/// Run configuration for benchmarks.
#[derive(Debug, Clone, PartialEq, Eq, Structural)]
pub struct RunConfig {
    pub warmup_iterations: u32,
    pub measured_iterations: u32,
    pub timeout_secs: Option<u64>,
}

impl Default for RunConfig {
    /// One warmup and three measured iterations, without a timeout.
    fn default() -> (r: RunConfig)
        ensures
            r.warmup_iterations == 1,
            r.measured_iterations == 3,
            r.timeout_secs is None,
    {
        RunConfig { warmup_iterations: 1, measured_iterations: 3, timeout_secs: None }
    }
}

/// Canonical benchmark record.  Every `TimingStat` field and `peak_rss_mb`
/// are fixed-point thousandths (a mean of 110 ms is `110_000`; a peak of
/// 256.5 MB is `256_500`).
#[derive(Debug, Clone)]
pub struct BenchRecord {
    pub schema_version: u32,
    /// Unique identifier for this record.
    pub record_id: String,
    /// ISO 8601 timestamp.
    pub timestamp: String,
    pub circuit_name: String,
    pub circuit_path: Option<String>,
    pub env: EnvironmentInfo,
    pub backend: BackendInfo,
    pub config: RunConfig,
    pub compile_stats: Option<TimingStat>,
    pub witness_stats: Option<TimingStat>,
    pub prove_stats: Option<TimingStat>,
    pub verify_stats: Option<TimingStat>,
    pub proof_size_bytes: Option<u64>,
    pub proving_key_size_bytes: Option<u64>,
    pub verification_key_size_bytes: Option<u64>,
    pub artifact_size_bytes: Option<u64>,
    pub total_gates: Option<u64>,
    pub acir_opcodes: Option<u64>,
    pub subgroup_size: Option<u64>,
    /// Peak resident set size in thousandths of a megabyte.
    pub peak_rss_mb: Option<u64>,
    pub cli_args: Vec<String>,
}

/// Relies on `time::OffsetDateTime::now_utc` and `format` with the RFC 3339
/// well-known description: the current UTC time as an RFC 3339 string, or the
/// empty string if formatting fails.
#[verifier::external_body]
pub fn now_rfc3339() -> (r: String) {
    time::OffsetDateTime::now_utc().format(
        &time::format_description::well_known::Rfc3339,
    ).unwrap_or_default()
}

/// Relies on `time::OffsetDateTime::now_utc` and `unix_timestamp_nanos`:
/// nanoseconds since the Unix epoch of the current time.
#[verifier::external_body]
pub fn now_unix_nanos() -> (r: i128) {
    time::OffsetDateTime::now_utc().unix_timestamp_nanos()
}

/// Appends the lowercase hexadecimal rendering of `n` to `out`: at least
/// one digit; used only to build identifiers, so the digits themselves are
/// not pinned.
fn push_u64_hex(out: &mut String, n: u64)
    ensures
        final(out)@.len() > old(out)@.len(),
    decreases n,
{
    let d = n % 16;
    let c: char = if d == 0 {
        '0'
    } else if d == 1 {
        '1'
    } else if d == 2 {
        '2'
    } else if d == 3 {
        '3'
    } else if d == 4 {
        '4'
    } else if d == 5 {
        '5'
    } else if d == 6 {
        '6'
    } else if d == 7 {
        '7'
    } else if d == 8 {
        '8'
    } else if d == 9 {
        '9'
    } else if d == 10 {
        'a'
    } else if d == 11 {
        'b'
    } else if d == 12 {
        'c'
    } else if d == 13 {
        'd'
    } else if d == 14 {
        'e'
    } else {
        'f'
    };
    if n >= 16 {
        push_u64_hex(out, n / 16);
    }
    push_char(out, c);
}

/// Builds a record identifier from the wall clock: the nanosecond count in
/// hexadecimal, a dash, and the compacted date-time prefix of the
/// timestamp.  Never empty: it holds at least one digit and the dash.
fn make_record_id(nanos: u64, timestamp: &str) -> (r: String)
    ensures
        r@.len() >= 2,
{
    let mut id = String::new();
    push_u64_hex(&mut id, nanos);
    push_char(&mut id, '-');
    let limit: usize = if timestamp.unicode_len() < 19 {
        timestamp.unicode_len()
    } else {
        19
    };
    let ghost base = id@.len();
    let mut i: usize = 0;
    while i < limit
        invariant
            limit <= timestamp@.len(),
            id@.len() >= base,
        decreases limit - i,
    {
        let c = timestamp.get_char(i);
        if c != ':' && c != '-' && c != 'T' {
            push_char(&mut id, c);
        }
        i = i + 1;
    }
    id
}

impl BenchRecord {
    /// Creates a record for one benchmark invocation.  The identifier and
    /// timestamp come from the wall clock; every metric field starts absent.
    pub fn new(
        circuit_name: String,
        env: EnvironmentInfo,
        backend: BackendInfo,
        config: RunConfig,
    ) -> (r: BenchRecord)
        ensures
            r.schema_version == SCHEMA_VERSION,
            r.circuit_name == circuit_name,
            r.env == env,
            r.backend == backend,
            r.config == config,
            r.circuit_path is None,
            r.compile_stats is None,
            r.witness_stats is None,
            r.prove_stats is None,
            r.verify_stats is None,
            r.proof_size_bytes is None,
            r.proving_key_size_bytes is None,
            r.verification_key_size_bytes is None,
            r.artifact_size_bytes is None,
            r.total_gates is None,
            r.acir_opcodes is None,
            r.subgroup_size is None,
            r.peak_rss_mb is None,
            r.cli_args@.len() == 0,
            r.record_id@.len() >= 2,
    {
        let timestamp = now_rfc3339();
        let nanos_wide = now_unix_nanos();
        let nanos: u64 = if nanos_wide >= 0 {
            (nanos_wide as u128 % 0x10000000000000000) as u64
        } else {
            0
        };
        let record_id = make_record_id(nanos, timestamp.as_str());
        BenchRecord {
            schema_version: SCHEMA_VERSION,
            record_id,
            timestamp,
            circuit_name,
            circuit_path: None,
            env,
            backend,
            config,
            compile_stats: None,
            witness_stats: None,
            prove_stats: None,
            verify_stats: None,
            proof_size_bytes: None,
            proving_key_size_bytes: None,
            verification_key_size_bytes: None,
            artifact_size_bytes: None,
            total_gates: None,
            acir_opcodes: None,
            subgroup_size: None,
            peak_rss_mb: None,
            cli_args: Vec::new(),
        }
    }

    /// Whether persistence may accept this record: its schema version must
    /// equal the engine's compile-time constant.
    pub fn validate_schema_version(&self) -> (r: Result<(), crate::BenchError>)
        ensures
            r is Ok <==> self.schema_version == SCHEMA_VERSION,
    {
        if self.schema_version != SCHEMA_VERSION {
            let mut msg = String::new();
            s_append(&mut msg, "schema version mismatch: record has v");
            push_u64(&mut msg, self.schema_version as u64);
            s_append(&mut msg, ", expected v");
            push_u64(&mut msg, SCHEMA_VERSION as u64);
            Err(crate::BenchError::Message(msg))
        } else {
            Ok(())
        }
    }
}

} // verus!
