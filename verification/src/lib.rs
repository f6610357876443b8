//! Benchmark execution and regression analysis engine for a proving pipeline.
//!
//! The library supervises external proving tools through pluggable
//! `Toolchain` / `Backend` adapters, aggregates repeated timing samples into
//! canonical records, and classifies per-metric deltas between two sets of
//! records against a regression threshold.
//!
//! All millisecond quantities derived from samples (means, medians, standard
//! deviations, percentage deltas) are held in thousandths (fixed-point), so
//! every statistic and every classification is exact integer arithmetic.

pub mod backend;
pub mod bench;
pub mod cmdline;
pub mod evm;
pub mod history;
pub mod mock;
pub mod provenance;
pub mod regression;
pub mod runner;
pub mod run_html;
pub mod schema;
pub mod toolchain;
pub mod workflow;
pub mod stats;
pub mod storage;
pub mod strutil;

use vstd::prelude::*;

verus! {

/// Error type for benchmark operations.
#[derive(Debug, Clone)]
pub enum BenchError {
    Message(String),
}

impl BenchError {
    /// The human-readable text of the error.
    pub fn message(&self) -> (r: &String)
        ensures
            self matches BenchError::Message(m) ==> r@ == m@,
    {
        match self {
            BenchError::Message(m) => m,
        }
    }
}

pub type BenchResult<T> = Result<T, BenchError>;

/// System information attached to standalone command reports.
#[derive(Debug, Clone)]
pub struct SystemInfo {
    pub cpu_model: Option<String>,
    pub cpu_cores_logical: Option<u64>,
    pub cpu_cores_physical: Option<u64>,
    pub total_ram_bytes: Option<u64>,
    pub os: Option<String>,
}

/// Per-iteration timing of a repeated measurement.  The raw samples are
/// whole milliseconds; the average and deviation are in thousandths.
#[derive(Debug, Clone)]
pub struct IterationStats {
    pub iterations: usize,
    pub warmup: usize,
    pub times_ms: Vec<u64>,
    pub avg_ms: Option<u64>,
    pub min_ms: Option<u64>,
    pub max_ms: Option<u64>,
    pub stddev_ms: Option<u64>,
}

/// Metadata common to every standalone command report.
#[derive(Debug, Clone)]
pub struct CommonMeta {
    pub name: String,
    pub timestamp: String,
    pub noir_version: String,
    pub artifact_path: String,
    pub cli_args: Vec<String>,
    pub artifact_sha256: Option<String>,
    pub inputs_sha256: Option<String>,
}

/// Backend identity attached to standalone command reports.
#[derive(Debug, Clone)]
pub struct BackendInfo {
    pub name: String,
    pub version: Option<String>,
}

/// One opcode's share of the total gates.
#[derive(Debug, Clone)]
pub struct GatesOpcodeBreakdown {
    pub index: usize,
    pub opcode: String,
    pub gates: u64,
}

/// Content hashes identifying a circuit and its inputs.
#[derive(Debug, Clone)]
pub struct Fingerprints {
    pub acir_hash: Option<String>,
    pub inputs_hash: Option<String>,
}

/// Reduces raw iteration timings into the per-iteration summary, keeping
/// the samples.  An empty sample list leaves every summary field absent.
pub fn compute_iteration_stats(times_ms: Vec<u64>, iterations: usize, warmup: usize) -> (r:
    IterationStats)
    requires
        crate::stats::samples_ok(times_ms@),
    ensures
        r.iterations == iterations,
        r.warmup == warmup,
        r.times_ms == times_ms,
        times_ms@.len() == 0 ==> r.avg_ms is None && r.min_ms is None && r.max_ms is None
            && r.stddev_ms is None,
        times_ms@.len() > 0 ==> {
            let st = crate::stats::stat_of(times_ms@);
            &&& r.avg_ms == Some(st.mean_ms)
            &&& r.min_ms == Some((st.min_ms / 1000) as u64)
            &&& r.max_ms == Some((st.max_ms / 1000) as u64)
            &&& r.stddev_ms == st.stddev_ms
        },
{
    if times_ms.len() == 0 {
        return IterationStats {
            iterations,
            warmup,
            times_ms,
            avg_ms: None,
            min_ms: None,
            max_ms: None,
            stddev_ms: None,
        };
    }
    let st = crate::stats::TimingStat::from_samples(&times_ms);
    IterationStats {
        iterations,
        warmup,
        times_ms,
        avg_ms: Some(st.mean_ms),
        min_ms: Some(st.min_ms / 1000),
        max_ms: Some(st.max_ms / 1000),
        stddev_ms: st.stddev_ms,
    }
}

/// The hexadecimal SHA-256 digest of a byte string; a function of the
/// bytes alone.
pub uninterp spec fn sha256_hex_of(bytes: Seq<u8>) -> Seq<char>;

/// Relies on `sha256::digest`: the SHA-256 digest of the bytes as a
/// 64-character lowercase hexadecimal string.
#[verifier::external_body]
pub fn sha256_hex(bytes: &[u8]) -> (r: String)
    ensures
        r@ == sha256_hex_of(bytes@),
        r@.len() == 64,
{
    sha256::digest(bytes)
}

} // verus!
