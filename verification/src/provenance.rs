//! Provenance: descriptive metadata about the tools and system behind a
//! benchmark run, and the comparison of two such records.
//!
//! Collection of live data (tool versions, system probes) happens outside
//! the library; here the values are carried and compared.

use vstd::prelude::*;

verus! {

use vstd::string::*;
use crate::strutil::{push_char, s_append};

/// Information about one tool binary.
#[derive(Debug, Clone)]
pub struct ToolInfo {
    /// Tool name.
    pub name: String,
    /// Version string, when detected.
    pub version: Option<String>,
    /// Source-control revision, when available.
    pub git_sha: Option<String>,
    /// Whether the working tree had local changes.
    pub git_dirty: Option<bool>,
    /// Path of the tool binary.
    pub path: Option<String>,
}

/// System and environment information.
#[derive(Debug, Clone)]
pub struct SystemInfo {
    /// Operating system name.
    pub os: String,
    /// Architecture.
    pub arch: String,
    /// CPU model string.
    pub cpu_brand: Option<String>,
    /// Number of CPU cores.
    pub cpu_cores: Option<u32>,
    /// Total RAM in bytes.
    pub ram_bytes: Option<u64>,
    /// Hostname.
    pub hostname: Option<String>,
}

impl Default for SystemInfo {
    /// A system record with nothing probed.
    fn default() -> (r: SystemInfo)
        ensures
            r.os@ == "unknown"@,
            r.arch@ == "unknown"@,
            r.cpu_brand is None,
            r.cpu_cores is None,
            r.ram_bytes is None,
            r.hostname is None,
    {
        SystemInfo {
            os: "unknown".to_owned(),
            arch: "unknown".to_owned(),
            cpu_brand: None,
            cpu_cores: None,
            ram_bytes: None,
            hostname: None,
        }
    }
}

/// Comprehensive provenance for one benchmark run.
#[derive(Debug, Clone)]
pub struct Provenance {
    /// This tool's own identity.
    pub noir_bench: ToolInfo,
    /// The compiler toolchain, when detected.
    pub nargo: Option<ToolInfo>,
    /// The proving backend, when detected.
    pub backend: Option<ToolInfo>,
    /// System information.
    pub system: SystemInfo,
    /// Command line arguments of the run.
    pub cli_args: Vec<String>,
    /// ISO 8601 timestamp of collection.
    pub collected_at: String,
}

/// A tool version mismatch between baseline and target.
#[derive(Debug, Clone)]
pub struct VersionMismatch {
    pub tool: String,
    pub baseline_version: Option<String>,
    pub target_version: Option<String>,
}

/// Collects provenance without probing anything: only this tool's own
/// name and version, a blank system record, and the collection time.
pub fn collect_minimal() -> (r: Provenance)
    ensures
        r.noir_bench.name@ == "noir-bench"@,
        r.noir_bench.version is Some,
        r.nargo is None,
        r.backend is None,
        r.cli_args@.len() == 0,
{
    Provenance {
        noir_bench: ToolInfo {
            name: "noir-bench".to_owned(),
            version: Some("0.1.0".to_owned()),
            git_sha: None,
            git_dirty: None,
            path: None,
        },
        nargo: None,
        backend: None,
        system: SystemInfo::default(),
        cli_args: Vec::new(),
        collected_at: crate::schema::now_rfc3339(),
    }
}

/// Whether two optional strings agree character for character: both
/// absent, or both present with the same characters.
pub open spec fn opt_str_eq(a: Option<String>, b: Option<String>) -> bool {
    match (a, b) {
        (Option::None, Option::None) => true,
        (Option::Some(x), Option::Some(y)) => x@ == y@,
        _ => false,
    }
}

/// Whether the two runs disagree on the toolchain version.
pub open spec fn nargo_mismatch(b: &Provenance, t: &Provenance) -> bool {
    b.nargo matches Some(bn) && t.nargo matches Some(tn) && !opt_str_eq(bn.version, tn.version)
}

/// Whether the two runs disagree on the backend version.
pub open spec fn backend_mismatch(b: &Provenance, t: &Provenance) -> bool {
    b.backend matches Some(bb) && t.backend matches Some(tb) && !opt_str_eq(bb.version, tb.version)
}

/// Whether the two runs disagree on operating system or architecture.
pub open spec fn system_mismatch(b: &Provenance, t: &Provenance) -> bool {
    b.system.os@ != t.system.os@ || b.system.arch@ != t.system.arch@
}

/// `os/arch` as one string.
pub open spec fn os_arch_view(s: &SystemInfo) -> Seq<char> {
    s.os@ + seq!['/'] + s.arch@
}

/// Builds the `os/arch` description of a system record.
fn os_arch(s: &SystemInfo) -> (r: String)
    ensures
        r@ == os_arch_view(s),
{
    let mut out = String::new();
    s_append(&mut out, s.os.as_str());
    push_char(&mut out, '/');
    s_append(&mut out, s.arch.as_str());
    out
}

/// Compares two provenance records tool by tool.
///
/// One entry per disagreement, in a fixed order: the toolchain version, the
/// backend version, then the operating system and architecture.  Matching
/// tools, and tools absent on either side, produce no entry.
pub fn check_version_mismatches(baseline: &Provenance, target: &Provenance) -> (r: Vec<
    VersionMismatch,
>)
    ensures
        r@.len() == (if nargo_mismatch(baseline, target) {
            1int
        } else {
            0
        }) + (if backend_mismatch(baseline, target) {
            1int
        } else {
            0
        }) + (if system_mismatch(baseline, target) {
            1int
        } else {
            0
        }),
        nargo_mismatch(baseline, target) ==> (r@[0].tool@ == "nargo"@ && opt_str_eq(
            r@[0].baseline_version,
            baseline.nargo->Some_0.version,
        ) && opt_str_eq(r@[0].target_version, target.nargo->Some_0.version)),
        backend_mismatch(baseline, target) ==> {
            let k = if nargo_mismatch(baseline, target) {
                1int
            } else {
                0
            };
            &&& r@[k].tool@ == "barretenberg"@
            &&& opt_str_eq(r@[k].baseline_version, baseline.backend->Some_0.version)
            &&& opt_str_eq(r@[k].target_version, target.backend->Some_0.version)
        },
        system_mismatch(baseline, target) ==> {
            let k = r@.len() - 1;
            &&& r@[k].tool@ == "system"@
            &&& (r@[k].baseline_version matches Some(v) && v@ == os_arch_view(&baseline.system))
            &&& (r@[k].target_version matches Some(v) && v@ == os_arch_view(&target.system))
        },
{
    let mut mismatches: Vec<VersionMismatch> = Vec::new();

    match (&baseline.nargo, &target.nargo) {
        (Some(b_nargo), Some(t_nargo)) => {
            if !option_string_eq(&b_nargo.version, &t_nargo.version) {
                mismatches.push(
                    VersionMismatch {
                        tool: "nargo".to_owned(),
                        baseline_version: clone_opt_string(&b_nargo.version),
                        target_version: clone_opt_string(&t_nargo.version),
                    },
                );
            }
        },
        _ => {},
    }

    match (&baseline.backend, &target.backend) {
        (Some(b_bb), Some(t_bb)) => {
            if !option_string_eq(&b_bb.version, &t_bb.version) {
                mismatches.push(
                    VersionMismatch {
                        tool: "barretenberg".to_owned(),
                        baseline_version: clone_opt_string(&b_bb.version),
                        target_version: clone_opt_string(&t_bb.version),
                    },
                );
            }
        },
        _ => {},
    }

    let os_differs = !string_eq(&baseline.system.os, &target.system.os);
    let arch_differs = !string_eq(&baseline.system.arch, &target.system.arch);
    if os_differs || arch_differs {
        mismatches.push(
            VersionMismatch {
                tool: "system".to_owned(),
                baseline_version: Some(os_arch(&baseline.system)),
                target_version: Some(os_arch(&target.system)),
            },
        );
    }

    mismatches
}

/// Whether two strings hold the same characters.
pub fn string_eq(a: &String, b: &String) -> (r: bool)
    ensures
        r == (a@ == b@),
{
    a.eq(b)
}

/// Whether two optional strings agree: both absent, or both present and
/// equal.
pub fn option_string_eq(a: &Option<String>, b: &Option<String>) -> (r: bool)
    ensures
        r == opt_str_eq(*a, *b),
{
    match (a, b) {
        (None, None) => true,
        (Some(x), Some(y)) => string_eq(x, y),
        _ => false,
    }
}

/// Clones an optional string.
fn clone_opt_string(a: &Option<String>) -> (r: Option<String>)
    ensures
        opt_str_eq(r, *a),
{
    match a {
        Some(x) => Some(x.clone()),
        None => None,
    }
}

} // verus!
