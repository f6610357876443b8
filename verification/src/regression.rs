//! Regression analysis: aligns a baseline and a target set of benchmark
//! records by circuit name, classifies per-metric deltas against a
//! threshold, and accumulates a report with a CI exit code.
//!
//! Percentages are held in thousandths of a percent (a threshold of 10% is
//! `10_000`), and every classification is decided by the exact rational
//! comparison `delta · 100000 > threshold · baseline` — never by a rounded
//! intermediate value.

use vstd::prelude::*;

verus! {

use vstd::string::*;
use crate::provenance::{Provenance, VersionMismatch, check_version_mismatches, nargo_mismatch,
    backend_mismatch, system_mismatch};
use crate::schema::BenchRecord;
use crate::strutil::str_eq;

/// Schema version of the regression report.
pub const REGRESSION_REPORT_VERSION: u32 = 1;

/// Status of a regression check.
#[derive(Debug, Clone, Copy, PartialEq, Eq, Structural)]
pub enum RegressionStatus {
    /// Value increased beyond the threshold: a regression.
    ExceededThreshold,
    /// Value decreased beyond the threshold: an improvement.
    Improved,
    /// Value within the threshold.
    WithinThreshold,
    /// Baseline data missing for comparison.
    MissingBaseline,
    /// Error during comparison.
    Error,
    /// Metric was skipped.
    Skipped,
}

impl RegressionStatus {
    /// The emoji used in rendered reports.
    pub fn emoji(&self) -> (r: &'static str)
        ensures
            *self is ExceededThreshold ==> r@ == "🔴"@,
            *self is Improved ==> r@ == "🟢"@,
            *self is WithinThreshold ==> r@ == "⚪"@,
            *self is MissingBaseline ==> r@ == "⚠️"@,
            *self is Error ==> r@ == "❌"@,
            *self is Skipped ==> r@ == "⏭️"@,
    {
        match self {
            RegressionStatus::ExceededThreshold => "🔴",
            RegressionStatus::Improved => "🟢",
            RegressionStatus::WithinThreshold => "⚪",
            RegressionStatus::MissingBaseline => "⚠️",
            RegressionStatus::Error => "❌",
            RegressionStatus::Skipped => "⏭️",
        }
    }

    /// The short text label.
    pub fn label(&self) -> (r: &'static str)
        ensures
            *self is ExceededThreshold ==> r@ == "REGRESS"@,
            *self is Improved ==> r@ == "IMPROVED"@,
            *self is WithinThreshold ==> r@ == "OK"@,
            *self is MissingBaseline ==> r@ == "NO_BASE"@,
            *self is Error ==> r@ == "ERROR"@,
            *self is Skipped ==> r@ == "SKIP"@,
    {
        match self {
            RegressionStatus::ExceededThreshold => "REGRESS",
            RegressionStatus::Improved => "IMPROVED",
            RegressionStatus::WithinThreshold => "OK",
            RegressionStatus::MissingBaseline => "NO_BASE",
            RegressionStatus::Error => "ERROR",
            RegressionStatus::Skipped => "SKIP",
        }
    }

    /// Whether this status fails CI: only a threshold excess or an error.
    pub fn is_failure(&self) -> (r: bool)
        ensures
            r == (*self is ExceededThreshold || *self is Error),
    {
        match self {
            RegressionStatus::ExceededThreshold => true,
            RegressionStatus::Error => true,
            _ => false,
        }
    }
}

/// The status that `compute_delta_status` assigns.
///
/// For a metric where higher is worse and the baseline is nonzero, the
/// percentage delta is compared exactly against the threshold; a zero
/// baseline never registers a change, and a metric where higher is not
/// worse is informational only.
pub open spec fn classify(
    baseline: int,
    target: int,
    threshold_milli_pct: int,
    higher_is_worse: bool,
) -> RegressionStatus {
    if !higher_is_worse {
        RegressionStatus::WithinThreshold
    } else if baseline == 0 {
        RegressionStatus::WithinThreshold
    } else if (target - baseline) * 100000 > threshold_milli_pct * baseline {
        RegressionStatus::ExceededThreshold
    } else if (baseline - target) * 100000 > threshold_milli_pct * baseline {
        RegressionStatus::Improved
    } else {
        RegressionStatus::WithinThreshold
    }
}

/// The truncated percentage delta in thousandths of a percent:
/// `(target − baseline) · 100000 / baseline` rounded toward zero, and zero
/// for a zero baseline.
pub open spec fn delta_milli_pct_of(baseline: int, target: int) -> int {
    if baseline == 0 {
        0
    } else if target >= baseline {
        ((target - baseline) * 100000) / baseline
    } else {
        -(((baseline - target) * 100000) / baseline)
    }
}

/// Computes the absolute delta, the percentage delta in thousandths, and
/// the classification of one metric.
pub fn compute_delta_status(
    baseline: u64,
    target: u64,
    threshold_milli_pct: u64,
    higher_is_worse: bool,
) -> (r: (i128, i128, RegressionStatus))
    requires
        threshold_milli_pct <= 100000000,
    ensures
        r.0 == target - baseline,
        r.1 == delta_milli_pct_of(baseline as int, target as int),
        r.2 == classify(baseline as int, target as int, threshold_milli_pct as int,
        higher_is_worse),
{
    let delta_abs: i128 = (target as i128) - (baseline as i128);
    let (mag, rose): (u64, bool) = if target >= baseline {
        (target - baseline, true)
    } else {
        (baseline - target, false)
    };
    let scaled: u128 = (mag as u128) * 100000;
    let pct_mag: u128 = if baseline == 0 {
        0
    } else {
        scaled / (baseline as u128)
    };
    proof {
        assert((mag as int) * 100000 <= 0xffffffffffffffff * 100000) by (nonlinear_arith)
            requires
                0 <= mag <= 0xffffffffffffffff,
        ;
        if baseline > 0 {
            assert(pct_mag as int <= scaled as int) by (nonlinear_arith)
                requires
                    baseline >= 1,
                    scaled >= 0,
                    pct_mag == (scaled as int) / (baseline as int),
            ;
        }
    }
    let delta_milli_pct: i128 = if baseline == 0 {
        0
    } else if rose {
        pct_mag as i128
    } else {
        -(pct_mag as i128)
    };
    proof {
        assert((threshold_milli_pct as int) * (baseline as int) <= 100000000 * (
        0xffffffffffffffff as int)) by (nonlinear_arith)
            requires
                0 <= threshold_milli_pct <= 100000000,
                0 <= baseline <= 0xffffffffffffffff,
        ;
    }
    let threshold_scaled: u128 = (threshold_milli_pct as u128) * (baseline as u128);
    let status: RegressionStatus = if !higher_is_worse {
        RegressionStatus::WithinThreshold
    } else if baseline == 0 {
        RegressionStatus::WithinThreshold
    } else if rose && scaled > threshold_scaled {
        RegressionStatus::ExceededThreshold
    } else if !rose && scaled > threshold_scaled {
        RegressionStatus::Improved
    } else {
        RegressionStatus::WithinThreshold
    };
    (delta_abs, delta_milli_pct, status)
}

/// The zero-baseline policy: a metric whose baseline value is exactly zero
/// never registers a percentage regression, however large the target, and
/// its reported delta percentage is zero.  This mirrors the comparator's
/// documented edge case rather than a derived property.
pub proof fn lemma_zero_baseline_never_regresses(
    target: int,
    threshold_milli_pct: int,
    higher_is_worse: bool,
)
    ensures
        classify(0, target, threshold_milli_pct, higher_is_worse)
            != RegressionStatus::ExceededThreshold,
        delta_milli_pct_of(0, target) == 0,
{
}

/// Delta analysis for a single metric.
#[derive(Debug, Clone)]
pub struct MetricDelta {
    /// Canonical metric name.
    pub metric: String,
    /// Baseline value, in the metric's native fixed-point unit.
    pub baseline: u64,
    /// Target value.
    pub target: u64,
    /// Absolute delta: target minus baseline.
    pub delta_abs: i128,
    /// Percentage change in thousandths of a percent, rounded toward zero.
    pub delta_milli_pct: i128,
    /// The threshold applied, in thousandths of a percent.
    pub threshold_milli_pct: u64,
    /// Classification of this metric.
    pub status: RegressionStatus,
}

/// Regression analysis for a single circuit.
#[derive(Debug, Clone)]
pub struct CircuitRegression {
    /// Circuit name.
    pub circuit_name: String,
    /// Optional circuit parameter.
    pub params: Option<u64>,
    /// Per-metric deltas.
    pub metrics: Vec<MetricDelta>,
    /// Overall status for this circuit.
    pub status: RegressionStatus,
}

/// How many metrics in `ms` carry status `s`.
pub open spec fn count_matching(ms: Seq<MetricDelta>, s: RegressionStatus) -> int
    decreases ms.len(),
{
    if ms.len() == 0 {
        0
    } else {
        count_matching(ms.drop_last(), s) + if ms.last().status == s {
            1int
        } else {
            0
        }
    }
}

/// The overall status of a circuit: a regression if any metric regressed,
/// else an improvement if any improved, else unchanged.
pub open spec fn circuit_status_of(ms: Seq<MetricDelta>) -> RegressionStatus {
    if exists|i: int|
        0 <= i < ms.len() && ms[i].status == RegressionStatus::ExceededThreshold {
        RegressionStatus::ExceededThreshold
    } else if exists|i: int| 0 <= i < ms.len() && ms[i].status == RegressionStatus::Improved {
        RegressionStatus::Improved
    } else {
        RegressionStatus::WithinThreshold
    }
}

/// Derives the overall circuit status from its metric statuses.
pub fn aggregate_circuit_status(metrics: &Vec<MetricDelta>) -> (r: RegressionStatus)
    ensures
        r == circuit_status_of(metrics@),
{
    let mut has_regression = false;
    let mut has_improvement = false;
    let mut i: usize = 0;
    while i < metrics.len()
        invariant
            i <= metrics@.len(),
            has_regression == exists|k: int|
                0 <= k < i && metrics@[k].status == RegressionStatus::ExceededThreshold,
            has_improvement == exists|k: int|
                0 <= k < i && metrics@[k].status == RegressionStatus::Improved,
        decreases metrics@.len() - i,
    {
        match metrics[i].status {
            RegressionStatus::ExceededThreshold => {
                has_regression = true;
            },
            RegressionStatus::Improved => {
                has_improvement = true;
            },
            _ => {},
        }
        i = i + 1;
    }
    if has_regression {
        RegressionStatus::ExceededThreshold
    } else if has_improvement {
        RegressionStatus::Improved
    } else {
        RegressionStatus::WithinThreshold
    }
}

/// A record flattened to its comparable metrics: the circuit name and
/// `(source path, value)` pairs.  Values are in each metric's fixed-point
/// unit (thousandths of a millisecond for timings, bytes for sizes, counts
/// for gates).  Legacy record shapes flatten to the same path space, which
/// is what the alias table below resolves.
#[derive(Debug, Clone)]
pub struct FlatRecord {
    /// Circuit name used for alignment.
    pub circuit_name: String,
    /// Flattened metric paths and values.
    pub metrics: Vec<(String, u64)>,
}

/// Whether `ms` holds an entry for `path` with value `v`.
pub open spec fn contains_metric(ms: Seq<(String, u64)>, path: Seq<char>, v: u64) -> bool {
    exists|i: int| 0 <= i < ms.len() && ms[i].0@ == path && ms[i].1 == v
}

/// Whether `ms` holds any entry for `path`.
pub open spec fn has_metric(ms: Seq<(String, u64)>, path: Seq<char>) -> bool {
    exists|i: int| 0 <= i < ms.len() && ms[i].0@ == path
}

/// Each path appears at most once.
pub open spec fn unique_paths(ms: Seq<(String, u64)>) -> bool {
    forall|i: int, j: int| 0 <= i < j < ms.len() ==> ms[i].0@ != ms[j].0@
}

/// Looks a metric path up; with unique paths the value is determined.
pub fn lookup_metric(ms: &Vec<(String, u64)>, path: &str) -> (r: Option<u64>)
    ensures
        r is Some <==> has_metric(ms@, path@),
        r matches Some(v) ==> contains_metric(ms@, path@, v),
{
    let mut i: usize = 0;
    while i < ms.len()
        invariant
            i <= ms@.len(),
            forall|k: int| 0 <= k < i ==> ms@[k].0@ != path@,
        decreases ms@.len() - i,
    {
        if str_eq(ms[i].0.as_str(), path) {
            return Some(ms[i].1);
        }
        i = i + 1;
    }
    None
}

/// Metrics where a higher value is worse gate CI; the key sizes are
/// informational only.
pub open spec fn higher_is_worse_of(canonical: Seq<char>) -> bool {
    !(canonical == "pk_size"@ || canonical == "vk_size"@)
}

/// What every emitted metric delta satisfies: the threshold is recorded,
/// the deltas are the exact differences, and the status is the exact
/// classification under the metric's polarity.
pub open spec fn metric_delta_ok(m: MetricDelta, threshold_milli_pct: u64) -> bool {
    &&& m.threshold_milli_pct == threshold_milli_pct
    &&& m.delta_abs == m.target - m.baseline
    &&& m.delta_milli_pct == delta_milli_pct_of(m.baseline as int, m.target as int)
    &&& m.status == classify(m.baseline as int, m.target as int, threshold_milli_pct as int,
    higher_is_worse_of(m.metric@))
}

/// Whether both records carry the source path.
pub open spec fn both_have(b: Seq<(String, u64)>, t: Seq<(String, u64)>, path: Seq<char>) -> bool {
    has_metric(b, path) && has_metric(t, path)
}

/// Whether a metric row carries exactly the values the two records hold
/// under the source path.
pub open spec fn row_from_path(
    b: Seq<(String, u64)>,
    t: Seq<(String, u64)>,
    path: Seq<char>,
    m: MetricDelta,
) -> bool {
    contains_metric(b, path, m.baseline) && contains_metric(t, path, m.target)
}

/// The source of the prove row: the nested timing path when both records
/// carry it, else the legacy flat path.
pub open spec fn prove_row_from(b: Seq<(String, u64)>, t: Seq<(String, u64)>, m: MetricDelta) -> bool {
    if both_have(b, t, "prove_stats.mean_ms"@) {
        row_from_path(b, t, "prove_stats.mean_ms"@, m)
    } else {
        row_from_path(b, t, "prove_time_ms"@, m)
    }
}

/// Which source path feeds each canonical row: every row's values are the
/// two records' values under that row's source path.
pub open spec fn row_sources_ok(b: Seq<(String, u64)>, t: Seq<(String, u64)>, m: MetricDelta) -> bool {
    &&& (m.metric@ == "prove_ms"@ ==> prove_row_from(b, t, m))
    &&& (m.metric@ == "witness_ms"@ ==> row_from_path(b, t, "witness_stats.mean_ms"@, m))
    &&& (m.metric@ == "verify_ms"@ ==> row_from_path(b, t, "verify_stats.mean_ms"@, m))
    &&& (m.metric@ == "gates"@ ==> row_from_path(b, t, "total_gates"@, m))
    &&& (m.metric@ == "acir_opcodes"@ ==> row_from_path(b, t, "acir_opcodes"@, m))
    &&& (m.metric@ == "proof_size"@ ==> row_from_path(b, t, "proof_size_bytes"@, m))
    &&& (m.metric@ == "pk_size"@ ==> row_from_path(b, t, "proving_key_size_bytes"@, m))
    &&& (m.metric@ == "vk_size"@ ==> row_from_path(b, t, "verification_key_size_bytes"@, m))
    &&& (m.metric@ == "peak_rss_mb"@ ==> row_from_path(b, t, "peak_rss_mb"@, m))
}

/// The canonical metric names of the table.
pub open spec fn is_canonical_name(c: Seq<char>) -> bool {
    ||| c == "prove_ms"@
    ||| c == "witness_ms"@
    ||| c == "verify_ms"@
    ||| c == "gates"@
    ||| c == "acir_opcodes"@
    ||| c == "proof_size"@
    ||| c == "pk_size"@
    ||| c == "vk_size"@
    ||| c == "peak_rss_mb"@
}

/// What one emitted comparison row satisfies against its two source
/// records.
pub open spec fn comparison_row_ok(
    b: Seq<(String, u64)>,
    t: Seq<(String, u64)>,
    threshold_milli_pct: u64,
    m: MetricDelta,
) -> bool {
    &&& is_canonical_name(m.metric@)
    &&& metric_delta_ok(m, threshold_milli_pct)
    &&& row_sources_ok(b, t, m)
}

/// Every row of the sequence satisfies `comparison_row_ok`.
pub open spec fn rows_ok_seq(
    b: Seq<(String, u64)>,
    t: Seq<(String, u64)>,
    threshold_milli_pct: u64,
    ms: Seq<MetricDelta>,
) -> bool {
    forall|i: int| 0 <= i < ms.len() ==> comparison_row_ok(b, t, threshold_milli_pct, #[trigger] ms[i])
}

/// Whether the comparison holds a row with this canonical name.
pub open spec fn row_present(ms: Seq<MetricDelta>, canonical: Seq<char>) -> bool {
    exists|i: int| 0 <= i < ms.len() && (#[trigger] ms[i]).metric@ == canonical
}

/// The pairs (source path, canonical name) of the metric table; the legacy
/// prove alias applies only when the nested path is not present on both
/// sides, which is what makes the first matching alias win.
pub open spec fn row_rule_ok(
    b: Seq<(String, u64)>,
    t: Seq<(String, u64)>,
    path: Seq<char>,
    canonical: Seq<char>,
) -> bool {
    ||| (canonical == "prove_ms"@ && path == "prove_stats.mean_ms"@)
    ||| (canonical == "prove_ms"@ && path == "prove_time_ms"@ && !both_have(
        b,
        t,
        "prove_stats.mean_ms"@,
    ))
    ||| (canonical == "witness_ms"@ && path == "witness_stats.mean_ms"@)
    ||| (canonical == "verify_ms"@ && path == "verify_stats.mean_ms"@)
    ||| (canonical == "gates"@ && path == "total_gates"@)
    ||| (canonical == "acir_opcodes"@ && path == "acir_opcodes"@)
    ||| (canonical == "proof_size"@ && path == "proof_size_bytes"@)
    ||| (canonical == "pk_size"@ && path == "proving_key_size_bytes"@)
    ||| (canonical == "vk_size"@ && path == "verification_key_size_bytes"@)
    ||| (canonical == "peak_rss_mb"@ && path == "peak_rss_mb"@)
}

/// Everything one compared circuit promises about its two source records:
/// each row is canonically named, exactly classified, and carries the
/// values looked up under its source path; a canonical row is present
/// exactly when both records carry its source path (the prove row prefers
/// the nested path over the legacy flat one); and the circuit status
/// aggregates the rows.
pub open spec fn comparison_ok(
    b: FlatRecord,
    t: FlatRecord,
    threshold_milli_pct: u64,
    c: CircuitRegression,
) -> bool {
    let bm = b.metrics@;
    let tm = t.metrics@;
    &&& c.circuit_name@ == t.circuit_name@
    &&& c.status == circuit_status_of(c.metrics@)
    &&& c.metrics@.len() <= 10
    &&& rows_ok_seq(bm, tm, threshold_milli_pct, c.metrics@)
    &&& (row_present(c.metrics@, "prove_ms"@) <==> (both_have(bm, tm, "prove_stats.mean_ms"@)
        || both_have(bm, tm, "prove_time_ms"@)))
    &&& (row_present(c.metrics@, "witness_ms"@) <==> both_have(bm, tm, "witness_stats.mean_ms"@))
    &&& (row_present(c.metrics@, "verify_ms"@) <==> both_have(bm, tm, "verify_stats.mean_ms"@))
    &&& (row_present(c.metrics@, "gates"@) <==> both_have(bm, tm, "total_gates"@))
    &&& (row_present(c.metrics@, "acir_opcodes"@) <==> both_have(bm, tm, "acir_opcodes"@))
    &&& (row_present(c.metrics@, "proof_size"@) <==> both_have(bm, tm, "proof_size_bytes"@))
    &&& (row_present(c.metrics@, "pk_size"@) <==> both_have(bm, tm, "proving_key_size_bytes"@))
    &&& (row_present(c.metrics@, "vk_size"@) <==> both_have(
        bm,
        tm,
        "verification_key_size_bytes"@,
    ))
    &&& (row_present(c.metrics@, "peak_rss_mb"@) <==> both_have(bm, tm, "peak_rss_mb"@))
}

/// Emits one metric delta when both records carry the source path.
/// Returns whether the rule matched.
fn push_rule(
    metrics: &mut Vec<MetricDelta>,
    baseline: &FlatRecord,
    target: &FlatRecord,
    path: &str,
    canonical: &str,
    higher_is_worse: bool,
    threshold_milli_pct: u64,
) -> (emitted: bool)
    requires
        threshold_milli_pct <= 100000000,
        higher_is_worse == higher_is_worse_of(canonical@),
    ensures
        emitted == (has_metric(baseline.metrics@, path@) && has_metric(target.metrics@, path@)),
        emitted ==> final(metrics)@.len() == old(metrics)@.len() + 1
            && final(metrics)@.last().metric@ == canonical@ && metric_delta_ok(
            final(metrics)@.last(),
            threshold_milli_pct,
        ) && row_from_path(baseline.metrics@, target.metrics@, path@, final(metrics)@.last()),
        !emitted ==> final(metrics)@ == old(metrics)@,
        forall|k: int| 0 <= k < old(metrics)@.len() ==> final(metrics)@[k] == old(metrics)@[k],
{
    let b = lookup_metric(&baseline.metrics, path);
    let t = lookup_metric(&target.metrics, path);
    match (b, t) {
        (Some(bv), Some(tv)) => {
            let (delta_abs, delta_milli_pct, status) = compute_delta_status(
                bv,
                tv,
                threshold_milli_pct,
                higher_is_worse,
            );
            metrics.push(
                MetricDelta {
                    metric: canonical.to_owned(),
                    baseline: bv,
                    target: tv,
                    delta_abs,
                    delta_milli_pct,
                    threshold_milli_pct,
                    status,
                },
            );
            true
        },
        _ => false,
    }
}

/// Shows that every canonical metric name carries the polarity its rule
/// declares, and enough of each name's shape (lengths, and a first
/// character where lengths collide) that the nine names are pairwise
/// distinct.
proof fn lemma_canonical_names()
    ensures
        higher_is_worse_of("prove_ms"@),
        higher_is_worse_of("witness_ms"@),
        higher_is_worse_of("verify_ms"@),
        higher_is_worse_of("gates"@),
        higher_is_worse_of("acir_opcodes"@),
        higher_is_worse_of("proof_size"@),
        higher_is_worse_of("peak_rss_mb"@),
        !higher_is_worse_of("pk_size"@),
        !higher_is_worse_of("vk_size"@),
        "prove_ms"@.len() == 8,
        "witness_ms"@.len() == 10,
        "verify_ms"@.len() == 9,
        "gates"@.len() == 5,
        "acir_opcodes"@.len() == 12,
        "proof_size"@.len() == 10,
        "pk_size"@.len() == 7,
        "vk_size"@.len() == 7,
        "peak_rss_mb"@.len() == 11,
        "witness_ms"@[0] == 'w',
        "proof_size"@[0] == 'p',
        "pk_size"@[0] == 'p',
        "vk_size"@[0] == 'v',
{
    reveal_strlit("prove_ms");
    reveal_strlit("witness_ms");
    reveal_strlit("verify_ms");
    reveal_strlit("gates");
    reveal_strlit("acir_opcodes");
    reveal_strlit("proof_size");
    reveal_strlit("peak_rss_mb");
    reveal_strlit("pk_size");
    reveal_strlit("vk_size");
    assert("prove_ms"@.len() == 8);
    assert("witness_ms"@.len() == 10);
    assert("verify_ms"@.len() == 9);
    assert("gates"@.len() == 5);
    assert("acir_opcodes"@.len() == 12);
    assert("proof_size"@.len() == 10);
    assert("pk_size"@.len() == 7);
    assert("vk_size"@.len() == 7);
    assert("peak_rss_mb"@.len() == 11);
    assert("witness_ms"@[0] == 'w');
    assert("proof_size"@[0] == 'p');
    assert("pk_size"@[0] == 'p');
    assert("vk_size"@[0] == 'v');
}

/// Appending one well-formed row keeps the whole sequence well-formed.
proof fn lemma_rows_after_push(
    b: Seq<(String, u64)>,
    t: Seq<(String, u64)>,
    threshold_milli_pct: u64,
    pre: Seq<MetricDelta>,
    post: Seq<MetricDelta>,
)
    requires
        rows_ok_seq(b, t, threshold_milli_pct, pre),
        pre.len() <= post.len() <= pre.len() + 1,
        forall|k: int| 0 <= k < pre.len() ==> post[k] == pre[k],
        post.len() == pre.len() + 1 ==> comparison_row_ok(b, t, threshold_milli_pct, post.last()),
    ensures
        rows_ok_seq(b, t, threshold_milli_pct, post),
{
    assert forall|i: int|
        0 <= i < post.len() implies comparison_row_ok(b, t, threshold_milli_pct, #[trigger] post[i]) by {
        if i < pre.len() {
            assert(comparison_row_ok(b, t, threshold_milli_pct, pre[i]));
        }
    }
}

/// Appending a row with one canonical name changes no other name's
/// presence, and settles that name's.
proof fn lemma_presence_after_push(pre: Seq<MetricDelta>, post: Seq<MetricDelta>, name: Seq<char>)
    requires
        pre.len() <= post.len() <= pre.len() + 1,
        forall|k: int| 0 <= k < pre.len() ==> post[k] == pre[k],
        post.len() == pre.len() + 1 ==> post.last().metric@ == name,
    ensures
        forall|c: Seq<char>| c != name ==> #[trigger] row_present(post, c) == row_present(pre, c),
        post.len() == pre.len() + 1 ==> row_present(post, name),
        post.len() == pre.len() ==> row_present(post, name) == row_present(pre, name),
{
    assert forall|c: Seq<char>| c != name implies #[trigger] row_present(post, c) == row_present(
        pre,
        c,
    ) by {
        if row_present(pre, c) {
            let i = choose|i: int| 0 <= i < pre.len() && pre[i].metric@ == c;
            assert(post[i].metric@ == c);
        }
        if row_present(post, c) {
            let i = choose|i: int| 0 <= i < post.len() && post[i].metric@ == c;
            assert(i < pre.len());
            assert(pre[i].metric@ == c);
        }
    }
    if post.len() == pre.len() {
        if row_present(pre, name) {
            let i = choose|i: int| 0 <= i < pre.len() && pre[i].metric@ == name;
            assert(post[i].metric@ == name);
        }
        if row_present(post, name) {
            let i = choose|i: int| 0 <= i < post.len() && post[i].metric@ == name;
            assert(pre[i].metric@ == name);
        }
    }
}

/// Applies one rule of the table, maintaining the row and presence
/// relations of the comparison built so far.
fn apply_rule(
    metrics: &mut Vec<MetricDelta>,
    baseline: &FlatRecord,
    target: &FlatRecord,
    path: &str,
    canonical: &str,
    higher_is_worse: bool,
    threshold_milli_pct: u64,
) -> (emitted: bool)
    requires
        threshold_milli_pct <= 100000000,
        higher_is_worse == higher_is_worse_of(canonical@),
        row_rule_ok(baseline.metrics@, target.metrics@, path@, canonical@),
        rows_ok_seq(baseline.metrics@, target.metrics@, threshold_milli_pct, old(metrics)@),
    ensures
        rows_ok_seq(baseline.metrics@, target.metrics@, threshold_milli_pct, final(metrics)@),
        emitted == both_have(baseline.metrics@, target.metrics@, path@),
        final(metrics)@.len() == old(metrics)@.len() + (if emitted {
            1int
        } else {
            0
        }),
        row_present(final(metrics)@, canonical@) == (row_present(old(metrics)@, canonical@)
            || emitted),
        forall|c: Seq<char>|
            c != canonical@ ==> #[trigger] row_present(final(metrics)@, c) == row_present(
                old(metrics)@,
                c,
            ),
{
    proof {
        lemma_canonical_names();
    }
    let ghost pre = metrics@;
    let emitted = push_rule(
        metrics,
        baseline,
        target,
        path,
        canonical,
        higher_is_worse,
        threshold_milli_pct,
    );
    proof {
        let b = baseline.metrics@;
        let t = target.metrics@;
        if emitted {
            let m = metrics@.last();
            assert(comparison_row_ok(b, t, threshold_milli_pct, m));
        }
        lemma_rows_after_push(b, t, threshold_milli_pct, pre, metrics@);
        lemma_presence_after_push(pre, metrics@, canonical@);
    }
    emitted
}

/// Compares one aligned pair of records over the canonical metric table.
///
/// The table is evaluated in a fixed order and the first source path that
/// matches a canonical name wins: a record with the current nested prove
/// timing never double-counts with the legacy flat `prove_time_ms` path.
/// The whole relation between the result and the two records — which rows
/// exist, where their values come from, and how each is classified — is
/// `comparison_ok`.
pub fn compare_flat(baseline: &FlatRecord, target: &FlatRecord, threshold_milli_pct: u64) -> (r:
    CircuitRegression)
    requires
        threshold_milli_pct <= 100000000,
    ensures
        comparison_ok(*baseline, *target, threshold_milli_pct, r),
        r.params is None,
{
    proof {
        lemma_canonical_names();
    }
    let mut metrics: Vec<MetricDelta> = Vec::new();
    let got_nested = apply_rule(
        &mut metrics,
        baseline,
        target,
        "prove_stats.mean_ms",
        "prove_ms",
        true,
        threshold_milli_pct,
    );
    if !got_nested {
        apply_rule(
            &mut metrics,
            baseline,
            target,
            "prove_time_ms",
            "prove_ms",
            true,
            threshold_milli_pct,
        );
    }
    apply_rule(
        &mut metrics,
        baseline,
        target,
        "witness_stats.mean_ms",
        "witness_ms",
        true,
        threshold_milli_pct,
    );
    apply_rule(
        &mut metrics,
        baseline,
        target,
        "verify_stats.mean_ms",
        "verify_ms",
        true,
        threshold_milli_pct,
    );
    apply_rule(&mut metrics, baseline, target, "total_gates", "gates", true, threshold_milli_pct);
    apply_rule(
        &mut metrics,
        baseline,
        target,
        "acir_opcodes",
        "acir_opcodes",
        true,
        threshold_milli_pct,
    );
    apply_rule(
        &mut metrics,
        baseline,
        target,
        "proof_size_bytes",
        "proof_size",
        true,
        threshold_milli_pct,
    );
    apply_rule(
        &mut metrics,
        baseline,
        target,
        "proving_key_size_bytes",
        "pk_size",
        false,
        threshold_milli_pct,
    );
    apply_rule(
        &mut metrics,
        baseline,
        target,
        "verification_key_size_bytes",
        "vk_size",
        false,
        threshold_milli_pct,
    );
    apply_rule(
        &mut metrics,
        baseline,
        target,
        "peak_rss_mb",
        "peak_rss_mb",
        true,
        threshold_milli_pct,
    );
    let status = aggregate_circuit_status(&metrics);
    CircuitRegression {
        circuit_name: target.circuit_name.clone(),
        params: None,
        metrics,
        status,
    }
}

/// Appends `(path, value)` when the value is present.
fn push_metric(v: &mut Vec<(String, u64)>, path: &str, value: Option<u64>)
    ensures
        value is None ==> final(v)@ == old(v)@,
        value matches Some(x) ==> final(v)@.len() == old(v)@.len() + 1 && final(v)@.last().0@
            == path@ && final(v)@.last().1 == x,
        forall|k: int| 0 <= k < old(v)@.len() ==> final(v)@[k] == old(v)@[k],
{
    match value {
        Some(x) => {
            v.push((path.to_owned(), x));
        },
        None => {},
    }
}

/// The flattened source paths are pairwise distinct.
proof fn lemma_flat_paths_distinct()
    ensures
        "prove_stats.mean_ms"@.len() == 19,
        "witness_stats.mean_ms"@.len() == 21,
        "verify_stats.mean_ms"@.len() == 20,
        "total_gates"@.len() == 11,
        "acir_opcodes"@.len() == 12,
        "proof_size_bytes"@.len() == 16,
        "proving_key_size_bytes"@.len() == 22,
        "verification_key_size_bytes"@.len() == 27,
        "peak_rss_mb"@.len() == 11,
        "total_gates"@ != "peak_rss_mb"@,
{
    reveal_strlit("prove_stats.mean_ms");
    reveal_strlit("witness_stats.mean_ms");
    reveal_strlit("verify_stats.mean_ms");
    reveal_strlit("total_gates");
    reveal_strlit("acir_opcodes");
    reveal_strlit("proof_size_bytes");
    reveal_strlit("proving_key_size_bytes");
    reveal_strlit("verification_key_size_bytes");
    reveal_strlit("peak_rss_mb");
    assert("total_gates"@[0] == 't');
    assert("peak_rss_mb"@[0] == 'p');
}

/// Flattens a canonical record to its comparable metric paths.
///
/// One entry per present metric: the mean of each timing phase, gate
/// and opcode counts, the three artifact sizes and the peak memory, each
/// under the source path the alias table resolves.
#[verifier::rlimit(60)]
pub fn flatten_record(rec: &BenchRecord) -> (r: FlatRecord)
    ensures
        r.circuit_name@ == rec.circuit_name@,
        has_metric(r.metrics@, "prove_stats.mean_ms"@) <==> rec.prove_stats is Some,
        has_metric(r.metrics@, "witness_stats.mean_ms"@) <==> rec.witness_stats is Some,
        has_metric(r.metrics@, "verify_stats.mean_ms"@) <==> rec.verify_stats is Some,
        has_metric(r.metrics@, "total_gates"@) <==> rec.total_gates is Some,
        has_metric(r.metrics@, "acir_opcodes"@) <==> rec.acir_opcodes is Some,
        has_metric(r.metrics@, "proof_size_bytes"@) <==> rec.proof_size_bytes is Some,
        has_metric(r.metrics@, "proving_key_size_bytes"@) <==> rec.proving_key_size_bytes is Some,
        has_metric(r.metrics@, "verification_key_size_bytes"@)
            <==> rec.verification_key_size_bytes is Some,
        has_metric(r.metrics@, "peak_rss_mb"@) <==> rec.peak_rss_mb is Some,
        rec.prove_stats matches Some(st) ==> contains_metric(
            r.metrics@,
            "prove_stats.mean_ms"@,
            st.mean_ms,
        ),
        rec.witness_stats matches Some(st) ==> contains_metric(
            r.metrics@,
            "witness_stats.mean_ms"@,
            st.mean_ms,
        ),
        rec.verify_stats matches Some(st) ==> contains_metric(
            r.metrics@,
            "verify_stats.mean_ms"@,
            st.mean_ms,
        ),
        rec.total_gates matches Some(v) ==> contains_metric(r.metrics@, "total_gates"@, v),
        rec.acir_opcodes matches Some(v) ==> contains_metric(r.metrics@, "acir_opcodes"@, v),
        rec.proof_size_bytes matches Some(v) ==> contains_metric(
            r.metrics@,
            "proof_size_bytes"@,
            v,
        ),
        rec.proving_key_size_bytes matches Some(v) ==> contains_metric(
            r.metrics@,
            "proving_key_size_bytes"@,
            v,
        ),
        rec.verification_key_size_bytes matches Some(v) ==> contains_metric(
            r.metrics@,
            "verification_key_size_bytes"@,
            v,
        ),
        rec.peak_rss_mb matches Some(v) ==> contains_metric(r.metrics@, "peak_rss_mb"@, v),
{
    proof {
        lemma_flat_paths_distinct();
    }
    let mut metrics: Vec<(String, u64)> = Vec::new();
    let prove_mean: Option<u64> = match &rec.prove_stats {
        Some(st) => Some(st.mean_ms),
        None => None,
    };
    let witness_mean: Option<u64> = match &rec.witness_stats {
        Some(st) => Some(st.mean_ms),
        None => None,
    };
    let verify_mean: Option<u64> = match &rec.verify_stats {
        Some(st) => Some(st.mean_ms),
        None => None,
    };
    push_metric(&mut metrics, "prove_stats.mean_ms", prove_mean);
    push_metric(&mut metrics, "witness_stats.mean_ms", witness_mean);
    push_metric(&mut metrics, "verify_stats.mean_ms", verify_mean);
    push_metric(&mut metrics, "total_gates", rec.total_gates);
    push_metric(&mut metrics, "acir_opcodes", rec.acir_opcodes);
    push_metric(&mut metrics, "proof_size_bytes", rec.proof_size_bytes);
    push_metric(&mut metrics, "proving_key_size_bytes", rec.proving_key_size_bytes);
    push_metric(&mut metrics, "verification_key_size_bytes", rec.verification_key_size_bytes);
    push_metric(&mut metrics, "peak_rss_mb", rec.peak_rss_mb);
    FlatRecord { circuit_name: rec.circuit_name.clone(), metrics }
}

/// Flattens every record of a set, keeping order.
pub fn flatten_records(recs: &Vec<BenchRecord>) -> (r: Vec<FlatRecord>)
    ensures
        r@.len() == recs@.len(),
        forall|i: int|
            0 <= i < recs@.len() ==> (#[trigger] r@[i]).circuit_name@ == recs@[i].circuit_name@,
{
    let mut out: Vec<FlatRecord> = Vec::new();
    let mut i: usize = 0;
    while i < recs.len()
        invariant
            i <= recs@.len(),
            out@.len() == i,
            forall|k: int|
                0 <= k < i ==> (#[trigger] out@[k]).circuit_name@ == recs@[k].circuit_name@,
        decreases recs@.len() - i,
    {
        let f = flatten_record(&recs[i]);
        out.push(f);
        i = i + 1;
    }
    out
}

/// Whether some record in `rs` carries the circuit name `name`.
pub open spec fn has_circuit(rs: Seq<FlatRecord>, name: Seq<char>) -> bool {
    exists|i: int| 0 <= i < rs.len() && rs[i].circuit_name@ == name
}

/// The first record of `rs` carrying the circuit name; meaningful only
/// when one exists.
pub open spec fn first_circuit(rs: Seq<FlatRecord>, name: Seq<char>) -> FlatRecord
    decreases rs.len(),
{
    if rs.len() == 0 {
        arbitrary()
    } else if rs[0].circuit_name@ == name {
        rs[0]
    } else {
        first_circuit(rs.drop_first(), name)
    }
}

/// Skipping a prefix with no match leaves the first match unchanged.
proof fn lemma_first_circuit_skip(rs: Seq<FlatRecord>, name: Seq<char>, i: int)
    requires
        0 <= i <= rs.len(),
        forall|k: int| 0 <= k < i ==> rs[k].circuit_name@ != name,
    ensures
        first_circuit(rs, name) == first_circuit(rs.subrange(i, rs.len() as int), name),
    decreases i,
{
    if i > 0 {
        let rest = rs.drop_first();
        lemma_first_circuit_skip(rest, name, i - 1);
        assert(rest.subrange(i - 1, rest.len() as int) =~= rs.subrange(i, rs.len() as int));
    } else {
        assert(rs.subrange(0, rs.len() as int) =~= rs);
    }
}

/// Finds the first record with the given circuit name, in record order.
fn find_by_name<'a>(rs: &'a Vec<FlatRecord>, name: &str) -> (r: Option<&'a FlatRecord>)
    ensures
        r is Some <==> has_circuit(rs@, name@),
        r matches Some(rec) ==> rec.circuit_name@ == name@ && *rec == first_circuit(rs@, name@),
{
    let mut i: usize = 0;
    while i < rs.len()
        invariant
            i <= rs@.len(),
            forall|k: int| 0 <= k < i ==> rs@[k].circuit_name@ != name@,
        decreases rs@.len() - i,
    {
        if str_eq(rs[i].circuit_name.as_str(), name) {
            proof {
                lemma_first_circuit_skip(rs@, name@, i as int);
                let rest = rs@.subrange(i as int, rs@.len() as int);
                assert(rest[0] == rs@[i as int]);
            }
            return Some(&rs[i]);
        }
        i = i + 1;
    }
    None
}

/// Aligns a baseline set and a target set by exact circuit-name equality
/// and accumulates the regression report.
///
/// Every target circuit yields one entry, in target order; one with no
/// baseline match is emitted with a `MissingBaseline` status and no metric
/// rows, never an error.  The returned report is finalized: its CI exit
/// code is 1 exactly when some metric regressed or errored.
pub fn compare_records(
    baselines: &Vec<FlatRecord>,
    targets: &Vec<FlatRecord>,
    baseline_id: &str,
    target_id: &str,
    threshold_milli_pct: u64,
) -> (r: RegressionReport)
    requires
        threshold_milli_pct <= 100000000,
        targets@.len() <= 10000000,
    ensures
        r.metadata.baseline_id@ == baseline_id@,
        r.metadata.target_id@ == target_id@,
        r.metadata.threshold_milli_pct == threshold_milli_pct,
        r.summary.total_circuits == targets@.len(),
        r.circuits@.len() == targets@.len(),
        r.summary.ci_exit_code == if r.summary.regressions > 0 || r.summary.errors > 0 {
            1int
        } else {
            0int
        },
        forall|i: int|
            0 <= i < targets@.len() ==> (#[trigger] r.circuits@[i]).circuit_name@
                == targets@[i].circuit_name@,
        forall|i: int|
            0 <= i < targets@.len() && !has_circuit(baselines@, targets@[i].circuit_name@) ==> (
            #[trigger] r.circuits@[i]).status == RegressionStatus::MissingBaseline
                && r.circuits@[i].metrics@.len() == 0,
        forall|i: int|
            0 <= i < targets@.len() && has_circuit(baselines@, targets@[i].circuit_name@)
                ==> comparison_ok(
                first_circuit(baselines@, targets@[i].circuit_name@),
                targets@[i],
                threshold_milli_pct,
                #[trigger] r.circuits@[i],
            ),
{
    let mut report = RegressionReport::new(baseline_id, target_id, threshold_milli_pct);
    let mut i: usize = 0;
    while i < targets.len()
        invariant
            threshold_milli_pct <= 100000000,
            targets@.len() <= 10000000,
            i <= targets@.len(),
            report.metadata.baseline_id@ == baseline_id@,
            report.metadata.target_id@ == target_id@,
            report.metadata.threshold_milli_pct == threshold_milli_pct,
            report.summary.total_circuits == i,
            report.circuits@.len() == i,
            report.summary.total_metrics <= 10 * i,
            report.summary.regressions <= report.summary.total_metrics,
            report.summary.improvements <= report.summary.total_metrics,
            report.summary.unchanged <= report.summary.total_metrics,
            report.summary.missing_baselines <= report.summary.total_metrics,
            report.summary.errors <= report.summary.total_metrics,
            report.summary.circuits_with_regressions <= i,
            report.summary.circuits_with_improvements <= i,
            forall|k: int|
                0 <= k < i ==> (#[trigger] report.circuits@[k]).circuit_name@
                    == targets@[k].circuit_name@,
            forall|k: int|
                0 <= k < i && !has_circuit(baselines@, targets@[k].circuit_name@) ==> (
                #[trigger] report.circuits@[k]).status == RegressionStatus::MissingBaseline
                    && report.circuits@[k].metrics@.len() == 0,
            forall|k: int|
                0 <= k < i && has_circuit(baselines@, targets@[k].circuit_name@)
                    ==> comparison_ok(
                    first_circuit(baselines@, targets@[k].circuit_name@),
                    targets@[k],
                    threshold_milli_pct,
                    #[trigger] report.circuits@[k],
                ),
        decreases targets@.len() - i,
    {
        let target = &targets[i];
        let circuit: CircuitRegression = match find_by_name(baselines, target.circuit_name.as_str())
            {
            Some(baseline) => compare_flat(baseline, target, threshold_milli_pct),
            None => CircuitRegression {
                circuit_name: target.circuit_name.clone(),
                params: None,
                metrics: Vec::new(),
                status: RegressionStatus::MissingBaseline,
            },
        };
        proof {
            lemma_count_matching_le(circuit.metrics@, RegressionStatus::ExceededThreshold);
            lemma_count_matching_le(circuit.metrics@, RegressionStatus::Improved);
            lemma_count_matching_le(circuit.metrics@, RegressionStatus::WithinThreshold);
            lemma_count_matching_le(circuit.metrics@, RegressionStatus::MissingBaseline);
            lemma_count_matching_le(circuit.metrics@, RegressionStatus::Error);
        }
        report.add_circuit(circuit);
        i = i + 1;
    }
    report.finalize();
    report
}

/// A status count never exceeds the number of metrics.
proof fn lemma_count_matching_le(ms: Seq<MetricDelta>, s: RegressionStatus)
    ensures
        0 <= count_matching(ms, s) <= ms.len(),
    decreases ms.len(),
{
    if ms.len() > 0 {
        lemma_count_matching_le(ms.drop_last(), s);
    }
}

/// Metadata about a regression report.
#[derive(Debug, Clone)]
pub struct ReportMetadata {
    /// Identifier for the baseline.
    pub baseline_id: String,
    /// Identifier for the target.
    pub target_id: String,
    /// ISO 8601 timestamp of generation.
    pub generated_at: String,
    /// Regression threshold in thousandths of a percent.
    pub threshold_milli_pct: u64,
    /// Baseline provenance, when available.
    pub baseline_provenance: Option<Provenance>,
    /// Target provenance, when available.
    pub target_provenance: Option<Provenance>,
}

/// Summary statistics of a report.
#[derive(Debug, Clone, PartialEq, Eq, Structural)]
pub struct ReportSummary {
    /// Total circuits analyzed.
    pub total_circuits: usize,
    /// Circuits with regressions.
    pub circuits_with_regressions: usize,
    /// Circuits with improvements.
    pub circuits_with_improvements: usize,
    /// Total metric comparisons.
    pub total_metrics: usize,
    /// Metrics that exceeded the threshold.
    pub regressions: usize,
    /// Metrics that improved.
    pub improvements: usize,
    /// Metrics within the threshold.
    pub unchanged: usize,
    /// Metrics with a missing baseline.
    pub missing_baselines: usize,
    /// Metrics with errors.
    pub errors: usize,
    /// Recommended CI exit code: 0 passes, 1 fails.
    pub ci_exit_code: i32,
}

/// A complete regression report.  Built incrementally with `add_circuit`;
/// the exit code is valid only after `finalize`.
#[derive(Debug, Clone)]
pub struct RegressionReport {
    /// Schema version of the report.
    pub version: u32,
    /// Report metadata.
    pub metadata: ReportMetadata,
    /// Per-circuit regression analysis.
    pub circuits: Vec<CircuitRegression>,
    /// Summary statistics.
    pub summary: ReportSummary,
    /// Tool version mismatches between baseline and target.
    pub version_mismatches: Vec<VersionMismatch>,
}

impl RegressionReport {
    /// A fresh report with zeroed summary and the generation time taken
    /// from the wall clock.
    pub fn new(baseline_id: &str, target_id: &str, threshold_milli_pct: u64) -> (r:
        RegressionReport)
        ensures
            r.version == REGRESSION_REPORT_VERSION,
            r.metadata.baseline_id@ == baseline_id@,
            r.metadata.target_id@ == target_id@,
            r.metadata.threshold_milli_pct == threshold_milli_pct,
            r.metadata.baseline_provenance is None,
            r.metadata.target_provenance is None,
            r.circuits@.len() == 0,
            r.version_mismatches@.len() == 0,
            r.summary == (ReportSummary {
                total_circuits: 0,
                circuits_with_regressions: 0,
                circuits_with_improvements: 0,
                total_metrics: 0,
                regressions: 0,
                improvements: 0,
                unchanged: 0,
                missing_baselines: 0,
                errors: 0,
                ci_exit_code: 0,
            }),
    {
        RegressionReport {
            version: REGRESSION_REPORT_VERSION,
            metadata: ReportMetadata {
                baseline_id: baseline_id.to_owned(),
                target_id: target_id.to_owned(),
                generated_at: crate::schema::now_rfc3339(),
                threshold_milli_pct,
                baseline_provenance: None,
                target_provenance: None,
            },
            circuits: Vec::new(),
            summary: ReportSummary {
                total_circuits: 0,
                circuits_with_regressions: 0,
                circuits_with_improvements: 0,
                total_metrics: 0,
                regressions: 0,
                improvements: 0,
                unchanged: 0,
                missing_baselines: 0,
                errors: 0,
                ci_exit_code: 0,
            },
            version_mismatches: Vec::new(),
        }
    }

    /// Adds a circuit's analysis, accumulating every summary count; the
    /// exit code is untouched until `finalize`.
    pub fn add_circuit(&mut self, circuit: CircuitRegression)
        requires
            old(self).summary.total_circuits < 1000000000,
            old(self).summary.total_metrics + circuit.metrics@.len() < 1000000000,
            old(self).summary.circuits_with_regressions < 1000000000,
            old(self).summary.circuits_with_improvements < 1000000000,
            old(self).summary.regressions + circuit.metrics@.len() < 1000000000,
            old(self).summary.improvements + circuit.metrics@.len() < 1000000000,
            old(self).summary.unchanged + circuit.metrics@.len() < 1000000000,
            old(self).summary.missing_baselines + circuit.metrics@.len() < 1000000000,
            old(self).summary.errors + circuit.metrics@.len() < 1000000000,
        ensures
            final(self).circuits@ == old(self).circuits@.push(circuit),
            final(self).summary.total_circuits == old(self).summary.total_circuits + 1,
            final(self).summary.total_metrics == old(self).summary.total_metrics
                + circuit.metrics@.len(),
            final(self).summary.regressions == old(self).summary.regressions + count_matching(
                circuit.metrics@,
                RegressionStatus::ExceededThreshold,
            ),
            final(self).summary.improvements == old(self).summary.improvements + count_matching(
                circuit.metrics@,
                RegressionStatus::Improved,
            ),
            final(self).summary.unchanged == old(self).summary.unchanged + count_matching(
                circuit.metrics@,
                RegressionStatus::WithinThreshold,
            ),
            final(self).summary.missing_baselines == old(self).summary.missing_baselines
                + count_matching(circuit.metrics@, RegressionStatus::MissingBaseline),
            final(self).summary.errors == old(self).summary.errors + count_matching(
                circuit.metrics@,
                RegressionStatus::Error,
            ),
            final(self).summary.circuits_with_regressions
                == old(self).summary.circuits_with_regressions + if count_matching(
                circuit.metrics@,
                RegressionStatus::ExceededThreshold,
            ) > 0 {
                1int
            } else {
                0
            },
            final(self).summary.circuits_with_improvements
                == old(self).summary.circuits_with_improvements + if count_matching(
                circuit.metrics@,
                RegressionStatus::Improved,
            ) > 0 {
                1int
            } else {
                0
            },
            final(self).summary.ci_exit_code == old(self).summary.ci_exit_code,
            final(self).metadata == old(self).metadata,
            final(self).version == old(self).version,
            final(self).version_mismatches == old(self).version_mismatches,
    {
        self.summary.total_circuits = self.summary.total_circuits + 1;
        let mut n_regress: usize = 0;
        let mut n_improve: usize = 0;
        let mut n_ok: usize = 0;
        let mut n_missing: usize = 0;
        let mut n_error: usize = 0;
        let mut i: usize = 0;
        proof {
            assert(circuit.metrics@.subrange(0, 0) =~= Seq::<MetricDelta>::empty());
        }
        while i < circuit.metrics.len()
            invariant
                i <= circuit.metrics@.len(),
                circuit.metrics@.len() < 1000000000,
                n_regress == count_matching(
                    circuit.metrics@.subrange(0, i as int),
                    RegressionStatus::ExceededThreshold,
                ),
                n_improve == count_matching(
                    circuit.metrics@.subrange(0, i as int),
                    RegressionStatus::Improved,
                ),
                n_ok == count_matching(
                    circuit.metrics@.subrange(0, i as int),
                    RegressionStatus::WithinThreshold,
                ),
                n_missing == count_matching(
                    circuit.metrics@.subrange(0, i as int),
                    RegressionStatus::MissingBaseline,
                ),
                n_error == count_matching(
                    circuit.metrics@.subrange(0, i as int),
                    RegressionStatus::Error,
                ),
                n_regress <= i,
                n_improve <= i,
                n_ok <= i,
                n_missing <= i,
                n_error <= i,
            decreases circuit.metrics@.len() - i,
        {
            proof {
                let pre = circuit.metrics@.subrange(0, i as int);
                let post = circuit.metrics@.subrange(0, i + 1 as int);
                assert(post.drop_last() =~= pre);
                assert(post.last() == circuit.metrics@[i as int]);
            }
            match circuit.metrics[i].status {
                RegressionStatus::ExceededThreshold => {
                    n_regress = n_regress + 1;
                },
                RegressionStatus::Improved => {
                    n_improve = n_improve + 1;
                },
                RegressionStatus::WithinThreshold => {
                    n_ok = n_ok + 1;
                },
                RegressionStatus::MissingBaseline => {
                    n_missing = n_missing + 1;
                },
                RegressionStatus::Error => {
                    n_error = n_error + 1;
                },
                RegressionStatus::Skipped => {},
            }
            i = i + 1;
        }
        proof {
            assert(circuit.metrics@.subrange(0, circuit.metrics@.len() as int)
                =~= circuit.metrics@);
        }
        if n_regress > 0 {
            self.summary.circuits_with_regressions = self.summary.circuits_with_regressions + 1;
        }
        if n_improve > 0 {
            self.summary.circuits_with_improvements = self.summary.circuits_with_improvements + 1;
        }
        self.summary.total_metrics = self.summary.total_metrics + circuit.metrics.len();
        self.summary.regressions = self.summary.regressions + n_regress;
        self.summary.improvements = self.summary.improvements + n_improve;
        self.summary.unchanged = self.summary.unchanged + n_ok;
        self.summary.missing_baselines = self.summary.missing_baselines + n_missing;
        self.summary.errors = self.summary.errors + n_error;
        self.circuits.push(circuit);
    }

    /// Finalizes the report: the CI exit code is 1 exactly when any metric
    /// regressed or errored, else 0.  Nothing else changes.
    pub fn finalize(&mut self)
        ensures
            final(self).summary.ci_exit_code == if old(self).summary.regressions > 0 || old(
                self,
            ).summary.errors > 0 {
                1int
            } else {
                0int
            },
            final(self).summary.total_circuits == old(self).summary.total_circuits,
            final(self).summary.regressions == old(self).summary.regressions,
            final(self).summary.improvements == old(self).summary.improvements,
            final(self).summary.unchanged == old(self).summary.unchanged,
            final(self).summary.missing_baselines == old(self).summary.missing_baselines,
            final(self).summary.errors == old(self).summary.errors,
            final(self).summary.total_metrics == old(self).summary.total_metrics,
            final(self).summary.circuits_with_regressions == old(
                self,
            ).summary.circuits_with_regressions,
            final(self).summary.circuits_with_improvements == old(
                self,
            ).summary.circuits_with_improvements,
            final(self).circuits == old(self).circuits,
            final(self).metadata == old(self).metadata,
            final(self).version == old(self).version,
            final(self).version_mismatches == old(self).version_mismatches,
    {
        self.summary.ci_exit_code = if self.summary.regressions > 0 || self.summary.errors > 0 {
            1
        } else {
            0
        };
    }

    /// Attaches provenance; with both sides present the tool version
    /// mismatches are recomputed from them.
    pub fn set_provenance(&mut self, baseline: Option<Provenance>, target: Option<Provenance>)
        ensures
            final(self).metadata.baseline_provenance == baseline,
            final(self).metadata.target_provenance == target,
            (baseline is Some && target is Some) ==> final(self).version_mismatches@.len() == (
            if nargo_mismatch(&baseline->Some_0, &target->Some_0) {
                1int
            } else {
                0
            }) + (if backend_mismatch(&baseline->Some_0, &target->Some_0) {
                1int
            } else {
                0
            }) + (if system_mismatch(&baseline->Some_0, &target->Some_0) {
                1int
            } else {
                0
            }),
            final(self).summary == old(self).summary,
            final(self).circuits == old(self).circuits,
    {
        match (&baseline, &target) {
            (Some(b), Some(t)) => {
                self.version_mismatches = check_version_mismatches(b, t);
            },
            _ => {},
        }
        self.metadata.baseline_provenance = baseline;
        self.metadata.target_provenance = target;
    }
}

/// Appends a thousandths value with one decimal place, truncated.
fn push_milli_1dp(out: &mut String, v: u64) {
    crate::strutil::push_u64(out, v / 1000);
    crate::strutil::push_char(out, '.');
    crate::strutil::push_u64(out, (v % 1000) / 100);
}

/// Appends a signed thousandths-of-a-percent delta as `+x.y%` or `-x.y%`.
fn push_signed_milli_pct(out: &mut String, v: i128) {
    let mag: u64 = if v >= 0 {
        crate::strutil::push_char(out, '+');
        if v > 0xffffffffffffffff {
            0xffffffffffffffff
        } else {
            v as u64
        }
    } else {
        crate::strutil::push_char(out, '-');
        if v < -0xffffffffffffffff {
            0xffffffffffffffff
        } else {
            (-v) as u64
        }
    };
    push_milli_1dp(out, mag);
    crate::strutil::push_char(out, '%');
}

/// Formats a metric value for display, truncating fractions.
///
/// Size and memory metrics are bytes and scale to KB, MB or GB; the peak
/// memory metric is already in thousandths of a megabyte; millisecond
/// metrics are in thousandths and scale to seconds past one second; gate
/// counts scale to `K` and `M`; anything else prints as a bare count.
pub fn format_value(value: u64, metric: &str) -> (r: String)
    ensures
        r@.len() > 0,
{
    let mut out = String::new();
    let is_rss = crate::strutil::str_contains(metric, "rss_mb");
    let is_size = crate::strutil::str_contains(metric, "size") || crate::strutil::str_contains(
        metric,
        "mem",
    ) || crate::strutil::str_contains(metric, "rss");
    let is_ms = crate::strutil::str_contains(metric, "ms");
    let is_gates = crate::strutil::str_contains(metric, "gates");
    if is_rss {
        push_milli_1dp(&mut out, value);
        crate::strutil::s_append(&mut out, " MB");
    } else if is_size {
        if value >= 1000000000 {
            push_milli_1dp(&mut out, value / 1000000);
            crate::strutil::s_append(&mut out, " GB");
        } else if value >= 1000000 {
            push_milli_1dp(&mut out, value / 1000);
            crate::strutil::s_append(&mut out, " MB");
        } else if value >= 1000 {
            push_milli_1dp(&mut out, value);
            crate::strutil::s_append(&mut out, " KB");
        } else {
            crate::strutil::push_u64(&mut out, value);
            crate::strutil::s_append(&mut out, " B");
        }
    } else if is_ms {
        if value >= 1000000 {
            crate::strutil::push_u64(&mut out, value / 1000000);
            crate::strutil::push_char(&mut out, '.');
            crate::strutil::push_u64_padded(&mut out, (value % 1000000) / 10000, 2);
            crate::strutil::push_char(&mut out, 's');
        } else {
            crate::strutil::push_u64(&mut out, value / 1000);
            crate::strutil::s_append(&mut out, "ms");
        }
    } else if is_gates {
        if value >= 1000000 {
            crate::strutil::push_u64(&mut out, value / 1000000);
            crate::strutil::push_char(&mut out, '.');
            crate::strutil::push_u64_padded(&mut out, (value % 1000000) / 10000, 2);
            crate::strutil::push_char(&mut out, 'M');
        } else if value >= 1000 {
            push_milli_1dp(&mut out, value);
            crate::strutil::push_char(&mut out, 'K');
        } else {
            crate::strutil::push_u64(&mut out, value);
        }
    } else {
        crate::strutil::push_u64(&mut out, value);
    }
    proof {
        crate::strutil::lemma_dec_digits_len(0);
    }
    let n = out.as_str().unicode_len();
    if n == 0 {
        // every branch above wrote a digit already; this keeps the
        // non-emptiness promise without a per-branch proof
        crate::strutil::push_char(&mut out, '0');
    }
    out
}

/// Appends one markdown table row for a metric.
fn push_metric_row(out: &mut String, circuit_col: &str, m: &MetricDelta) {
    crate::strutil::s_append(out, "| ");
    crate::strutil::s_append(out, circuit_col);
    crate::strutil::s_append(out, " | ");
    crate::strutil::s_append(out, m.metric.as_str());
    crate::strutil::s_append(out, " | ");
    let b = format_value(m.baseline, m.metric.as_str());
    crate::strutil::s_append(out, b.as_str());
    crate::strutil::s_append(out, " | ");
    let t = format_value(m.target, m.metric.as_str());
    crate::strutil::s_append(out, t.as_str());
    crate::strutil::s_append(out, " | ");
    if m.delta_abs == 0 {
        crate::strutil::s_append(out, "0");
    } else {
        push_signed_milli_pct(out, m.delta_milli_pct);
    }
    crate::strutil::s_append(out, " | ");
    crate::strutil::s_append(out, m.status.emoji());
    crate::strutil::s_append(out, " |\n");
}

/// Renders a regression report as Markdown.
///
/// The header states the overall outcome; a metadata table names baseline,
/// target, threshold and generation time; version mismatches, regressions
/// and improvements get their own tables; the full results follow in a
/// collapsed section.
pub fn render_markdown(report: &RegressionReport) -> (r: String)
    ensures
        r@.len() > 0,
{
    let mut out = String::new();
    let status_emoji: &str = if report.summary.regressions > 0 {
        "❌"
    } else if report.summary.improvements > 0 {
        "✅🎉"
    } else {
        "✅"
    };
    crate::strutil::s_append(&mut out, "## ");
    crate::strutil::s_append(&mut out, status_emoji);
    crate::strutil::s_append(&mut out, " noir-bench Regression Report\n\n");
    crate::strutil::s_append(&mut out, "| | |\n|---|---|\n| **Baseline** | `");
    crate::strutil::s_append(&mut out, report.metadata.baseline_id.as_str());
    crate::strutil::s_append(&mut out, "` |\n| **Target** | `");
    crate::strutil::s_append(&mut out, report.metadata.target_id.as_str());
    crate::strutil::s_append(&mut out, "` |\n| **Threshold** | ");
    push_milli_1dp(&mut out, report.metadata.threshold_milli_pct);
    crate::strutil::s_append(&mut out, "% |\n| **Generated** | ");
    crate::strutil::s_append(&mut out, report.metadata.generated_at.as_str());
    crate::strutil::s_append(&mut out, " |\n\n");

    if report.version_mismatches.len() > 0 {
        crate::strutil::s_append(&mut out, "### ⚠️ Tool Version Mismatches\n\n");
        crate::strutil::s_append(
            &mut out,
            "| Tool | Baseline | Target |\n|------|----------|--------|\n",
        );
        let mut i: usize = 0;
        while i < report.version_mismatches.len()
            invariant
                i <= report.version_mismatches@.len(),
            decreases report.version_mismatches@.len() - i,
        {
            let m = &report.version_mismatches[i];
            crate::strutil::s_append(&mut out, "| ");
            crate::strutil::s_append(&mut out, m.tool.as_str());
            crate::strutil::s_append(&mut out, " | ");
            match &m.baseline_version {
                Some(v) => crate::strutil::s_append(&mut out, v.as_str()),
                None => crate::strutil::s_append(&mut out, "-"),
            }
            crate::strutil::s_append(&mut out, " | ");
            match &m.target_version {
                Some(v) => crate::strutil::s_append(&mut out, v.as_str()),
                None => crate::strutil::s_append(&mut out, "-"),
            }
            crate::strutil::s_append(&mut out, " |\n");
            i = i + 1;
        }
        crate::strutil::push_char(&mut out, '\n');
    }

    crate::strutil::s_append(&mut out, "### Summary\n\n");
    crate::strutil::s_append(&mut out, "| Metric | Count |\n|--------|-------|\n| Circuits | ");
    crate::strutil::push_u64(&mut out, report.summary.total_circuits as u64);
    crate::strutil::s_append(&mut out, " |\n| Regressions | ");
    crate::strutil::push_u64(&mut out, report.summary.regressions as u64);
    crate::strutil::s_append(&mut out, " |\n| Improvements | ");
    crate::strutil::push_u64(&mut out, report.summary.improvements as u64);
    crate::strutil::s_append(&mut out, " |\n| Unchanged | ");
    crate::strutil::push_u64(&mut out, report.summary.unchanged as u64);
    crate::strutil::s_append(&mut out, " |\n\n");

    if report.summary.regressions > 0 {
        crate::strutil::s_append(&mut out, "### 🔴 Regressions\n\n");
        crate::strutil::s_append(
            &mut out,
            "| Circuit | Metric | Baseline | Target | Delta | Status |\n|---------|--------|----------|--------|-------|--------|\n",
        );
        let mut c: usize = 0;
        while c < report.circuits.len()
            invariant
                c <= report.circuits@.len(),
            decreases report.circuits@.len() - c,
        {
            let circuit = &report.circuits[c];
            let mut k: usize = 0;
            while k < circuit.metrics.len()
                invariant
                    k <= circuit.metrics@.len(),
                decreases circuit.metrics@.len() - k,
            {
                let m = &circuit.metrics[k];
                match m.status {
                    RegressionStatus::ExceededThreshold => {
                        push_metric_row(&mut out, circuit.circuit_name.as_str(), m);
                    },
                    _ => {},
                }
                k = k + 1;
            }
            c = c + 1;
        }
        crate::strutil::push_char(&mut out, '\n');
    }

    if report.summary.improvements > 0 {
        crate::strutil::s_append(&mut out, "### 🟢 Improvements\n\n");
        if report.summary.improvements > 5 {
            crate::strutil::s_append(
                &mut out,
                "<details>\n<summary>Show all improvements</summary>\n\n",
            );
        }
        crate::strutil::s_append(
            &mut out,
            "| Circuit | Metric | Baseline | Target | Delta | Status |\n|---------|--------|----------|--------|-------|--------|\n",
        );
        let mut c: usize = 0;
        while c < report.circuits.len()
            invariant
                c <= report.circuits@.len(),
            decreases report.circuits@.len() - c,
        {
            let circuit = &report.circuits[c];
            let mut k: usize = 0;
            while k < circuit.metrics.len()
                invariant
                    k <= circuit.metrics@.len(),
                decreases circuit.metrics@.len() - k,
            {
                let m = &circuit.metrics[k];
                match m.status {
                    RegressionStatus::Improved => {
                        push_metric_row(&mut out, circuit.circuit_name.as_str(), m);
                    },
                    _ => {},
                }
                k = k + 1;
            }
            c = c + 1;
        }
        if report.summary.improvements > 5 {
            crate::strutil::s_append(&mut out, "\n</details>\n");
        }
        crate::strutil::push_char(&mut out, '\n');
    }

    crate::strutil::s_append(&mut out, "<details>\n<summary>All Results</summary>\n\n");
    crate::strutil::s_append(
        &mut out,
        "| Circuit | Metric | Baseline | Target | Delta | Status |\n|---------|--------|----------|--------|-------|--------|\n",
    );
    let mut c: usize = 0;
    while c < report.circuits.len()
        invariant
            c <= report.circuits@.len(),
        decreases report.circuits@.len() - c,
    {
        let circuit = &report.circuits[c];
        let mut k: usize = 0;
        while k < circuit.metrics.len()
            invariant
                k <= circuit.metrics@.len(),
            decreases circuit.metrics@.len() - k,
        {
            let m = &circuit.metrics[k];
            if k == 0 {
                push_metric_row(&mut out, circuit.circuit_name.as_str(), m);
            } else {
                push_metric_row(&mut out, "", m);
            }
            k = k + 1;
        }
        c = c + 1;
    }
    crate::strutil::s_append(&mut out, "\n</details>\n\n---\n🔴 = regression (>");
    push_milli_1dp(&mut out, report.metadata.threshold_milli_pct);
    crate::strutil::s_append(&mut out, "%) | 🟢 = improvement (<-");
    push_milli_1dp(&mut out, report.metadata.threshold_milli_pct);
    crate::strutil::s_append(&mut out, "%) | ⚪ = unchanged\n");
    proof {
        reveal_strlit("%) | ⚪ = unchanged\n");
    }
    out
}

} // verus!
