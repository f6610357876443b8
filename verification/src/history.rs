//! Derived history index: a summarized, deterministically ordered view of
//! benchmark records for a static dashboard.
//!
//! The canonical telemetry format stays the benchmark record; the index is
//! derived from it, sorted by timestamp and record identifier, and each
//! entry gets a slug computed from its position in that order.

use vstd::prelude::*;

verus! {

use vstd::string::*;
use vstd::relations::sorted_by;
use crate::schema::BenchRecord;
use crate::strutil::{dec_digits, zero_padded, s_append, push_u64_padded};

/// Schema version of the derived run index.
pub const RUN_INDEX_SCHEMA_VERSION: u32 = 1;

/// Summary metrics for the run index.  Millisecond percentiles are in
/// thousandths of a millisecond; every field is optional to handle sparse
/// data gracefully.
#[derive(Debug, Clone, PartialEq, Eq, Structural)]
pub struct RunIndexMetricsV1 {
    /// Median prove time.
    pub prove_ms_p50: Option<u64>,
    /// 95th percentile prove time.
    pub prove_ms_p95: Option<u64>,
    /// Median verify time.
    pub verify_ms_p50: Option<u64>,
    /// Total gate count.
    pub gates: Option<u64>,
    /// Peak resident set size in bytes.
    pub peak_rss_bytes: Option<u64>,
}

impl Default for RunIndexMetricsV1 {
    /// No metric present.
    fn default() -> (r: RunIndexMetricsV1)
        ensures
            r.prove_ms_p50 is None,
            r.prove_ms_p95 is None,
            r.verify_ms_p50 is None,
            r.gates is None,
            r.peak_rss_bytes is None,
    {
        RunIndexMetricsV1 {
            prove_ms_p50: None,
            prove_ms_p95: None,
            verify_ms_p50: None,
            gates: None,
            peak_rss_bytes: None,
        }
    }
}

/// A derived index record: a summarized view of one benchmark record.
#[derive(Debug, Clone)]
pub struct RunIndexRecordV1 {
    /// Schema version of the index entry.
    pub schema_version: u32,
    /// Unique record identifier.
    pub record_id: String,
    /// ISO 8601 timestamp.
    pub timestamp: String,
    /// Circuit name.
    pub circuit_name: String,
    /// Backend name.
    pub backend: String,
    /// Suite name, reserved for future records.
    pub suite: Option<String>,
    /// Derived status: `ok` or `error`.
    pub status: String,
    /// Summary metrics.
    pub metrics: RunIndexMetricsV1,
    /// Deterministic slug of the detail page, assigned after sorting.
    pub detail_slug: Option<String>,
    /// Relative href of the detail page, assigned after sorting.
    pub detail_href: Option<String>,
}

impl RunIndexRecordV1 {
    /// An index record with the required fields and nothing derived yet.
    pub fn new(
        record_id: String,
        timestamp: String,
        circuit_name: String,
        backend: String,
        status: String,
    ) -> (r: RunIndexRecordV1)
        ensures
            r.schema_version == RUN_INDEX_SCHEMA_VERSION,
            r.record_id == record_id,
            r.timestamp == timestamp,
            r.circuit_name == circuit_name,
            r.backend == backend,
            r.status == status,
            r.suite is None,
            r.detail_slug is None,
            r.detail_href is None,
            r.metrics.gates is None,
    {
        RunIndexRecordV1 {
            schema_version: RUN_INDEX_SCHEMA_VERSION,
            record_id,
            timestamp,
            circuit_name,
            backend,
            suite: None,
            status,
            metrics: RunIndexMetricsV1::default(),
            detail_slug: None,
            detail_href: None,
        }
    }
}

/// The deterministic slug of the detail page for a one-based index:
/// `run_` followed by the index zero-padded to six digits.
pub fn make_run_slug(index_1based: usize) -> (r: String)
    ensures
        r@ == "run_"@ + zero_padded(dec_digits(index_1based as nat), 6),
{
    let mut out = String::new();
    s_append(&mut out, "run_");
    push_u64_padded(&mut out, index_1based as u64, 6);
    out
}

/// The relative href of a run detail page: `runs/` + slug + `.html`.
pub fn make_run_href(slug: &str) -> (r: String)
    ensures
        r@ == "runs/"@ + slug@ + ".html"@,
{
    let mut out = String::new();
    s_append(&mut out, "runs/");
    s_append(&mut out, slug);
    s_append(&mut out, ".html");
    out
}

/// Whether a record counts as successful for the index: prove statistics
/// with at least one iteration, or a gates-only run.
pub open spec fn status_ok_of(rec: &BenchRecord) -> bool {
    (rec.prove_stats matches Some(s) && s.iterations > 0) || rec.total_gates is Some
}

/// Derives the display status of a record.
pub fn derive_status(record: &BenchRecord) -> (r: String)
    ensures
        status_ok_of(record) ==> r@ == "ok"@,
        !status_ok_of(record) ==> r@ == "error"@,
{
    match &record.prove_stats {
        Some(stats) => {
            if stats.iterations > 0 {
                return "ok".to_owned();
            }
        },
        None => {},
    }
    if record.total_gates.is_some() {
        return "ok".to_owned();
    }
    "error".to_owned()
}

/// Derives the index metrics of a record.  Percentiles carry over in their
/// fixed-point thousandths; the peak memory converts from thousandths of a
/// megabyte to bytes.
pub fn derive_metrics(record: &BenchRecord) -> (r: RunIndexMetricsV1)
    ensures
        r.prove_ms_p50 == (match record.prove_stats {
            Option::Some(s) => s.median_ms,
            Option::None => None,
        }),
        r.prove_ms_p95 == (match record.prove_stats {
            Option::Some(s) => s.p95_ms,
            Option::None => None,
        }),
        r.verify_ms_p50 == (match record.verify_stats {
            Option::Some(s) => s.median_ms,
            Option::None => None,
        }),
        r.gates == record.total_gates,
        record.peak_rss_mb matches Some(mb) ==> r.peak_rss_bytes == Some((mb as int * 1000) as u64),
        record.peak_rss_mb is None ==> r.peak_rss_bytes is None,
{
    let prove_ms_p50: Option<u64> = match &record.prove_stats {
        Some(s) => s.median_ms,
        None => None,
    };
    let prove_ms_p95: Option<u64> = match &record.prove_stats {
        Some(s) => s.p95_ms,
        None => None,
    };
    let verify_ms_p50: Option<u64> = match &record.verify_stats {
        Some(s) => s.median_ms,
        None => None,
    };
    let peak_rss_bytes: Option<u64> = match record.peak_rss_mb {
        Some(mb) => Some(((mb as u128) * 1000) as u64),
        None => None,
    };
    RunIndexMetricsV1 {
        prove_ms_p50,
        prove_ms_p95,
        verify_ms_p50,
        gates: record.total_gates,
        peak_rss_bytes,
    }
}

/// Derives one index record; the detail slug and href stay absent until
/// `assign_detail_slugs` runs on the sorted index.
pub fn derive_record(record: &BenchRecord) -> (r: RunIndexRecordV1)
    ensures
        r.schema_version == RUN_INDEX_SCHEMA_VERSION,
        r.record_id@ == record.record_id@,
        r.timestamp@ == record.timestamp@,
        r.circuit_name@ == record.circuit_name@,
        r.backend@ == record.backend.name@,
        r.detail_slug is None,
        r.detail_href is None,
        r.metrics.gates == record.total_gates,
        status_ok_of(record) ==> r.status@ == "ok"@,
{
    let status = derive_status(record);
    let metrics = derive_metrics(record);
    RunIndexRecordV1 {
        schema_version: RUN_INDEX_SCHEMA_VERSION,
        record_id: record.record_id.clone(),
        timestamp: record.timestamp.clone(),
        circuit_name: record.circuit_name.clone(),
        backend: record.backend.name.clone(),
        suite: None,
        status,
        metrics,
        detail_slug: None,
        detail_href: None,
    }
}

/// Lexicographic order on character sequences, by code point.
pub open spec fn lex_le(a: Seq<char>, b: Seq<char>) -> bool
    decreases a.len(),
{
    if a.len() == 0 {
        true
    } else if b.len() == 0 {
        false
    } else if a[0] != b[0] {
        (a[0] as u32) < (b[0] as u32)
    } else {
        lex_le(a.drop_first(), b.drop_first())
    }
}

/// The index ordering: by timestamp, then by record identifier.
pub open spec fn index_le(a: RunIndexRecordV1, b: RunIndexRecordV1) -> bool {
    if a.timestamp@ != b.timestamp@ {
        lex_le(a.timestamp@, b.timestamp@)
    } else {
        lex_le(a.record_id@, b.record_id@)
    }
}

/// The closure form of the index ordering, for sortedness statements.
pub open spec fn index_le_f() -> spec_fn(RunIndexRecordV1, RunIndexRecordV1) -> bool {
    |a: RunIndexRecordV1, b: RunIndexRecordV1| index_le(a, b)
}

/// `lex_le` is total.
proof fn lemma_lex_total(a: Seq<char>, b: Seq<char>)
    ensures
        lex_le(a, b) || lex_le(b, a),
    decreases a.len(),
{
    if a.len() > 0 && b.len() > 0 {
        if a[0] == b[0] {
            lemma_lex_total(a.drop_first(), b.drop_first());
        } else {
            vstd::utf8::char_u32_cast(a[0], a[0] as u32);
            vstd::utf8::char_u32_cast(b[0], b[0] as u32);
            assert((a[0] as u32) != (b[0] as u32));
        }
    }
}

/// Compares two strings in lexicographic code-point order.
fn str_lex_le(a: &str, b: &str) -> (r: bool)
    ensures
        r == lex_le(a@, b@),
{
    let an = a.unicode_len();
    let bn = b.unicode_len();
    let mut i: usize = 0;
    proof {
        assert(a@.subrange(0, an as int) =~= a@);
        assert(b@.subrange(0, bn as int) =~= b@);
    }
    loop
        invariant
            i <= an,
            i <= bn,
            an == a@.len(),
            bn == b@.len(),
            forall|k: int| 0 <= k < i ==> a@[k] == b@[k],
            lex_le(a@, b@) == lex_le(
                a@.subrange(i as int, an as int),
                b@.subrange(i as int, bn as int),
            ),
        decreases an - i,
    {
        if i == an {
            proof {
                assert(a@.subrange(i as int, an as int).len() == 0);
            }
            return true;
        }
        if i == bn {
            proof {
                assert(b@.subrange(i as int, bn as int).len() == 0);
                assert(a@.subrange(i as int, an as int).len() > 0);
            }
            return false;
        }
        let ca = a.get_char(i);
        let cb = b.get_char(i);
        proof {
            let sa = a@.subrange(i as int, an as int);
            let sb = b@.subrange(i as int, bn as int);
            assert(sa[0] == a@[i as int]);
            assert(sb[0] == b@[i as int]);
            assert(sa.drop_first() =~= a@.subrange(i + 1 as int, an as int));
            assert(sb.drop_first() =~= b@.subrange(i + 1 as int, bn as int));
        }
        if ca != cb {
            return (ca as u32) < (cb as u32);
        }
        i = i + 1;
    }
}

/// Compares two index records in the index ordering.
fn index_le_exec(a: &RunIndexRecordV1, b: &RunIndexRecordV1) -> (r: bool)
    ensures
        r == index_le(*a, *b),
{
    if crate::strutil::str_eq(a.timestamp.as_str(), b.timestamp.as_str()) {
        str_lex_le(a.record_id.as_str(), b.record_id.as_str())
    } else {
        str_lex_le(a.timestamp.as_str(), b.timestamp.as_str())
    }
}

/// `lex_le` is transitive.
proof fn lemma_lex_trans(a: Seq<char>, b: Seq<char>, c: Seq<char>)
    requires
        lex_le(a, b),
        lex_le(b, c),
    ensures
        lex_le(a, c),
    decreases a.len(),
{
    if a.len() > 0 && b.len() > 0 && c.len() > 0 {
        if a[0] == b[0] && b[0] == c[0] {
            lemma_lex_trans(a.drop_first(), b.drop_first(), c.drop_first());
        }
    }
}

/// `lex_le` both ways means equality.
proof fn lemma_lex_antisym(a: Seq<char>, b: Seq<char>)
    requires
        lex_le(a, b),
        lex_le(b, a),
    ensures
        a == b,
    decreases a.len(),
{
    if a.len() > 0 && b.len() > 0 {
        if a[0] == b[0] {
            lemma_lex_antisym(a.drop_first(), b.drop_first());
            assert(a =~= seq![a[0]] + a.drop_first());
            assert(b =~= seq![b[0]] + b.drop_first());
        }
    } else {
        assert(a.len() == 0 && b.len() == 0);
        assert(a =~= b);
    }
}

/// The index ordering is total.
proof fn lemma_index_le_total(a: RunIndexRecordV1, b: RunIndexRecordV1)
    ensures
        index_le(a, b) || index_le(b, a),
{
    lemma_lex_total(a.timestamp@, b.timestamp@);
    lemma_lex_total(a.record_id@, b.record_id@);
}

/// The index ordering is transitive.
proof fn lemma_index_le_trans(a: RunIndexRecordV1, b: RunIndexRecordV1, c: RunIndexRecordV1)
    requires
        index_le(a, b),
        index_le(b, c),
    ensures
        index_le(a, c),
{
    if a.timestamp@ == b.timestamp@ && b.timestamp@ == c.timestamp@ {
        lemma_lex_trans(a.record_id@, b.record_id@, c.record_id@);
    } else if a.timestamp@ == b.timestamp@ {
        // a and b share the key; the step b -> c decides.
    } else if b.timestamp@ == c.timestamp@ {
    } else {
        lemma_lex_trans(a.timestamp@, b.timestamp@, c.timestamp@);
        if a.timestamp@ == c.timestamp@ {
            lemma_lex_antisym(a.timestamp@, b.timestamp@);
        }
    }
}

/// Inserts a record into a sorted index, keeping it sorted; a new record
/// lands after every existing record it does not strictly precede.
fn insert_index_sorted(out: &mut Vec<RunIndexRecordV1>, x: RunIndexRecordV1)
    requires
        sorted_by(old(out)@, index_le_f()),
    ensures
        sorted_by(final(out)@, index_le_f()),
        final(out)@.len() == old(out)@.len() + 1,
{
    let mut idx: usize = 0;
    while idx < out.len() && index_le_exec(&out[idx], &x)
        invariant
            idx <= out@.len(),
            forall|k: int| 0 <= k < idx ==> index_le(out@[k], x),
            out@ == old(out)@,
        decreases out@.len() - idx,
    {
        idx = idx + 1;
    }
    proof {
        if idx < out@.len() {
            lemma_index_le_total(out@[idx as int], x);
        }
    }
    let ghost pre = out@;
    let ghost gidx = idx as int;
    out.insert(idx, x);
    proof {
        let leq = index_le_f();
        assert(out@ =~= pre.insert(gidx, x));
        assert forall|p: int, q: int| 0 <= p < q < out@.len() implies leq(out@[p], out@[q]) by {
            if q < gidx {
                assert(leq(pre[p], pre[q]));
            } else if q == gidx {
                assert(out@[q] == x);
                assert(index_le(pre[p], x));
            } else if p > gidx {
                assert(leq(pre[p - 1], pre[q - 1]));
            } else if p == gidx {
                // x precedes the old element at gidx, which precedes the rest
                assert(index_le(x, pre[gidx]));
                if q - 1 > gidx {
                    assert(leq(pre[gidx], pre[q - 1]));
                    lemma_index_le_trans(x, pre[gidx], pre[q - 1]);
                }
            } else {
                // p < gidx < q
                assert(index_le(pre[p], x));
                assert(index_le(x, pre[gidx]));
                if q - 1 > gidx {
                    assert(leq(pre[gidx], pre[q - 1]));
                    lemma_index_le_trans(pre[p], x, pre[gidx]);
                    lemma_index_le_trans(pre[p], pre[gidx], pre[q - 1]);
                } else {
                    lemma_index_le_trans(pre[p], x, pre[q - 1]);
                }
            }
        }
    }
}

/// Sorts index records by timestamp, then record identifier.
pub fn sort_records(records: Vec<RunIndexRecordV1>) -> (r: Vec<RunIndexRecordV1>)
    ensures
        sorted_by(r@, index_le_f()),
        r@.len() == records@.len(),
{
    let n = records.len();
    let mut rest = records;
    let mut out: Vec<RunIndexRecordV1> = Vec::new();
    while rest.len() > 0
        invariant
            out@.len() + rest@.len() == n,
            sorted_by(out@, index_le_f()),
        decreases rest@.len(),
    {
        let x = rest.remove(0);
        insert_index_sorted(&mut out, x);
    }
    out
}

/// Assigns deterministic detail slugs in sorted order: the record at
/// position `i` gets the slug for the one-based index `i + 1` and the
/// matching href.
pub fn assign_detail_slugs(records: &mut Vec<RunIndexRecordV1>)
    requires
        old(records)@.len() < 1000000000,
    ensures
        final(records)@.len() == old(records)@.len(),
        forall|i: int|
            0 <= i < final(records)@.len() ==> {
                let rec = #[trigger] final(records)@[i];
                &&& rec.detail_slug matches Some(s) && s@ == "run_"@ + zero_padded(
                    dec_digits((i + 1) as nat),
                    6,
                )
                &&& rec.detail_href is Some
                &&& rec.record_id == old(records)@[i].record_id
                &&& rec.timestamp == old(records)@[i].timestamp
                &&& rec.circuit_name == old(records)@[i].circuit_name
                &&& rec.status == old(records)@[i].status
                &&& rec.metrics == old(records)@[i].metrics
            },
{
    let n = records.len();
    let mut i: usize = 0;
    while i < n
        invariant
            records@.len() == n,
            n == old(records)@.len(),
            n < 1000000000,
            i <= n,
            forall|k: int| i <= k < n ==> records@[k] == old(records)@[k],
            forall|k: int|
                0 <= k < i ==> {
                    let rec = #[trigger] records@[k];
                    &&& rec.detail_slug matches Some(s) && s@ == "run_"@ + zero_padded(
                        dec_digits((k + 1) as nat),
                        6,
                    )
                    &&& rec.detail_href is Some
                    &&& rec.record_id == old(records)@[k].record_id
                    &&& rec.timestamp == old(records)@[k].timestamp
                    &&& rec.circuit_name == old(records)@[k].circuit_name
                    &&& rec.status == old(records)@[k].status
                    &&& rec.metrics == old(records)@[k].metrics
                },
        decreases n - i,
    {
        let slug = make_run_slug(i + 1);
        let href = make_run_href(slug.as_str());
        let ghost pre = records@;
        let mut rec = records.remove(i);
        rec.detail_slug = Some(slug);
        rec.detail_href = Some(href);
        records.insert(i, rec);
        proof {
            assert forall|k: int| 0 <= k < n && k != i implies records@[k] == pre[k] by {
                if k < i {
                    assert(pre.remove(i as int)[k] == pre[k]);
                } else {
                    assert(pre.remove(i as int)[k - 1] == pre[k]);
                }
            }
        }
        i = i + 1;
    }
}

/// Builds the derived index from a set of benchmark records: derive each,
/// sort deterministically, assign slugs from the sorted order.
pub fn build_index_records(records: &Vec<BenchRecord>) -> (r: Vec<RunIndexRecordV1>)
    requires
        records@.len() < 1000000000,
    ensures
        r@.len() == records@.len(),
        sorted_by(r@, index_le_f()),
        forall|i: int|
            0 <= i < r@.len() ==> (#[trigger] r@[i]).detail_slug is Some
                && r@[i].detail_href is Some,
{
    let mut derived: Vec<RunIndexRecordV1> = Vec::new();
    let mut i: usize = 0;
    while i < records.len()
        invariant
            i <= records@.len(),
            derived@.len() == i,
        decreases records@.len() - i,
    {
        let rec = derive_record(&records[i]);
        derived.push(rec);
        i = i + 1;
    }
    let mut sorted = sort_records(derived);
    let ghost snap = sorted@;
    assign_detail_slugs(&mut sorted);
    proof {
        let leq = index_le_f();
        assert forall|p: int, q: int|
            0 <= p < q < sorted@.len() implies leq(sorted@[p], sorted@[q]) by {
            assert(leq(snap[p], snap[q]));
            assert(sorted@[p].timestamp == snap[p].timestamp);
            assert(sorted@[q].timestamp == snap[q].timestamp);
            assert(sorted@[p].record_id == snap[p].record_id);
            assert(sorted@[q].record_id == snap[q].record_id);
        }
    }
    sorted
}

/// Renders the history index page: a single static HTML file with inline
/// CSS and script that loads `index.json` at run time, inserts every
/// dynamic value through `textContent`, and builds the trend chart through
/// DOM interfaces.  The template holds no dynamic data, so the output is
/// the same bytes on every call.
pub fn render_history_html() -> (r: String)
    ensures
        r@.len() > "<!DOCTYPE html>"@.len(),
        r@.subrange(0, "<!DOCTYPE html>"@.len() as int) == "<!DOCTYPE html>"@,
{
    let mut page = String::new();
    s_append(&mut page, "<!DOCTYPE html>");
    s_append(&mut page, "\n<html lang=\"en\">");
    let body: &str = r##"
<head>
<meta charset="UTF-8">
<meta name="viewport" content="width=device-width, initial-scale=1.0">
<title>noir-bench History</title>
<style>
* { box-sizing: border-box; margin: 0; padding: 0; }
body {
  font-family: system-ui, -apple-system, sans-serif;
  background: #1a1a2e;
  color: #e8e8e8;
  padding: 24px;
}
h1 { font-size: 1.5rem; margin-bottom: 16px; }
h2 { font-size: 1.125rem; margin: 24px 0 12px 0; color: #9a9a9a; }
#status { color: #9a9a9a; font-size: 0.875rem; margin-bottom: 16px; }
#error { color: #ff6b6b; margin-bottom: 16px; }
#limit-info { color: #9a9a9a; font-size: 0.8125rem; margin-bottom: 12px; font-style: italic; }
#controls { display: flex; gap: 16px; margin-bottom: 16px; flex-wrap: wrap; align-items: center; }
#controls label { font-size: 0.875rem; color: #9a9a9a; }
#controls select, #controls input {
  background: #16213e;
  border: 1px solid #2d3a5c;
  color: #e8e8e8;
  padding: 6px 10px;
  border-radius: 4px;
  font-size: 0.875rem;
}
#controls input[type="number"] { width: 80px; }
#controls select:focus, #controls input:focus { outline: 1px solid #4ecdc4; }
#chart-container {
  background: #16213e;
  border-radius: 8px;
  padding: 16px;
  margin-bottom: 24px;
  min-height: 200px;
}
#chart-message {
  color: #9a9a9a;
  font-size: 0.875rem;
  text-align: center;
  padding: 80px 0;
}
#chart-svg { display: block; width: 100%; height: 180px; }
table { width: 100%; border-collapse: collapse; font-size: 0.875rem; background: #16213e; }
th, td { padding: 10px 12px; text-align: left; border-bottom: 1px solid #2d3a5c; }
th { background: #1a1a2e; color: #9a9a9a; font-weight: 600; font-size: 0.75rem; text-transform: uppercase; }
tr:hover { background: #1f2b47; }
.mono { font-family: monospace; }
.num { text-align: right; }
.ok { color: #4ecdc4; }
.error { color: #ff6b6b; }
a { color: #4ecdc4; text-decoration: none; }
a:hover { text-decoration: underline; }
</style>
</head>
<body>
<h1>noir-bench History</h1>
<div id="status">Loading...</div>
<div id="error"></div>
<div id="controls" style="display:none">
<label for="metric-select">Metric:</label>
<select id="metric-select"></select>
<label for="circuit-filter">Circuit filter:</label>
<input type="text" id="circuit-filter" placeholder="substring match">
<label for="row-limit">Row limit:</label>
<input type="number" id="row-limit" min="1" max="100000" value="500">
</div>
<div id="limit-info" style="display:none"></div>
<h2 id="chart-title" style="display:none">Trend Chart</h2>
<div id="chart-container" style="display:none">
<div id="chart-message"></div>
<svg id="chart-svg" viewBox="0 0 800 180" preserveAspectRatio="xMidYMid meet" style="display:none"></svg>
</div>
<table id="table" style="display:none">
<thead>
<tr>
<th>Timestamp</th>
<th>Circuit</th>
<th>Backend</th>
<th>Status</th>
<th class="num">prove_p50_ms</th>
<th class="num">prove_p95_ms</th>
<th class="num">gates</th>
<th>Details</th>
</tr>
</thead>
<tbody id="tbody"></tbody>
</table>
<script>
var allRecords = [];
var DEFAULT_ROW_LIMIT = 500;
var METRICS = [
  {key: 'prove_ms_p50', label: 'prove_ms_p50'},
  {key: 'prove_ms_p95', label: 'prove_ms_p95'},
  {key: 'verify_ms_p50', label: 'verify_ms_p50'},
  {key: 'gates', label: 'gates'},
  {key: 'peak_rss_bytes', label: 'peak_rss_bytes'}
];

function hasMetric(records, key) {
  for (var i = 0; i < records.length; i++) {
    var m = records[i].metrics || {};
    if (m[key] != null) return true;
  }
  return false;
}

function populateMetricSelect(records) {
  var sel = document.getElementById('metric-select');
  sel.innerHTML = '';
  for (var i = 0; i < METRICS.length; i++) {
    var metric = METRICS[i];
    if (hasMetric(records, metric.key)) {
      var opt = document.createElement('option');
      opt.value = metric.key;
      opt.textContent = metric.label;
      sel.appendChild(opt);
    }
  }
}

function getFilteredRecords() {
  var filter = document.getElementById('circuit-filter').value.toLowerCase();
  if (!filter) return allRecords;
  var result = [];
  for (var i = 0; i < allRecords.length; i++) {
    var r = allRecords[i];
    if (r.circuit_name && r.circuit_name.toLowerCase().indexOf(filter) !== -1) {
      result.push(r);
    }
  }
  return result;
}

function getRowLimit() {
  var input = document.getElementById('row-limit');
  var val = parseInt(input.value, 10);
  if (isNaN(val) || val < 1) return DEFAULT_ROW_LIMIT;
  return val;
}

function getLimitedRecords(filtered) {
  var limit = getRowLimit();
  if (filtered.length <= limit) return { records: filtered, total: filtered.length, limited: false };
  return { records: filtered.slice(0, limit), total: filtered.length, limited: true };
}

function renderChart(records) {
  var svg = document.getElementById('chart-svg');
  var msg = document.getElementById('chart-message');
  var sel = document.getElementById('metric-select');
  var key = sel.value;

  // Clear SVG using DOM (safe)
  while (svg.firstChild) svg.removeChild(svg.firstChild);

  // Extract data points
  var points = [];
  for (var i = 0; i < records.length; i++) {
    var m = records[i].metrics || {};
    if (m[key] != null) {
      points.push({idx: i, val: m[key]});
    }
  }

  if (points.length < 2) {
    svg.style.display = 'none';
    msg.style.display = '';
    msg.textContent = 'Not enough data for chart (need at least 2 points)';
    return;
  }

  msg.style.display = 'none';
  svg.style.display = '';

  // Chart dimensions
  var W = 800, H = 180;
  var padL = 60, padR = 20, padT = 20, padB = 30;
  var chartW = W - padL - padR;
  var chartH = H - padT - padB;

  // Find min/max
  var minVal = points[0].val, maxVal = points[0].val;
  for (var i = 1; i < points.length; i++) {
    if (points[i].val < minVal) minVal = points[i].val;
    if (points[i].val > maxVal) maxVal = points[i].val;
  }
  // Handle flat line
  if (minVal === maxVal) {
    minVal = minVal * 0.9;
    maxVal = maxVal * 1.1;
    if (minVal === 0 && maxVal === 0) { minVal = 0; maxVal = 1; }
  }

  // Scale functions
  function scaleX(idx) {
    if (points.length === 1) return padL + chartW / 2;
    return padL + (idx / (points.length - 1)) * chartW;
  }
  function scaleY(val) {
    return padT + chartH - ((val - minVal) / (maxVal - minVal)) * chartH;
  }

  // Create SVG namespace helper
  var ns = 'http://www.w3.org/2000/svg';

  // Draw axes
  var xAxis = document.createElementNS(ns, 'line');
  xAxis.setAttribute('x1', padL);
  xAxis.setAttribute('y1', H - padB);
  xAxis.setAttribute('x2', W - padR);
  xAxis.setAttribute('y2', H - padB);
  xAxis.setAttribute('stroke', '#2d3a5c');
  xAxis.setAttribute('stroke-width', '1');
  svg.appendChild(xAxis);

  var yAxis = document.createElementNS(ns, 'line');
  yAxis.setAttribute('x1', padL);
  yAxis.setAttribute('y1', padT);
  yAxis.setAttribute('x2', padL);
  yAxis.setAttribute('y2', H - padB);
  yAxis.setAttribute('stroke', '#2d3a5c');
  yAxis.setAttribute('stroke-width', '1');
  svg.appendChild(yAxis);

  // Y-axis labels
  var yLabels = [minVal, (minVal + maxVal) / 2, maxVal];
  for (var i = 0; i < yLabels.length; i++) {
    var lbl = document.createElementNS(ns, 'text');
    lbl.setAttribute('x', padL - 8);
    lbl.setAttribute('y', scaleY(yLabels[i]) + 4);
    lbl.setAttribute('text-anchor', 'end');
    lbl.setAttribute('fill', '#9a9a9a');
    lbl.setAttribute('font-size', '10');
    lbl.setAttribute('font-family', 'monospace');
    lbl.textContent = formatNumber(yLabels[i]);
    svg.appendChild(lbl);
  }

  // X-axis label (record index range)
  var xLbl = document.createElementNS(ns, 'text');
  xLbl.setAttribute('x', W / 2);
  xLbl.setAttribute('y', H - 5);
  xLbl.setAttribute('text-anchor', 'middle');
  xLbl.setAttribute('fill', '#9a9a9a');
  xLbl.setAttribute('font-size', '10');
  xLbl.textContent = 'Record index (oldest to newest)';
  svg.appendChild(xLbl);

  // Build polyline points string
  var polyPoints = '';
  for (var i = 0; i < points.length; i++) {
    var x = scaleX(i);
    var y = scaleY(points[i].val);
    polyPoints += x + ',' + y + ' ';
  }

  // Draw polyline
  var polyline = document.createElementNS(ns, 'polyline');
  polyline.setAttribute('points', polyPoints.trim());
  polyline.setAttribute('fill', 'none');
  polyline.setAttribute('stroke', '#4ecdc4');
  polyline.setAttribute('stroke-width', '2');
  svg.appendChild(polyline);

  // Draw circles at data points
  for (var i = 0; i < points.length; i++) {
    var circle = document.createElementNS(ns, 'circle');
    circle.setAttribute('cx', scaleX(i));
    circle.setAttribute('cy', scaleY(points[i].val));
    circle.setAttribute('r', '4');
    circle.setAttribute('fill', '#4ecdc4');
    svg.appendChild(circle);
  }
}

function formatNumber(n) {
  if (n >= 1000000) return (n / 1000000).toFixed(1) + 'M';
  if (n >= 1000) return (n / 1000).toFixed(1) + 'K';
  if (n === Math.floor(n)) return n.toString();
  return n.toFixed(1);
}

function renderTable(records) {
  var tbody = document.getElementById('tbody');
  var table = document.getElementById('table');
  tbody.innerHTML = '';

  for (var i = 0; i < records.length; i++) {
    var r = records[i];
    var m = r.metrics || {};
    var tr = document.createElement('tr');

    // Timestamp
    var td0 = document.createElement('td');
    td0.className = 'mono';
    td0.textContent = r.timestamp ? r.timestamp.replace('T', ' ').replace('Z', '').slice(0, 19) : '';
    tr.appendChild(td0);

    // Circuit
    var td1 = document.createElement('td');
    td1.textContent = r.circuit_name || '';
    tr.appendChild(td1);

    // Backend
    var td2 = document.createElement('td');
    td2.textContent = r.backend || '';
    tr.appendChild(td2);

    // Status
    var td3 = document.createElement('td');
    td3.textContent = r.status || '';
    td3.className = r.status === 'ok' ? 'ok' : 'error';
    tr.appendChild(td3);

    // prove_p50_ms
    var td4 = document.createElement('td');
    td4.className = 'mono num';
    td4.textContent = m.prove_ms_p50 != null ? m.prove_ms_p50.toFixed(1) : '';
    tr.appendChild(td4);

    // prove_p95_ms
    var td5 = document.createElement('td');
    td5.className = 'mono num';
    td5.textContent = m.prove_ms_p95 != null ? m.prove_ms_p95.toFixed(1) : '';
    tr.appendChild(td5);

    // gates
    var td6 = document.createElement('td');
    td6.className = 'mono num';
    td6.textContent = m.gates != null ? m.gates : '';
    tr.appendChild(td6);

    // Details link
    var td7 = document.createElement('td');
    if (r.detail_href) {
      var link = document.createElement('a');
      link.href = r.detail_href;
      link.textContent = 'View';
      td7.appendChild(link);
    }
    tr.appendChild(td7);

    tbody.appendChild(tr);
  }

  table.style.display = '';
}

function update() {
  var filtered = getFilteredRecords();
  var result = getLimitedRecords(filtered);
  var limitInfo = document.getElementById('limit-info');

  if (result.limited) {
    limitInfo.style.display = '';
    limitInfo.textContent = 'Showing first ' + result.records.length + ' of ' + result.total + ' rows (increase limit to see more)';
  } else {
    limitInfo.style.display = 'none';
    limitInfo.textContent = '';
  }

  renderChart(result.records);
  renderTable(result.records);
}

document.getElementById('metric-select').addEventListener('change', update);
document.getElementById('circuit-filter').addEventListener('input', update);
document.getElementById('row-limit').addEventListener('input', update);

fetch('./index.json')
  .then(function(r) { return r.json(); })
  .then(function(data) {
    allRecords = data;
    document.getElementById('status').textContent = 'Loaded ' + data.length + ' record(s)';
    populateMetricSelect(data);
    document.getElementById('controls').style.display = '';
    document.getElementById('chart-title').style.display = '';
    document.getElementById('chart-container').style.display = '';
    update();
  })
  .catch(function(e) {
    document.getElementById('status').textContent = 'Error';
    document.getElementById('error').textContent = e.message;
  });
</script>
</body>
</html>"##;
    s_append(&mut page, body);
    proof {
        reveal_strlit("<!DOCTYPE html>");
        reveal_strlit("\n<html lang=\"en\">");
        assert(page@.subrange(0, "<!DOCTYPE html>"@.len() as int) =~= "<!DOCTYPE html>"@);
    }
    page
}

} // verus!

