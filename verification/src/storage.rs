//! Storage-side logic: the CSV row shape of a record and the JSONL store
//! identity.  The file reads and writes themselves happen outside the
//! library; persistence accepts a record only after
//! `BenchRecord::validate_schema_version` passes.

use vstd::prelude::*;

verus! {

use vstd::string::*;
use crate::schema::BenchRecord;
use crate::stats::TimingStat;
use crate::strutil::{push_char, s_append, push_u64, u64_to_string, dec_digits};
use crate::run_html::{push_milli_3dp, milli_3dp};

/// The CSV column headers, in the deterministic export order.
pub fn csv_headers() -> (r: Vec<&'static str>)
    ensures
        r@.len() == 24,
        r@[0]@ == "schema_version"@,
        r@[1]@ == "record_id"@,
        r@[2]@ == "timestamp"@,
        r@[3]@ == "circuit_name"@,
{
    let mut h: Vec<&'static str> = Vec::new();
    h.push("schema_version");
    h.push("record_id");
    h.push("timestamp");
    h.push("circuit_name");
    h.push("backend_name");
    h.push("backend_version");
    h.push("git_sha");
    h.push("nargo_version");
    h.push("warmup");
    h.push("iterations");
    h.push("compile_mean_ms");
    h.push("compile_stddev_ms");
    h.push("witness_mean_ms");
    h.push("witness_stddev_ms");
    h.push("prove_mean_ms");
    h.push("prove_stddev_ms");
    h.push("verify_mean_ms");
    h.push("verify_stddev_ms");
    h.push("proof_size_bytes");
    h.push("pk_size_bytes");
    h.push("vk_size_bytes");
    h.push("gate_count");
    h.push("subgroup_size");
    h.push("peak_rss_mb");
    h
}

/// An optional string column: the value or the empty string.
fn col_opt_string(v: &Option<String>) -> (r: String)
    ensures
        v matches Some(s) ==> r@ == s@,
        v is None ==> r@.len() == 0,
{
    match v {
        Some(s) => s.clone(),
        None => String::new(),
    }
}

/// An optional count column: the decimal value or the empty string.
fn col_opt_u64(v: Option<u64>) -> (r: String)
    ensures
        v matches Some(x) ==> r@ == dec_digits(x as nat),
        v is None ==> r@.len() == 0,
{
    match v {
        Some(x) => u64_to_string(x),
        None => String::new(),
    }
}

/// The mean of a timing statistic with three decimals, or empty.
fn col_stat_mean(v: &Option<TimingStat>) -> (r: String)
    ensures
        v matches Some(s) ==> r@ == milli_3dp(s.mean_ms as nat),
        v is None ==> r@.len() == 0,
{
    match v {
        Some(s) => {
            let mut out = String::new();
            push_milli_3dp(&mut out, s.mean_ms);
            out
        },
        None => String::new(),
    }
}

/// The standard deviation of a timing statistic with three decimals, or
/// empty when the statistic or the deviation is absent.
fn col_stat_stddev(v: &Option<TimingStat>) -> (r: String)
    ensures
        (v matches Some(s) && s.stddev_ms is Some) ==> r@ == milli_3dp(
            v->Some_0.stddev_ms->Some_0 as nat,
        ),
        (v matches Some(s) && s.stddev_ms is None) ==> r@.len() == 0,
        v is None ==> r@.len() == 0,
{
    match v {
        Some(s) => {
            match s.stddev_ms {
                Some(d) => {
                    let mut out = String::new();
                    push_milli_3dp(&mut out, d);
                    out
                },
                None => String::new(),
            }
        },
        None => String::new(),
    }
}

/// An optional string column renders the value, or nothing.
pub open spec fn opt_string_col(v: Option<String>, col: Seq<char>) -> bool {
    match v {
        Option::Some(s) => col == s@,
        Option::None => col.len() == 0,
    }
}

/// An optional count column renders the decimal value, or nothing.
pub open spec fn opt_count_col(v: Option<u64>, col: Seq<char>) -> bool {
    match v {
        Option::Some(x) => col == dec_digits(x as nat),
        Option::None => col.len() == 0,
    }
}

/// An optional thousandths column renders three decimals, or nothing.
pub open spec fn opt_milli_col(v: Option<u64>, col: Seq<char>) -> bool {
    match v {
        Option::Some(x) => col == milli_3dp(x as nat),
        Option::None => col.len() == 0,
    }
}

/// A timing mean column renders the statistic's mean, or nothing.
pub open spec fn mean_col(v: Option<TimingStat>, col: Seq<char>) -> bool {
    match v {
        Option::Some(s) => col == milli_3dp(s.mean_ms as nat),
        Option::None => col.len() == 0,
    }
}

/// A timing deviation column renders the statistic's deviation when both
/// are present, or nothing.
pub open spec fn stddev_col(v: Option<TimingStat>, col: Seq<char>) -> bool {
    match v {
        Option::Some(s) => match s.stddev_ms {
            Option::Some(d) => col == milli_3dp(d as nat),
            Option::None => col.len() == 0,
        },
        Option::None => col.len() == 0,
    }
}

/// CSV exporter: flattens records to the deterministic column order above.
#[derive(Debug, Clone)]
pub struct CsvExporter {}

impl CsvExporter {
    /// A new exporter.
    pub fn new() -> (r: CsvExporter) {
        CsvExporter {  }
    }

    /// Converts one record to its row of column values, aligned with
    /// `csv_headers`.  Timing columns carry three decimals; the peak
    /// memory column carries three as well, in megabytes; absent values
    /// are empty.
    pub fn record_to_row(&self, record: &BenchRecord) -> (r: Vec<String>)
        ensures
            r@.len() == 24,
            r@[0]@ == dec_digits(record.schema_version as nat),
            r@[1]@ == record.record_id@,
            r@[2]@ == record.timestamp@,
            r@[3]@ == record.circuit_name@,
            r@[4]@ == record.backend.name@,
            opt_string_col(record.backend.version, r@[5]@),
            opt_string_col(record.env.git_sha, r@[6]@),
            opt_string_col(record.env.nargo_version, r@[7]@),
            r@[8]@ == dec_digits(record.config.warmup_iterations as nat),
            r@[9]@ == dec_digits(record.config.measured_iterations as nat),
            mean_col(record.compile_stats, r@[10]@),
            stddev_col(record.compile_stats, r@[11]@),
            mean_col(record.witness_stats, r@[12]@),
            stddev_col(record.witness_stats, r@[13]@),
            mean_col(record.prove_stats, r@[14]@),
            stddev_col(record.prove_stats, r@[15]@),
            mean_col(record.verify_stats, r@[16]@),
            stddev_col(record.verify_stats, r@[17]@),
            opt_count_col(record.proof_size_bytes, r@[18]@),
            opt_count_col(record.proving_key_size_bytes, r@[19]@),
            opt_count_col(record.verification_key_size_bytes, r@[20]@),
            opt_count_col(record.total_gates, r@[21]@),
            opt_count_col(record.subgroup_size, r@[22]@),
            opt_milli_col(record.peak_rss_mb, r@[23]@),
    {
        let mut row: Vec<String> = Vec::new();
        row.push(u64_to_string(record.schema_version as u64));
        row.push(record.record_id.clone());
        row.push(record.timestamp.clone());
        row.push(record.circuit_name.clone());
        row.push(record.backend.name.clone());
        row.push(col_opt_string(&record.backend.version));
        row.push(col_opt_string(&record.env.git_sha));
        row.push(col_opt_string(&record.env.nargo_version));
        row.push(u64_to_string(record.config.warmup_iterations as u64));
        row.push(u64_to_string(record.config.measured_iterations as u64));
        row.push(col_stat_mean(&record.compile_stats));
        row.push(col_stat_stddev(&record.compile_stats));
        row.push(col_stat_mean(&record.witness_stats));
        row.push(col_stat_stddev(&record.witness_stats));
        row.push(col_stat_mean(&record.prove_stats));
        row.push(col_stat_stddev(&record.prove_stats));
        row.push(col_stat_mean(&record.verify_stats));
        row.push(col_stat_stddev(&record.verify_stats));
        row.push(col_opt_u64(record.proof_size_bytes));
        row.push(col_opt_u64(record.proving_key_size_bytes));
        row.push(col_opt_u64(record.verification_key_size_bytes));
        row.push(col_opt_u64(record.total_gates));
        row.push(col_opt_u64(record.subgroup_size));
        match record.peak_rss_mb {
            Some(mb) => {
                let mut out = String::new();
                push_milli_3dp(&mut out, mb);
                row.push(out);
            },
            None => {
                row.push(String::new());
            },
        }
        row
    }
}

impl Default for CsvExporter {
    /// The default exporter.
    fn default() -> (r: CsvExporter) {
        CsvExporter::new()
    }
}

/// Joins column values with commas and a trailing newline; used by the
/// export and by the append-only logger.
pub fn csv_line(cols: &Vec<String>) -> (r: String)
    ensures
        cols@.len() == 0 ==> r@ == seq!['\n'],
{
    let mut out = String::new();
    let mut i: usize = 0;
    while i < cols.len()
        invariant
            i <= cols@.len(),
            i == 0 ==> out@.len() == 0,
        decreases cols@.len() - i,
    {
        if i > 0 {
            push_char(&mut out, ',');
        }
        s_append(&mut out, cols[i].as_str());
        i = i + 1;
    }
    push_char(&mut out, '\n');
    proof {
        if cols@.len() == 0 {
            assert(out@ =~= seq!['\n']);
        }
    }
    out
}

/// The identity of a JSONL store: one JSON object per line under this
/// path.  The appends and reads run outside the library and accept a
/// record only after `validate_schema_version` passes.
#[derive(Debug, Clone)]
pub struct JsonlWriter {
    /// Path of the JSONL file.
    pub path: String,
}

impl JsonlWriter {
    /// A store identity for the given path.
    pub fn new(path: &str) -> (r: JsonlWriter)
        ensures
            r.path@ == path@,
    {
        JsonlWriter { path: path.to_owned() }
    }

    /// The path of the JSONL file.
    pub fn path(&self) -> (r: &str)
        ensures
            r@ == self.path@,
    {
        self.path.as_str()
    }
}

/// The append-only CSV logger's identity and line shape.
#[derive(Debug, Clone)]
pub struct CsvLogger {
    /// Path of the log file.
    pub path: String,
    /// Whether the header was already written.
    pub has_header: bool,
}

/// The header line of the benchmark log.
pub fn csv_logger_header() -> (r: &'static str)
    ensures
        r@ == "timestamp,circuit,params,backend,compile_ms,prove_ms,memory_mb,constraints,proof_size,evm_gas,status\n"@,
{
    "timestamp,circuit,params,backend,compile_ms,prove_ms,memory_mb,constraints,proof_size,evm_gas,status\n"
}

/// One row of the benchmark log, in the header's column order; absent
/// values are empty columns.
pub fn csv_logger_row(
    timestamp: &str,
    circuit: &str,
    params: Option<u64>,
    backend: &str,
    compile_ms: Option<u64>,
    prove_ms: Option<u64>,
    memory_mb: Option<u64>,
    constraints: Option<u64>,
    proof_size: Option<u64>,
    evm_gas: Option<u64>,
    status: &str,
) -> (r: String)
    ensures
        r@.len() >= timestamp@.len() + circuit@.len() + backend@.len() + status@.len() + 11,
{
    let mut line = String::new();
    s_append(&mut line, timestamp);
    push_char(&mut line, ',');
    s_append(&mut line, circuit);
    push_char(&mut line, ',');
    let params_s = col_opt_u64(params);
    s_append(&mut line, params_s.as_str());
    push_char(&mut line, ',');
    s_append(&mut line, backend);
    push_char(&mut line, ',');
    let compile_s = col_opt_u64(compile_ms);
    s_append(&mut line, compile_s.as_str());
    push_char(&mut line, ',');
    let prove_s = col_opt_u64(prove_ms);
    s_append(&mut line, prove_s.as_str());
    push_char(&mut line, ',');
    let mem_s = col_opt_u64(memory_mb);
    s_append(&mut line, mem_s.as_str());
    push_char(&mut line, ',');
    let constraints_s = col_opt_u64(constraints);
    s_append(&mut line, constraints_s.as_str());
    push_char(&mut line, ',');
    let proof_size_s = col_opt_u64(proof_size);
    s_append(&mut line, proof_size_s.as_str());
    push_char(&mut line, ',');
    let evm_gas_s = col_opt_u64(evm_gas);
    s_append(&mut line, evm_gas_s.as_str());
    push_char(&mut line, ',');
    s_append(&mut line, status);
    push_char(&mut line, '\n');
    line
}

} // verus!
