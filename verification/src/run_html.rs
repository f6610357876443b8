//! Per-run detail page generation: static HTML with no scripts, where
//! every user-controlled string passes through `html_escape`.

use vstd::prelude::*;

verus! {

use vstd::string::*;
use crate::schema::BenchRecord;
use crate::stats::TimingStat;
use crate::strutil::{push_char, s_append, push_u64, dec_digits, zero_padded};

/// The replacement for one character: the five HTML-significant characters
/// become entities, everything else passes through.
pub open spec fn escape_char(c: char) -> Seq<char> {
    if c == '&' {
        seq!['&', 'a', 'm', 'p', ';']
    } else if c == '<' {
        seq!['&', 'l', 't', ';']
    } else if c == '>' {
        seq!['&', 'g', 't', ';']
    } else if c == '"' {
        seq!['&', 'q', 'u', 'o', 't', ';']
    } else if c == '\'' {
        seq!['&', '#', 'x', '2', '7', ';']
    } else {
        seq![c]
    }
}

/// The whole string escaped character by character.
pub open spec fn escaped_of(s: Seq<char>) -> Seq<char>
    decreases s.len(),
{
    if s.len() == 0 {
        Seq::empty()
    } else {
        escaped_of(s.drop_last()) + escape_char(s.last())
    }
}

/// Escapes a string for safe insertion into HTML content: `&`, `<`, `>`,
/// `"` and `'` become entities, anything else is kept.
pub fn html_escape(s: &str) -> (r: String)
    ensures
        r@ == escaped_of(s@),
{
    let n = s.unicode_len();
    let mut out = String::new();
    let mut i: usize = 0;
    proof {
        assert(s@.subrange(0, 0) =~= Seq::<char>::empty());
        reveal_strlit("&amp;");
        reveal_strlit("&lt;");
        reveal_strlit("&gt;");
        reveal_strlit("&quot;");
        reveal_strlit("&#x27;");
    }
    while i < n
        invariant
            i <= n,
            n == s@.len(),
            out@ == escaped_of(s@.subrange(0, i as int)),
        decreases n - i,
    {
        let c = s.get_char(i);
        proof {
            let pre = s@.subrange(0, i as int);
            let post = s@.subrange(0, i + 1 as int);
            assert(post.drop_last() =~= pre);
            assert(post.last() == s@[i as int]);
            reveal_strlit("&amp;");
            reveal_strlit("&lt;");
            reveal_strlit("&gt;");
            reveal_strlit("&quot;");
            reveal_strlit("&#x27;");
            assert("&amp;"@ =~= seq!['&', 'a', 'm', 'p', ';']);
            assert("&lt;"@ =~= seq!['&', 'l', 't', ';']);
            assert("&gt;"@ =~= seq!['&', 'g', 't', ';']);
            assert("&quot;"@ =~= seq!['&', 'q', 'u', 'o', 't', ';']);
            assert("&#x27;"@ =~= seq!['&', '#', 'x', '2', '7', ';']);
        }
        if c == '&' {
            s_append(&mut out, "&amp;");
        } else if c == '<' {
            s_append(&mut out, "&lt;");
        } else if c == '>' {
            s_append(&mut out, "&gt;");
        } else if c == '"' {
            s_append(&mut out, "&quot;");
        } else if c == '\'' {
            s_append(&mut out, "&#x27;");
        } else {
            push_char(&mut out, c);
        }
        i = i + 1;
    }
    proof {
        assert(s@.subrange(0, n as int) =~= s@);
    }
    out
}

/// The replacement for one character inside an embedded JSON script block:
/// only `<` changes, to its JSON unicode escape.
pub open spec fn script_escape_char(c: char) -> Seq<char> {
    if c == '<' {
        seq!['\\', 'u', '0', '0', '3', 'c']
    } else {
        seq![c]
    }
}

/// The whole string with `<` escaped for script embedding.
pub open spec fn script_escaped_of(s: Seq<char>) -> Seq<char>
    decreases s.len(),
{
    if s.len() == 0 {
        Seq::empty()
    } else {
        script_escaped_of(s.drop_last()) + script_escape_char(s.last())
    }
}

/// Escapes already-serialized JSON for embedding inside an HTML script
/// block: `<` becomes the six-character JSON unicode escape for it, which
/// stays valid JSON and keeps any closing-tag sequence from ending the
/// block early.
pub fn escape_json_for_html_script(json: &str) -> (r: String)
    ensures
        r@ == script_escaped_of(json@),
{
    let n = json.unicode_len();
    let mut out = String::new();
    let mut i: usize = 0;
    proof {
        assert(json@.subrange(0, 0) =~= Seq::<char>::empty());
    }
    while i < n
        invariant
            i <= n,
            n == json@.len(),
            out@ == script_escaped_of(json@.subrange(0, i as int)),
        decreases n - i,
    {
        let c = json.get_char(i);
        proof {
            let pre = json@.subrange(0, i as int);
            let post = json@.subrange(0, i + 1 as int);
            assert(post.drop_last() =~= pre);
            assert(post.last() == json@[i as int]);
            reveal_strlit("\\u003c");
            assert("\\u003c"@ =~= seq!['\\', 'u', '0', '0', '3', 'c']);
        }
        if c == '<' {
            s_append(&mut out, "\\u003c");
        } else {
            push_char(&mut out, c);
        }
        i = i + 1;
    }
    proof {
        assert(json@.subrange(0, n as int) =~= json@);
    }
    out
}

/// A fixed-point value in thousandths rendered with three decimal places.
pub open spec fn milli_3dp(v: nat) -> Seq<char> {
    dec_digits(v / 1000) + seq!['.'] + zero_padded(dec_digits(v % 1000), 3)
}

/// Appends a fixed-point thousandths value as `whole.frac` with exactly
/// three fractional digits.
pub fn push_milli_3dp(out: &mut String, v: u64)
    ensures
        final(out)@ == old(out)@ + milli_3dp(v as nat),
{
    push_u64(out, v / 1000);
    push_char(out, '.');
    crate::strutil::push_u64_padded(out, v % 1000, 3);
}

/// Formats an optional count followed by a suffix; an absent value is an
/// em dash.
pub fn fmt_opt_u64(v: Option<u64>, suffix: &str) -> (r: String)
    ensures
        v matches Some(x) ==> r@ == dec_digits(x as nat) + suffix@,
        v is None ==> r@ == "—"@,
{
    match v {
        Some(x) => {
            let mut out = String::new();
            push_u64(&mut out, x);
            s_append(&mut out, suffix);
            out
        },
        None => "—".to_owned(),
    }
}

/// Formats an optional thousandths value with three decimals and a suffix;
/// an absent value is an em dash.
pub fn fmt_opt_milli(v: Option<u64>, suffix: &str) -> (r: String)
    ensures
        v matches Some(x) ==> r@ == milli_3dp(x as nat) + suffix@,
        v is None ==> r@ == "—"@,
{
    match v {
        Some(x) => {
            let mut out = String::new();
            push_milli_3dp(&mut out, x);
            s_append(&mut out, suffix);
            out
        },
        None => "—".to_owned(),
    }
}

/// Renders one timing statistic as a collapsible HTML table; an absent
/// statistic renders nothing.
pub fn render_timing_section(name: &str, stat: Option<&TimingStat>) -> (r: String)
    ensures
        stat is None ==> r@.len() == 0,
{
    match stat {
        Some(s) => {
            let mut out = String::new();
            s_append(&mut out, "<details>\n<summary>");
            let escaped = html_escape(name);
            s_append(&mut out, escaped.as_str());
            s_append(
                &mut out,
                "</summary>\n<table class=\"stat-table\">\n<tr><td>Iterations</td><td class=\"num\">",
            );
            push_u64(&mut out, s.iterations as u64);
            s_append(&mut out, "</td></tr>\n<tr><td>Mean</td><td class=\"num\">");
            push_milli_3dp(&mut out, s.mean_ms);
            s_append(&mut out, " ms</td></tr>\n<tr><td>Median</td><td class=\"num\">");
            let median = fmt_opt_milli(s.median_ms, " ms");
            s_append(&mut out, median.as_str());
            s_append(&mut out, "</td></tr>\n<tr><td>Std Dev</td><td class=\"num\">");
            let stddev = fmt_opt_milli(s.stddev_ms, " ms");
            s_append(&mut out, stddev.as_str());
            s_append(&mut out, "</td></tr>\n<tr><td>Min</td><td class=\"num\">");
            push_milli_3dp(&mut out, s.min_ms);
            s_append(&mut out, " ms</td></tr>\n<tr><td>Max</td><td class=\"num\">");
            push_milli_3dp(&mut out, s.max_ms);
            s_append(&mut out, " ms</td></tr>\n<tr><td>P95</td><td class=\"num\">");
            let p95 = fmt_opt_milli(s.p95_ms, " ms");
            s_append(&mut out, p95.as_str());
            s_append(&mut out, "</td></tr>\n</table>\n</details>");
            out
        },
        None => String::new(),
    }
}

/// The em dash placeholder for an absent string value.
fn dash() -> (r: String)
    ensures
        r@ == "—"@,
{
    "—".to_owned()
}

/// Escapes an optional string, or renders the em dash placeholder.
fn escape_opt(v: &Option<String>) -> (r: String)
    ensures
        v matches Some(s) ==> r@ == escaped_of(s@),
        v is None ==> r@ == "—"@,
{
    match v {
        Some(s) => html_escape(s.as_str()),
        None => dash(),
    }
}

/// Renders a complete per-run detail page: a summary table, environment
/// and backend sections, collapsible phase timings, and the command line.
/// Every user-controlled string is HTML-escaped; the page holds no script.
pub fn render_run_detail_html(record: &BenchRecord, slug: &str) -> (r: String)
    ensures
        r@.len() > 0,
{
    let circuit_name = html_escape(record.circuit_name.as_str());
    let record_id = html_escape(record.record_id.as_str());
    let timestamp = html_escape(record.timestamp.as_str());
    let backend_name = html_escape(record.backend.name.as_str());
    let backend_version = escape_opt(&record.backend.version);
    let backend_variant = escape_opt(&record.backend.variant);
    let os = html_escape(record.env.os.as_str());
    let cpu = escape_opt(&record.env.cpu_model);
    let cores = match record.env.cpu_cores {
        Some(v) => crate::strutil::u64_to_string(v as u64),
        None => dash(),
    };
    let ram = fmt_opt_u64(record.env.total_ram_bytes, " bytes");
    let nargo_version = escape_opt(&record.env.nargo_version);
    let hostname = escape_opt(&record.env.hostname);
    let gates = fmt_opt_u64(record.total_gates, "");
    let acir_opcodes = fmt_opt_u64(record.acir_opcodes, "");
    let subgroup_size = fmt_opt_u64(record.subgroup_size, "");
    let proof_size = fmt_opt_u64(record.proof_size_bytes, " bytes");
    let pk_size = fmt_opt_u64(record.proving_key_size_bytes, " bytes");
    let vk_size = fmt_opt_u64(record.verification_key_size_bytes, " bytes");
    let peak_rss = fmt_opt_milli(record.peak_rss_mb, " MB");
    let compile_section = render_timing_section("Compile/Load", record.compile_stats.as_ref());
    let witness_section = render_timing_section(
        "Witness Generation",
        record.witness_stats.as_ref(),
    );
    let prove_section = render_timing_section("Proving", record.prove_stats.as_ref());
    let verify_section = render_timing_section("Verification", record.verify_stats.as_ref());

    let mut cli_args = String::new();
    if record.cli_args.len() == 0 {
        cli_args = dash();
    } else {
        let mut i: usize = 0;
        while i < record.cli_args.len()
            invariant
                i <= record.cli_args@.len(),
            decreases record.cli_args@.len() - i,
        {
            if i > 0 {
                push_char(&mut cli_args, ' ');
            }
            let escaped = html_escape(record.cli_args[i].as_str());
            s_append(&mut cli_args, escaped.as_str());
            i = i + 1;
        }
    }

    let mut out = String::new();
    s_append(
        &mut out,
        "<!DOCTYPE html>\n<html lang=\"en\">\n<head>\n<meta charset=\"UTF-8\">\n<meta name=\"viewport\" content=\"width=device-width, initial-scale=1.0\">\n<title>",
    );
    s_append(&mut out, circuit_name.as_str());
    s_append(&mut out, " - ");
    let slug_escaped = html_escape(slug);
    s_append(&mut out, slug_escaped.as_str());
    s_append(
        &mut out,
        "</title>\n<style>\n* { box-sizing: border-box; margin: 0; padding: 0; }\nbody {\n  font-family: system-ui, -apple-system, sans-serif;\n  background: #1a1a2e;\n  color: #e8e8e8;\n  padding: 24px;\n  max-width: 900px;\n  margin: 0 auto;\n}\na { color: #4ecdc4; text-decoration: none; }\na:hover { text-decoration: underline; }\n.back { margin-bottom: 16px; font-size: 0.875rem; }\nh1 { font-size: 1.5rem; margin-bottom: 8px; }\n.meta { color: #9a9a9a; font-size: 0.8125rem; margin-bottom: 24px; }\n.meta code { background: #16213e; padding: 2px 6px; border-radius: 3px; font-family: monospace; }\nh2 { font-size: 1.125rem; margin: 24px 0 12px 0; color: #9a9a9a; }\ntable { width: 100%; border-collapse: collapse; font-size: 0.875rem; background: #16213e; margin-bottom: 16px; }\nth, td { padding: 8px 12px; text-align: left; border-bottom: 1px solid #2d3a5c; }\nth { background: #1a1a2e; color: #9a9a9a; font-weight: 600; font-size: 0.75rem; text-transform: uppercase; }\n.num { text-align: right; font-family: monospace; }\n.stat-table { margin: 8px 0 8px 16px; width: auto; }\n.stat-table td { padding: 4px 12px; }\ndetails { margin: 8px 0; }\nsummary { cursor: pointer; padding: 8px; background: #16213e; border-radius: 4px; }\nsummary:hover { background: #1f2b47; }\npre { background: #16213e; padding: 16px; border-radius: 4px; overflow-x: auto; font-size: 0.75rem; line-height: 1.4; white-space: pre-wrap; word-break: break-all; }\n.ok { color: #4ecdc4; }\n.error { color: #ff6b6b; }\n</style>\n</head>\n<body>\n<div class=\"back\"><a href=\"../index.html\">&larr; Back to History</a></div>\n<h1>",
    );
    s_append(&mut out, circuit_name.as_str());
    s_append(&mut out, "</h1>\n<div class=\"meta\">\n  <code>");
    s_append(&mut out, record_id.as_str());
    s_append(&mut out, "</code> &middot; ");
    s_append(&mut out, timestamp.as_str());
    s_append(
        &mut out,
        "\n</div>\n\n<h2>Summary</h2>\n<table>\n<tr><th>Metric</th><th class=\"num\">Value</th></tr>\n<tr><td>Total Gates</td><td class=\"num\">",
    );
    s_append(&mut out, gates.as_str());
    s_append(&mut out, "</td></tr>\n<tr><td>ACIR Opcodes</td><td class=\"num\">");
    s_append(&mut out, acir_opcodes.as_str());
    s_append(&mut out, "</td></tr>\n<tr><td>Subgroup Size</td><td class=\"num\">");
    s_append(&mut out, subgroup_size.as_str());
    s_append(&mut out, "</td></tr>\n<tr><td>Proof Size</td><td class=\"num\">");
    s_append(&mut out, proof_size.as_str());
    s_append(&mut out, "</td></tr>\n<tr><td>Proving Key Size</td><td class=\"num\">");
    s_append(&mut out, pk_size.as_str());
    s_append(&mut out, "</td></tr>\n<tr><td>Verification Key Size</td><td class=\"num\">");
    s_append(&mut out, vk_size.as_str());
    s_append(&mut out, "</td></tr>\n<tr><td>Peak RSS</td><td class=\"num\">");
    s_append(&mut out, peak_rss.as_str());
    s_append(
        &mut out,
        "</td></tr>\n</table>\n\n<h2>Environment</h2>\n<table>\n<tr><th>Property</th><th>Value</th></tr>\n<tr><td>OS</td><td>",
    );
    s_append(&mut out, os.as_str());
    s_append(&mut out, "</td></tr>\n<tr><td>Hostname</td><td>");
    s_append(&mut out, hostname.as_str());
    s_append(&mut out, "</td></tr>\n<tr><td>CPU</td><td>");
    s_append(&mut out, cpu.as_str());
    s_append(&mut out, "</td></tr>\n<tr><td>Cores</td><td>");
    s_append(&mut out, cores.as_str());
    s_append(&mut out, "</td></tr>\n<tr><td>RAM</td><td>");
    s_append(&mut out, ram.as_str());
    s_append(&mut out, "</td></tr>\n<tr><td>Nargo Version</td><td>");
    s_append(&mut out, nargo_version.as_str());
    s_append(
        &mut out,
        "</td></tr>\n</table>\n\n<h2>Backend</h2>\n<table>\n<tr><th>Property</th><th>Value</th></tr>\n<tr><td>Name</td><td>",
    );
    s_append(&mut out, backend_name.as_str());
    s_append(&mut out, "</td></tr>\n<tr><td>Version</td><td>");
    s_append(&mut out, backend_version.as_str());
    s_append(&mut out, "</td></tr>\n<tr><td>Variant</td><td>");
    s_append(&mut out, backend_variant.as_str());
    s_append(
        &mut out,
        "</td></tr>\n</table>\n\n<h2>Run Config</h2>\n<table>\n<tr><th>Property</th><th class=\"num\">Value</th></tr>\n<tr><td>Warmup Iterations</td><td class=\"num\">",
    );
    push_u64(&mut out, record.config.warmup_iterations as u64);
    s_append(&mut out, "</td></tr>\n<tr><td>Measured Iterations</td><td class=\"num\">");
    push_u64(&mut out, record.config.measured_iterations as u64);
    s_append(&mut out, "</td></tr>\n<tr><td>Timeout</td><td class=\"num\">");
    let timeout = fmt_opt_u64(record.config.timeout_secs, " s");
    s_append(&mut out, timeout.as_str());
    s_append(&mut out, "</td></tr>\n</table>\n\n<h2>Phases</h2>\n");
    s_append(&mut out, compile_section.as_str());
    push_char(&mut out, '\n');
    s_append(&mut out, witness_section.as_str());
    push_char(&mut out, '\n');
    s_append(&mut out, prove_section.as_str());
    push_char(&mut out, '\n');
    s_append(&mut out, verify_section.as_str());
    s_append(&mut out, "\n\n<details>\n<summary>CLI Arguments</summary>\n<pre>");
    s_append(&mut out, cli_args.as_str());
    s_append(&mut out, "</pre>\n</details>\n\n</body>\n</html>");
    proof {
        reveal_strlit("</pre>\n</details>\n\n</body>\n</html>");
    }
    out
}

} // verus!
