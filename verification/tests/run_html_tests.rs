//! HTML escaping and the per-run detail page.

use noir_bench::run_html::{escape_json_for_html_script, fmt_opt_u64, html_escape, render_run_detail_html, render_timing_section};
use noir_bench::schema::{BackendInfo, BenchRecord, EnvironmentInfo, RunConfig};
use noir_bench::stats::TimingStat;

#[test]
fn test_html_escape_basic() {
    assert_eq!(html_escape("hello"), "hello");
    assert_eq!(html_escape("<script>"), "&lt;script&gt;");
    assert_eq!(html_escape("a & b"), "a &amp; b");
    assert_eq!(html_escape("\"quoted\""), "&quot;quoted&quot;");
    assert_eq!(html_escape("it's"), "it&#x27;s");
}

#[test]
fn test_html_escape_xss_vectors() {
    assert_eq!(
        html_escape("<script>alert('xss')</script>"),
        "&lt;script&gt;alert(&#x27;xss&#x27;)&lt;/script&gt;"
    );
    assert_eq!(
        html_escape("<img src=x onerror=alert(1)>"),
        "&lt;img src=x onerror=alert(1)&gt;"
    );
    assert_eq!(
        html_escape("</script><script>alert(1)</script>"),
        "&lt;/script&gt;&lt;script&gt;alert(1)&lt;/script&gt;"
    );
    assert_eq!(html_escape("javascript:alert(1)"), "javascript:alert(1)");
}

#[test]
fn test_html_escape_unicode() {
    assert_eq!(html_escape("日本語"), "日本語");
    assert_eq!(html_escape("émoji 🎉"), "émoji 🎉");
}

#[test]
fn test_fmt_opt_u64_values() {
    assert_eq!(fmt_opt_u64(Some(50000), ""), "50000");
    assert_eq!(fmt_opt_u64(Some(2048), " bytes"), "2048 bytes");
    assert_eq!(fmt_opt_u64(None, " bytes"), "—");
}

fn make_test_record() -> BenchRecord {
    let mut record = BenchRecord::new(
        "test_circuit".to_string(),
        EnvironmentInfo::default(),
        BackendInfo {
            name: "bb".to_string(),
            version: Some("0.62.0".to_string()),
            variant: None,
        },
        RunConfig::default(),
    );
    record.timestamp = "2024-01-15T12:00:00Z".to_string();
    record.record_id = "test-record-id".to_string();
    record.prove_stats = Some(TimingStat::from_samples(&vec![100, 110, 120]));
    record.total_gates = Some(50000);
    record
}

#[test]
fn test_render_run_detail_html_structure() {
    let record = make_test_record();
    let html = render_run_detail_html(&record, "run_000001");

    assert!(html.contains("<!DOCTYPE html>"));
    assert!(html.contains("<html lang=\"en\">"));
    assert!(html.contains("</html>"));

    assert!(
        !html.contains("<script"),
        "Detail page should have no JavaScript"
    );

    assert!(html.contains("<title>test_circuit - run_000001</title>"));
    assert!(html.contains("Back to History"));
    assert!(html.contains("Summary"));
    assert!(html.contains("Environment"));
    assert!(html.contains("Backend"));
    assert!(html.contains("Phases"));

    assert!(html.contains("<details>"));
    assert!(html.contains("<summary>"));
}

#[test]
fn test_render_run_detail_html_deterministic() {
    let record = make_test_record();
    let html1 = render_run_detail_html(&record, "run_000001");
    let html2 = render_run_detail_html(&record, "run_000001");
    assert_eq!(html1, html2, "Detail page rendering must be deterministic");
}

#[test]
fn test_render_run_detail_html_escapes_xss() {
    let mut record = make_test_record();
    record.circuit_name = "<script>alert('xss')</script>".to_string();
    record.record_id = "<img onerror=alert(1)>".to_string();

    let html = render_run_detail_html(&record, "run_000001");

    assert!(!html.contains("<script>alert"));
    assert!(!html.contains("<img onerror"));
    assert!(html.contains("&lt;script&gt;"));
    assert!(html.contains("&lt;img onerror"));
}

#[test]
fn test_render_run_detail_html_back_link() {
    let record = make_test_record();
    let html = render_run_detail_html(&record, "run_000001");

    assert!(html.contains("href=\"../index.html\""));
}

#[test]
fn test_render_timing_section_values() {
    let stat = TimingStat::from_samples(&vec![100, 110, 120]);
    let html = render_timing_section("Proving", Some(&stat));
    assert!(html.contains("<summary>Proving</summary>"));
    assert!(html.contains("110.000 ms"));
    assert!(html.contains("100.000 ms"));
    assert!(html.contains("120.000 ms"));
    assert_eq!(render_timing_section("x", None), "");
}

#[test]
fn test_escape_json_for_html_script() {
    assert_eq!(
        escape_json_for_html_script("{\"a\":\"</script>\"}"),
        "{\"a\":\"\\u003c/script>\"}"
    );
    assert_eq!(escape_json_for_html_script("{\"n\":1}"), "{\"n\":1}");
}
