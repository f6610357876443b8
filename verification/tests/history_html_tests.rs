//! The static history page: determinism, structure and script safety.

use noir_bench::history::render_history_html;

#[test]
fn test_html_is_deterministic() {
    let html1 = render_history_html();
    let html2 = render_history_html();
    assert_eq!(html1, html2);
}

#[test]
fn test_html_deterministic_bytes() {
    let html1 = render_history_html();
    let html2 = render_history_html();
    assert_eq!(
        html1.as_bytes(),
        html2.as_bytes(),
        "HTML output should be byte-for-byte identical"
    );
}

#[test]
fn test_html_structure() {
    let html = render_history_html();
    assert!(html.contains("<!DOCTYPE html>"));
    assert!(html.contains("fetch('./index.json')"));
    assert!(html.contains("<table"));
    assert!(html.contains("</table>"));
}

#[test]
fn test_html_no_external_assets() {
    let html = render_history_html();

    assert!(!html.contains("href=\"http"));
    assert!(!html.contains("src=\"http"));
    assert!(!html.contains("<link"));

    assert!(html.contains("<style>"));
    assert!(html.contains("</style>"));
}

#[test]
fn test_html_has_required_columns() {
    let html = render_history_html();

    assert!(html.contains(">Timestamp<"));
    assert!(html.contains(">Circuit<"));
    assert!(html.contains(">Backend<"));
    assert!(html.contains(">Status<"));
    assert!(html.contains(">prove_p50_ms<"));
    assert!(html.contains(">prove_p95_ms<"));
    assert!(html.contains(">gates<"));
    assert!(html.contains(">Details<"));
}

#[test]
fn test_html_has_detail_link_support() {
    let html = render_history_html();

    assert!(html.contains("r.detail_href"), "Should check for detail_href");
    assert!(
        html.contains("link.href = r.detail_href"),
        "Should set link href from detail_href"
    );
    assert!(
        html.contains("link.textContent = 'View'"),
        "Should use textContent for link text"
    );
}

#[test]
fn test_html_has_chart_controls() {
    let html = render_history_html();

    assert!(html.contains("id=\"metric-select\""));
    assert!(html.contains("<select id=\"metric-select\""));

    assert!(html.contains("id=\"circuit-filter\""));
    assert!(html.contains("<input type=\"text\" id=\"circuit-filter\""));

    assert!(html.contains("id=\"row-limit\""));
    assert!(html.contains("<input type=\"number\" id=\"row-limit\""));

    assert!(html.contains("id=\"chart-container\""));
    assert!(html.contains("id=\"chart-svg\""));
    assert!(html.contains("id=\"chart-message\""));

    assert!(html.contains("id=\"controls\""));
}

#[test]
fn test_html_chart_metrics_defined() {
    let html = render_history_html();

    assert!(html.contains("'prove_ms_p50'"));
    assert!(html.contains("'prove_ms_p95'"));
    assert!(html.contains("'verify_ms_p50'"));
    assert!(html.contains("'gates'"));
    assert!(html.contains("'peak_rss_bytes'"));
}

#[test]
fn test_html_svg_uses_safe_dom_apis() {
    let html = render_history_html();

    assert!(html.contains("createElementNS"));
    assert!(html.contains("setAttribute"));
    assert!(html.contains("http://www.w3.org/2000/svg"));

    assert!(html.contains("createElementNS(ns, 'line')"));
    assert!(html.contains("createElementNS(ns, 'polyline')"));
    assert!(html.contains("createElementNS(ns, 'circle')"));
    assert!(html.contains("createElementNS(ns, 'text')"));

    assert!(html.contains("svg.removeChild(svg.firstChild)"));
}

#[test]
fn test_html_chart_shows_not_enough_data_message() {
    let html = render_history_html();

    assert!(html.contains("Not enough data"));
    assert!(html.contains("need at least 2 points"));
}

#[test]
fn test_html_has_row_limit_control() {
    let html = render_history_html();

    assert!(html.contains("DEFAULT_ROW_LIMIT = 500"));
    assert!(html.contains("id=\"row-limit\""));
    assert!(html.contains("<input type=\"number\" id=\"row-limit\""));
    assert!(html.contains("value=\"500\""));
    assert!(html.contains("id=\"limit-info\""));
    assert!(html.contains("function getRowLimit()"));
    assert!(html.contains("function getLimitedRecords("));
    assert!(html.contains("limitInfo.textContent ="));
    assert!(html.contains("getElementById('row-limit').addEventListener"));
}

#[test]
fn test_html_row_limit_uses_slice_not_mutation() {
    let html = render_history_html();

    assert!(html.contains("filtered.slice(0, limit)"));
    assert!(html.contains("records: filtered"));
    assert!(html.contains("total: filtered.length"));
    assert!(html.contains("limited: false") && html.contains("limited: true"));
}

#[test]
fn test_html_limit_message_format() {
    let html = render_history_html();

    assert!(html.contains("Showing first"));
    assert!(html.contains("increase limit to see more"));
}

#[test]
fn test_html_uses_textcontent_for_safety() {
    let html = render_history_html();

    let textcontent_count = html.matches(".textContent =").count();
    assert!(
        textcontent_count >= 8,
        "Should use textContent for all data columns plus status and error"
    );

    assert!(!html.contains("innerHTML = r."));
    assert!(!html.contains("innerHTML = m."));
}
