//! Gas extraction and latency estimation.

use noir_bench::evm::{estimate_latency_ms, read_gas_from_snapshot_text, read_gas_from_stdout};

#[test]
fn test_read_gas_from_stdout_basic() {
    assert_eq!(read_gas_from_stdout("gas: 123456"), Some(123456));
    assert_eq!(read_gas_from_stdout("before gas: 1_000_000 after"), Some(1000000));
    assert_eq!(read_gas_from_stdout("no marker here"), None);
    assert_eq!(read_gas_from_stdout("gas: nothing"), None);
}

#[test]
fn test_read_gas_from_snapshot_lines() {
    let contents = "testOther() (gas: 111)\ntestVerify() (gas: 22_500)\n";
    assert_eq!(read_gas_from_snapshot_text(contents, &None), Some(111));
    assert_eq!(
        read_gas_from_snapshot_text(contents, &Some("testVerify".to_string())),
        Some(22500)
    );
    assert_eq!(
        read_gas_from_snapshot_text(contents, &Some("missing".to_string())),
        None
    );
}

#[test]
fn test_estimate_latency_ms_values() {
    // 1_250_000 gas at 1_250_000 gas/s is one second.
    assert_eq!(estimate_latency_ms(1_250_000, 1_250_000), 1000);
    // Rounded to nearest: 625_000 gas is half a second.
    assert_eq!(estimate_latency_ms(625_000, 1_250_000), 500);
    // A zero rate estimates zero.
    assert_eq!(estimate_latency_ms(1_000_000, 0), 0);
}

#[test]
fn test_read_gas_overflow_and_separators() {
    // Separators are skipped inside the run; the run stops at the first
    // other character.
    assert_eq!(read_gas_from_stdout("gas: 1_2_3)"), Some(123));
    // A figure that cannot fit yields nothing rather than a wrong value.
    assert_eq!(read_gas_from_stdout("gas: 99999999999999999999999"), None);
    // Whitespace after the marker is skipped, but a non-digit ends it.
    assert_eq!(read_gas_from_stdout("gas:   \t42"), Some(42));
    assert_eq!(read_gas_from_stdout("gas: x42"), None);
}
