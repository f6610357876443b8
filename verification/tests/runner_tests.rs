//! The subprocess supervisor's decision core.

use noir_bench::runner::{
    POLL_INTERVAL_MS, PollDecision, PollObservation, RunnerConfig, poll_step,
};

fn config(timeout_ms: u64) -> RunnerConfig {
    RunnerConfig { timeout_ms, sample_memory: true }
}

#[test]
fn test_poll_step_finished() {
    let obs = PollObservation { elapsed_ms: 120, exit_code: Some(0), memory_sample: Some(4096) };
    let decision = poll_step(&config(1000), Some(1000), &obs);
    assert_eq!(
        decision,
        PollDecision::Finished { exit_code: 0, peak_memory_bytes: Some(4096), elapsed_ms: 120 }
    );
}

#[test]
fn test_poll_step_timeout_kills_within_interval() {
    // A child that never exits is killed on the first poll at or past the
    // deadline; polls happen every POLL_INTERVAL_MS, so the kill comes
    // within one interval of the deadline.
    let deadline: u64 = 1000;
    let obs = PollObservation {
        elapsed_ms: deadline + POLL_INTERVAL_MS - 1,
        exit_code: None,
        memory_sample: None,
    };
    let decision = poll_step(&config(deadline), None, &obs);
    assert_eq!(decision, PollDecision::KillTimeout);
}

#[test]
fn test_poll_step_keeps_waiting_before_deadline() {
    let obs = PollObservation { elapsed_ms: 999, exit_code: None, memory_sample: Some(100) };
    let decision = poll_step(&config(1000), Some(200), &obs);
    assert_eq!(decision, PollDecision::KeepWaiting { peak_memory_bytes: Some(200) });
}

#[test]
fn test_poll_step_zero_timeout_never_kills() {
    let obs = PollObservation {
        elapsed_ms: u64::MAX,
        exit_code: None,
        memory_sample: None,
    };
    let decision = poll_step(&config(0), None, &obs);
    assert_eq!(decision, PollDecision::KeepWaiting { peak_memory_bytes: None });
}

#[test]
fn test_poll_step_tracks_peak_memory() {
    let obs = PollObservation { elapsed_ms: 10, exit_code: None, memory_sample: Some(500) };
    let decision = poll_step(&config(0), Some(300), &obs);
    assert_eq!(decision, PollDecision::KeepWaiting { peak_memory_bytes: Some(500) });

    let obs2 = PollObservation { elapsed_ms: 20, exit_code: Some(1), memory_sample: Some(100) };
    let decision2 = poll_step(&config(0), Some(500), &obs2);
    assert_eq!(
        decision2,
        PollDecision::Finished { exit_code: 1, peak_memory_bytes: Some(500), elapsed_ms: 20 }
    );
}
