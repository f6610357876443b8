//! The decision core of the subprocess supervisor.
//!
//! The supervisor polls a child process at a fixed interval; each poll
//! observes whether the child exited and, optionally, a memory sample.
//! What to do next — return, keep waiting, or kill on deadline — is decided
//! here, so the loop around the real process only performs the action.

use vstd::prelude::*;

verus! {

/// The polling interval of the supervisor, in milliseconds.
pub const POLL_INTERVAL_MS: u64 = 50;

/// Supervisor configuration: the wall-clock deadline and whether memory is
/// sampled.  A timeout of zero means no deadline.
#[derive(Debug, Clone, PartialEq, Eq, Structural)]
pub struct RunnerConfig {
    /// Wall-clock timeout in milliseconds; zero disables the deadline.
    pub timeout_ms: u64,
    /// Whether resident memory is sampled at each poll.
    pub sample_memory: bool,
}

/// What one poll observed of the child.
#[derive(Debug, Clone, PartialEq, Eq, Structural)]
pub struct PollObservation {
    /// Milliseconds elapsed since the child was spawned.
    pub elapsed_ms: u64,
    /// The exit code, when the child has exited.
    pub exit_code: Option<i32>,
    /// A resident-memory sample in bytes, when sampling is enabled and a
    /// sample was available.
    pub memory_sample: Option<u64>,
}

/// What the supervisor does after one poll.
#[derive(Debug, Clone, PartialEq, Eq, Structural)]
pub enum PollDecision {
    /// The child exited: report its exit code, the peak memory and the
    /// elapsed time.
    Finished { exit_code: i32, peak_memory_bytes: Option<u64>, elapsed_ms: u64 },
    /// The deadline passed with the child alive: kill it and report a
    /// timeout.
    KillTimeout,
    /// Keep waiting, carrying the updated peak memory.
    KeepWaiting { peak_memory_bytes: Option<u64> },
}

/// The running maximum of the peak memory and a new sample.
pub open spec fn peak_after(peak: Option<u64>, sample: Option<u64>) -> Option<u64> {
    match (peak, sample) {
        (Option::None, Option::None) => Option::None,
        (Option::Some(p), Option::None) => Option::Some(p),
        (Option::None, Option::Some(s)) => Option::Some(s),
        (Option::Some(p), Option::Some(s)) => Option::Some(
            if s > p {
                s
            } else {
                p
            },
        ),
    }
}

/// Decides one poll step.
///
/// An exited child always finishes, with the peak memory folded from the
/// final sample.  A live child past a nonzero deadline is killed; zero
/// disables the deadline entirely, so the supervisor then never kills.
pub fn poll_step(config: &RunnerConfig, peak: Option<u64>, obs: &PollObservation) -> (r:
    PollDecision)
    ensures
        r == poll_decision_of(*config, peak, *obs),
{
    let folded: Option<u64> = match (peak, obs.memory_sample) {
        (None, None) => None,
        (Some(p), None) => Some(p),
        (None, Some(s)) => Some(s),
        (Some(p), Some(s)) => Some(
            if s > p {
                s
            } else {
                p
            },
        ),
    };
    match obs.exit_code {
        Some(code) => PollDecision::Finished {
            exit_code: code,
            peak_memory_bytes: folded,
            elapsed_ms: obs.elapsed_ms,
        },
        None => {
            if config.timeout_ms > 0 && obs.elapsed_ms >= config.timeout_ms {
                PollDecision::KillTimeout
            } else {
                PollDecision::KeepWaiting { peak_memory_bytes: folded }
            }
        },
    }
}

/// The timeout law of the supervisor: with a nonzero deadline, any poll
/// that observes a live child at or past the deadline decides to kill, so
/// a child that never exits is killed within one polling interval of the
/// deadline.
pub proof fn lemma_timeout_kills(config: RunnerConfig, peak: Option<u64>, obs: PollObservation)
    requires
        config.timeout_ms > 0,
        obs.exit_code is None,
        obs.elapsed_ms >= config.timeout_ms,
    ensures
        poll_decision_of(config, peak, obs) == PollDecision::KillTimeout,
{
}

/// The decision as a specification-level function of its inputs.
pub open spec fn poll_decision_of(
    config: RunnerConfig,
    peak: Option<u64>,
    obs: PollObservation,
) -> PollDecision {
    match obs.exit_code {
        Option::Some(code) => PollDecision::Finished {
            exit_code: code,
            peak_memory_bytes: peak_after(peak, obs.memory_sample),
            elapsed_ms: obs.elapsed_ms,
        },
        Option::None => {
            if config.timeout_ms > 0 && obs.elapsed_ms >= config.timeout_ms {
                PollDecision::KillTimeout
            } else {
                PollDecision::KeepWaiting { peak_memory_bytes: peak_after(peak, obs.memory_sample) }
            }
        },
    }
}

} // verus!
