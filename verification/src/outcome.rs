//! Classification of how one supervised probe run ended.
//!
//! The embedding loop reports two plain facts per cycle — what the blocking
//! wait on the child returned, and what the watchdog did — and the functions
//! here turn them into the immutable outcome record of the cycle.

use vstd::prelude::*;

verus! {

/// What the blocking wait on the probe process returned.
#[derive(Clone, Copy, Debug, PartialEq, Eq, Structural)]
pub enum WaitEvent {
    /// The process exited on its own with this exit code.
    Exited(i32),
    /// The process was terminated by this signal.
    Signaled(i32),
    /// The wait call itself failed.
    WaitFailed,
}

/// What the watchdog did about the probe this cycle.
#[derive(Clone, Copy, Debug, PartialEq, Eq, Structural)]
pub enum KillReport {
    /// The watchdog found the probe already gone and sent nothing.
    NotAttempted,
    /// The watchdog sent the kill signal.
    Delivered,
    /// The watchdog found the probe still running at the deadline, tried to
    /// send the kill signal, and the delivery failed: the probe could not be
    /// terminated.  (A probe that vanished between the poll and the kill is
    /// a benign outcome, reported as `NotAttempted`, not as a failure.)
    DeliveryFailed,
}

/// Why the run ended.
#[derive(Clone, Copy, Debug, PartialEq, Eq, Structural)]
pub enum TerminationReason {
    /// The probe ended without the watchdog killing it.
    Exited,
    /// The watchdog killed the probe at the timeout deadline.
    KilledByTimeout,
    /// The probe's status could not be observed.
    WaitError,
}

/// The immutable record of one cycle, handed to the reporting collaborators.
#[derive(Clone, Copy, Debug)]
pub struct RunOutcome {
    /// Exit code of the probe; absent when it was killed or unobservable.
    pub exit_code: Option<i32>,
    /// Wall-clock duration of the run, in milliseconds.
    pub duration_ms: u64,
    /// Why the run ended.
    pub reason: TerminationReason,
    /// The kill signal was needed and its delivery failed.
    pub kill_failed: bool,
}

/// The outcome of a run, given the wait result and the watchdog's report.
///
/// A kill whose delivery failed dominates: the probe was still running at
/// the deadline and could not be terminated, so the cycle reports
/// `KilledByTimeout` annotated with the kill-failure flag, whatever the wait
/// later returned.  Otherwise an observed natural exit is authoritative: it
/// is reported as `Exited` with its real code, even when the watchdog's
/// kill raced it at the deadline.  A death by signal counts as
/// `KilledByTimeout` exactly when the watchdog delivered the kill; when the
/// watchdog sent nothing, something outside this runner signaled the probe
/// and the run still counts as ended on its own, with no exit code to
/// report.
pub open spec fn spec_classify(wait: WaitEvent, kill: KillReport, duration_ms: u64) -> RunOutcome {
    if kill is DeliveryFailed {
        RunOutcome {
            exit_code: None,
            duration_ms: duration_ms,
            reason: TerminationReason::KilledByTimeout,
            kill_failed: true,
        }
    } else {
        RunOutcome {
            exit_code: match wait {
                WaitEvent::Exited(c) => Some(c),
                WaitEvent::Signaled(_) => None,
                WaitEvent::WaitFailed => None,
            },
            duration_ms: duration_ms,
            reason: match wait {
                WaitEvent::Exited(_) => TerminationReason::Exited,
                WaitEvent::Signaled(_) => if kill is Delivered {
                    TerminationReason::KilledByTimeout
                } else {
                    TerminationReason::Exited
                },
                WaitEvent::WaitFailed => TerminationReason::WaitError,
            },
            kill_failed: false,
        }
    }
}

/// Builds the outcome record of one run.
pub fn classify_outcome(wait: &WaitEvent, kill: &KillReport, duration_ms: u64) -> (o: RunOutcome)
    ensures
        o == spec_classify(*wait, *kill, duration_ms),
{
    if matches!(kill, KillReport::DeliveryFailed) {
        return RunOutcome {
            exit_code: None,
            duration_ms,
            reason: TerminationReason::KilledByTimeout,
            kill_failed: true,
        };
    }
    let exit_code: Option<i32> = match wait {
        WaitEvent::Exited(c) => Some(*c),
        WaitEvent::Signaled(_) => None,
        WaitEvent::WaitFailed => None,
    };
    let reason: TerminationReason = match wait {
        WaitEvent::Exited(_) => TerminationReason::Exited,
        WaitEvent::Signaled(_) => match kill {
            KillReport::Delivered => TerminationReason::KilledByTimeout,
            KillReport::NotAttempted => TerminationReason::Exited,
            KillReport::DeliveryFailed => TerminationReason::KilledByTimeout,
        },
        WaitEvent::WaitFailed => TerminationReason::WaitError,
    };
    RunOutcome { exit_code, duration_ms, reason, kill_failed: false }
}

/// A run failed when it did not end in a natural exit with code zero.
pub open spec fn spec_run_failed(o: RunOutcome) -> bool {
    !(o.reason is Exited && o.exit_code == Some(0i32))
}

/// Whether the failure hook (artifact archival) is owed for this outcome:
/// on every failed run, never on a successful one.
pub fn should_invoke_failure_hook(o: &RunOutcome) -> (r: bool)
    ensures
        r == spec_run_failed(*o),
{
    match o.reason {
        TerminationReason::Exited => match o.exit_code {
            Some(c) => c != 0,
            None => true,
        },
        TerminationReason::KilledByTimeout => true,
        TerminationReason::WaitError => true,
    }
}

/// Law: a probe observed to have exited on its own is reported as `Exited`
/// with its real exit code, never as `KilledByTimeout` — a near-deadline
/// natural exit is never turned into a false-positive kill, even when the
/// watchdog's kill raced it and landed on the already-gone probe.  The one
/// exception is a kill whose delivery failed: there the probe outlived the
/// deadline unterminated, and that is reported as the timeout it is.
pub proof fn lemma_natural_exit_is_authoritative(code: i32, kill: KillReport, duration_ms: u64)
    requires
        !(kill is DeliveryFailed),
    ensures
        spec_classify(WaitEvent::Exited(code), kill, duration_ms).reason is Exited,
        spec_classify(WaitEvent::Exited(code), kill, duration_ms).exit_code == Some(code),
{
}

/// Law: a kill whose delivery failed is still reported as `KilledByTimeout`,
/// annotated with the kill-failure flag, whatever the wait returned; it is
/// never escalated beyond the cycle's own record.
pub proof fn lemma_failed_kill_is_annotated(wait: WaitEvent, duration_ms: u64)
    ensures
        spec_classify(wait, KillReport::DeliveryFailed, duration_ms).reason is KilledByTimeout,
        spec_classify(wait, KillReport::DeliveryFailed, duration_ms).kill_failed,
        spec_classify(wait, KillReport::DeliveryFailed, duration_ms).exit_code is None,
{
}

/// Law: a probe that died by signal after the watchdog attempted the kill is
/// reported as `KilledByTimeout` with no exit code, whether or not the
/// delivery of the signal was itself confirmed.
pub proof fn lemma_timeout_kill_is_reported(sig: i32, kill: KillReport, duration_ms: u64)
    requires
        !(kill is NotAttempted),
    ensures
        spec_classify(WaitEvent::Signaled(sig), kill, duration_ms).reason is KilledByTimeout,
        spec_classify(WaitEvent::Signaled(sig), kill, duration_ms).exit_code is None,
{
}

/// Law: `KilledByTimeout` is reported only when the watchdog attempted the
/// kill; no outcome blames the timeout without a kill having been sent.
pub proof fn lemma_kill_reported_only_when_attempted(
    wait: WaitEvent,
    kill: KillReport,
    duration_ms: u64,
)
    requires
        kill is NotAttempted,
    ensures
        !(spec_classify(wait, kill, duration_ms).reason is KilledByTimeout),
{
}

} // verus!
