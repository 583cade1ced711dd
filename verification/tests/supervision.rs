use monitor_runner::outcome::{
    classify_outcome, should_invoke_failure_hook, KillReport, TerminationReason, WaitEvent,
};
use monitor_runner::watchdog::{watchdog_decision, WatchdogAction, WatchdogPoll};

#[test]
fn immediate_exit_is_reported_as_exited() {
    let o = classify_outcome(&WaitEvent::Exited(0), &KillReport::NotAttempted, 12);
    assert_eq!(o.reason, TerminationReason::Exited);
    assert_eq!(o.exit_code, Some(0));
    assert_eq!(o.duration_ms, 12);
    assert!(!o.kill_failed);
}

#[test]
fn killed_probe_is_reported_as_killed_by_timeout() {
    let o = classify_outcome(&WaitEvent::Signaled(9), &KillReport::Delivered, 2_000);
    assert_eq!(o.reason, TerminationReason::KilledByTimeout);
    assert_eq!(o.exit_code, None);
    assert!(!o.kill_failed);
}

#[test]
fn near_deadline_exit_is_never_a_false_positive_kill() {
    // Even when the watchdog raced the exit and its kill landed on the
    // already-gone probe, an observed natural exit stays authoritative.
    for kill in [KillReport::NotAttempted, KillReport::Delivered] {
        let o = classify_outcome(&WaitEvent::Exited(3), &kill, 4_999);
        assert_eq!(o.reason, TerminationReason::Exited);
        assert_eq!(o.exit_code, Some(3));
    }
}

#[test]
fn failed_wait_is_reported_as_wait_error() {
    let o = classify_outcome(&WaitEvent::WaitFailed, &KillReport::NotAttempted, 7);
    assert_eq!(o.reason, TerminationReason::WaitError);
    assert_eq!(o.exit_code, None);
}

#[test]
fn externally_signaled_probe_is_not_blamed_on_the_timeout() {
    let o = classify_outcome(&WaitEvent::Signaled(15), &KillReport::NotAttempted, 500);
    assert_eq!(o.reason, TerminationReason::Exited);
    assert_eq!(o.exit_code, None);
}

#[test]
fn failed_kill_delivery_is_flagged_but_still_a_timeout_kill() {
    let o = classify_outcome(&WaitEvent::Signaled(9), &KillReport::DeliveryFailed, 2_000);
    assert_eq!(o.reason, TerminationReason::KilledByTimeout);
    assert_eq!(o.exit_code, None);
    assert!(o.kill_failed);
}

#[test]
fn failed_kill_delivery_dominates_whatever_the_wait_returned() {
    // A probe that could not be terminated outlived its deadline: the cycle
    // reports the timeout with the kill-failure flag even when the probe
    // later exited on its own or its status was lost.
    for wait in [WaitEvent::Exited(0), WaitEvent::Exited(7), WaitEvent::WaitFailed] {
        let o = classify_outcome(&wait, &KillReport::DeliveryFailed, 9_000);
        assert_eq!(o.reason, TerminationReason::KilledByTimeout);
        assert_eq!(o.exit_code, None);
        assert!(o.kill_failed);
    }
}

#[test]
fn failure_hook_never_fires_on_success() {
    let ok = classify_outcome(&WaitEvent::Exited(0), &KillReport::NotAttempted, 1);
    assert!(!should_invoke_failure_hook(&ok));
}

#[test]
fn failure_hook_fires_on_nonzero_exit_kill_and_wait_error() {
    let nonzero = classify_outcome(&WaitEvent::Exited(2), &KillReport::NotAttempted, 1);
    let killed = classify_outcome(&WaitEvent::Signaled(9), &KillReport::Delivered, 1);
    let unobserved = classify_outcome(&WaitEvent::WaitFailed, &KillReport::NotAttempted, 1);
    assert!(should_invoke_failure_hook(&nonzero));
    assert!(should_invoke_failure_hook(&killed));
    assert!(should_invoke_failure_hook(&unobserved));
}

#[test]
fn watchdog_kills_only_a_probe_still_running() {
    assert_eq!(watchdog_decision(&WatchdogPoll::StillRunning), WatchdogAction::SendKill);
    assert_eq!(watchdog_decision(&WatchdogPoll::AlreadyDone), WatchdogAction::StandDown);
    assert_eq!(watchdog_decision(&WatchdogPoll::PollFailed), WatchdogAction::StandDown);
}

#[test]
fn quick_probe_scenario() {
    // interval=10s, timeout=5s, probe "sleep 1": exits with 0 after about a
    // second, and the next cycle starts about nine seconds later.
    let o = classify_outcome(&WaitEvent::Exited(0), &KillReport::NotAttempted, 1_000);
    assert_eq!(o.reason, TerminationReason::Exited);
    assert_eq!(o.exit_code, Some(0));
    assert_eq!(monitor_runner::cadence::remaining_sleep(10_000, o.duration_ms), 9_000);
}

#[test]
fn hanging_probe_scenario() {
    // interval=10s, timeout=2s, probe "sleep 30": killed at the deadline,
    // and the next cycle starts about eight seconds later.
    let poll = WatchdogPoll::StillRunning;
    assert_eq!(watchdog_decision(&poll), WatchdogAction::SendKill);
    let o = classify_outcome(&WaitEvent::Signaled(9), &KillReport::Delivered, 2_000);
    assert_eq!(o.reason, TerminationReason::KilledByTimeout);
    assert_eq!(o.exit_code, None);
    assert_eq!(monitor_runner::cadence::remaining_sleep(10_000, o.duration_ms), 8_000);
}
