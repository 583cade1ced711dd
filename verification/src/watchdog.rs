//! The timeout watchdog's decision.
//!
//! The embedding loop spawns one watchdog thread per cycle.  The thread
//! sleeps for exactly the probe timeout, makes one non-blocking liveness
//! poll, and asks this module what to do with what it saw.  Because the
//! watchdog polls once and kills only on a `SendKill` answer, the decision
//! rule here is what guarantees that at most one termination signal is ever
//! sent per run, and that a probe seen to be gone is never signaled — a
//! process id already reaped could have been reused by the system.

use vstd::prelude::*;

verus! {

/// What the watchdog's single non-blocking poll of the probe found.
#[derive(Clone, Copy, Debug, PartialEq, Eq, Structural)]
pub enum WatchdogPoll {
    /// The probe is still running at the deadline.
    StillRunning,
    /// The probe already ended (possibly already reaped by the main thread).
    AlreadyDone,
    /// The poll failed: the probe is not ours to observe, a benign outcome.
    PollFailed,
}

/// What the watchdog must do after its poll.
#[derive(Clone, Copy, Debug, PartialEq, Eq, Structural)]
pub enum WatchdogAction {
    /// Send the kill signal once.
    SendKill,
    /// Send nothing.
    StandDown,
}

/// The watchdog kills exactly the probe it finds still running at the
/// deadline; anything else — already ended, already reaped, unobservable —
/// gets no signal.
pub open spec fn spec_watchdog_action(poll: WatchdogPoll) -> WatchdogAction {
    if poll is StillRunning {
        WatchdogAction::SendKill
    } else {
        WatchdogAction::StandDown
    }
}

/// Decides the watchdog's one action from its one poll.
pub fn watchdog_decision(poll: &WatchdogPoll) -> (a: WatchdogAction)
    ensures
        a == spec_watchdog_action(*poll),
        a is SendKill <==> poll is StillRunning,
{
    match poll {
        WatchdogPoll::StillRunning => WatchdogAction::SendKill,
        WatchdogPoll::AlreadyDone => WatchdogAction::StandDown,
        WatchdogPoll::PollFailed => WatchdogAction::StandDown,
    }
}

/// Kill signals a watchdog action has it send.
pub open spec fn signals_sent(a: WatchdogAction) -> nat {
    if a is SendKill {
        1nat
    } else {
        0nat
    }
}

/// Law: the watchdog sends at most one termination signal per run, and
/// exactly one when the probe is still running at the deadline.
pub proof fn lemma_at_most_one_signal(poll: WatchdogPoll)
    ensures
        signals_sent(spec_watchdog_action(poll)) <= 1,
        poll is StillRunning ==> signals_sent(spec_watchdog_action(poll)) == 1,
{
}

/// Law: a probe that ended before the deadline is never signaled.
pub proof fn lemma_no_signal_after_exit(poll: WatchdogPoll)
    requires
        !(poll is StillRunning),
    ensures
        signals_sent(spec_watchdog_action(poll)) == 0,
{
}

} // verus!
