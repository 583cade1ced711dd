//! Fixed-cadence scheduling arithmetic.
//!
//! One cycle records its own start time, runs the probe, and then sleeps
//! whatever is left of the configured interval.  The sleep is computed from
//! that cycle's own start, never from an accumulated schedule, so a single
//! overrunning cycle does not shift every later cycle.

use vstd::prelude::*;

verus! {

/// Milliseconds still to sleep after a cycle whose probe work took
/// `elapsed_ms` within an interval of `interval_ms`: the remainder of the
/// interval, or nothing when the cycle overran it.
pub open spec fn sleep_needed(interval_ms: int, elapsed_ms: int) -> int {
    if elapsed_ms < interval_ms {
        interval_ms - elapsed_ms
    } else {
        0
    }
}

/// When a cycle starts at `start` and its probe work takes `d`, the next
/// cycle starts after the work and the cadence-aligning sleep.
pub open spec fn next_cycle_start(start: int, interval_ms: int, d: int) -> int {
    start + d + sleep_needed(interval_ms, d)
}

/// Start time of the cycle after the cycles whose probe-work durations are
/// `ds`, when the first cycle starts at `start0`.
pub open spec fn cycle_start(start0: int, interval_ms: int, ds: Seq<int>) -> int
    decreases ds.len(),
{
    if ds.len() == 0 {
        start0
    } else {
        next_cycle_start(cycle_start(start0, interval_ms, ds.drop_last()), interval_ms, ds.last())
    }
}

/// End-of-cycle sleep, in milliseconds.
pub fn remaining_sleep(interval_ms: u64, elapsed_ms: u64) -> (r: u64)
    ensures
        r as int == sleep_needed(interval_ms as int, elapsed_ms as int),
        elapsed_ms as int + r as int == next_cycle_start(0, interval_ms as int, elapsed_ms as int),
{
    if elapsed_ms < interval_ms {
        interval_ms - elapsed_ms
    } else {
        0
    }
}

/// Cadence law: over consecutive cycles whose probe work always finishes
/// within the interval, cycle starts are spaced exactly one interval apart,
/// independent of the individual durations.
pub proof fn lemma_steady_cadence(start0: int, interval_ms: int, ds: Seq<int>)
    requires
        forall|j: int| 0 <= j < ds.len() ==> 0 <= #[trigger] ds[j] < interval_ms,
    ensures
        cycle_start(start0, interval_ms, ds) == start0 + interval_ms * ds.len(),
    decreases ds.len(),
{
    if ds.len() == 0 {
        assert(start0 + interval_ms * 0 == start0) by (nonlinear_arith);
    } else {
        let front = ds.drop_last();
        assert(forall|j: int| 0 <= j < front.len() ==> 0 <= #[trigger] front[j] < interval_ms);
        lemma_steady_cadence(start0, interval_ms, front);
        let n = front.len() as int;
        assert(interval_ms * n + interval_ms == interval_ms * (n + 1)) by (nonlinear_arith);
    }
}

/// Cadence law, stated between neighbours: when every probe run finishes
/// within the interval, each cycle starts exactly one interval after the
/// cycle before it, whatever the individual durations were.
pub proof fn lemma_consecutive_starts_one_interval_apart(
    start0: int,
    interval_ms: int,
    ds: Seq<int>,
    i: int,
)
    requires
        0 <= i < ds.len(),
        forall|j: int| 0 <= j < ds.len() ==> 0 <= #[trigger] ds[j] < interval_ms,
    ensures
        cycle_start(start0, interval_ms, ds.take(i + 1)) == cycle_start(
            start0,
            interval_ms,
            ds.take(i),
        ) + interval_ms,
{
    assert(ds.take(i + 1).drop_last() =~= ds.take(i));
    assert(ds.take(i + 1).last() == ds[i]);
}

/// Overrun law, first half: a cycle whose probe work takes at least the whole
/// interval sleeps nothing, so the next cycle starts as soon as the work ends.
pub proof fn lemma_overrun_starts_immediately(start: int, interval_ms: int, d: int)
    requires
        d >= interval_ms,
    ensures
        next_cycle_start(start, interval_ms, d) == start + d,
{
}

/// Splitting a run of cycles: the start after `a + b` is the start after `b`
/// taken from the start after `a`.
pub proof fn lemma_cycle_start_concat(start0: int, interval_ms: int, a: Seq<int>, b: Seq<int>)
    ensures
        cycle_start(start0, interval_ms, a + b) == cycle_start(
            cycle_start(start0, interval_ms, a),
            interval_ms,
            b,
        ),
    decreases b.len(),
{
    if b.len() == 0 {
        assert(a + b =~= a);
    } else {
        lemma_cycle_start_concat(start0, interval_ms, a, b.drop_last());
        assert((a + b).drop_last() =~= a + b.drop_last());
        assert((a + b).last() == b.last());
    }
}

/// Overrun law, second half: an overrun delays later cycles once and the
/// delay never compounds.  If cycle `k` overruns and every later cycle stays
/// within the interval, then every cycle after `k` is again exactly one
/// interval after its predecessor, and the whole tail is offset by the single
/// overrun `ds[k]` in place of one interval.
pub proof fn lemma_overrun_does_not_compound(start0: int, interval_ms: int, ds: Seq<int>, k: int)
    requires
        0 <= k < ds.len(),
        ds[k] >= interval_ms,
        forall|j: int| k < j < ds.len() ==> 0 <= #[trigger] ds[j] < interval_ms,
    ensures
        cycle_start(start0, interval_ms, ds) == cycle_start(start0, interval_ms, ds.take(k + 1))
            + interval_ms * (ds.len() - k - 1),
        cycle_start(start0, interval_ms, ds.take(k + 1)) == cycle_start(
            start0,
            interval_ms,
            ds.take(k),
        ) + ds[k],
{
    let head = ds.take(k + 1);
    let tail = ds.skip(k + 1);
    assert(ds =~= head + tail);
    lemma_cycle_start_concat(start0, interval_ms, head, tail);
    assert(forall|j: int| 0 <= j < tail.len() ==> 0 <= #[trigger] tail[j] < interval_ms) by {
        assert(forall|j: int| 0 <= j < tail.len() ==> tail[j] == #[trigger] ds[j + k + 1]);
    }
    lemma_steady_cadence(cycle_start(start0, interval_ms, head), interval_ms, tail);
    assert(head.drop_last() =~= ds.take(k));
    assert(head.last() == ds[k]);
    lemma_overrun_starts_immediately(
        cycle_start(start0, interval_ms, ds.take(k)),
        interval_ms,
        ds[k],
    );
}

} // verus!
