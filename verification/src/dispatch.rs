//! The paced dispatch state machine, as pure functions of the shared state.
//!
//! On each cycle the dispatcher reads the store and decides one of three
//! things: initiate a request (while running and under the iteration count),
//! finish (flip `running` off and log completion), or idle. The store's
//! `poll_cycle` promises to follow these functions exactly, so the shape of a
//! whole run can be proved here once and for all.

use vstd::prelude::*;

verus! {

/// What one polling cycle of the dispatch loop does.
#[derive(Clone, Copy, PartialEq, Eq, Structural, Debug)]
pub enum CycleDecision {
    /// Initiate one request, without waiting for its completion.
    Dispatch,
    /// The run just reached its iteration count: flip to idle and log it.
    Finish,
    /// No run is active; wait briefly.
    Idle,
}

/// The decision a cycle takes, given the store's `running` flag, the count of
/// requests initiated so far, and the configured iteration count.
pub open spec fn cycle_decision(running: bool, completed: nat, target: nat) -> CycleDecision {
    if running && completed < target {
        CycleDecision::Dispatch
    } else if running {
        CycleDecision::Finish
    } else {
        CycleDecision::Idle
    }
}

/// The `running` flag after the cycle.
pub open spec fn next_running(running: bool, completed: nat, target: nat) -> bool {
    running && completed < target
}

/// The initiated-request count after the cycle: it advances on a dispatch,
/// holds on the finishing cycle, and resets on the idle cycle that follows.
pub open spec fn next_completed(running: bool, completed: nat, target: nat) -> nat {
    if running && completed < target {
        completed + 1
    } else if running {
        completed
    } else {
        0
    }
}

/// Law: the dispatch loop's own bookkeeping never advances the initiated
/// count past the configured iteration count.
pub proof fn lemma_progress_bounded(running: bool, completed: nat, target: nat)
    requires
        completed <= target,
    ensures
        next_completed(running, completed, target) <= target,
{
}

/// The (running, completed) pair after `k` cycles of a run started fresh:
/// `running` set and no request initiated yet.
pub open spec fn run_state_after(k: nat, target: nat) -> (bool, nat)
    decreases k,
{
    if k == 0 {
        (true, 0 as nat)
    } else {
        let prev = run_state_after((k - 1) as nat, target);
        (
            next_running(prev.0, prev.1, target),
            next_completed(prev.0, prev.1, target),
        )
    }
}

/// Law: a run started fresh with iteration count `target`, and not stopped
/// meanwhile, initiates a request on each of its first `target` cycles — the
/// completed count equals the cycle index throughout — and on the following
/// cycle finishes, leaving `running` false with exactly `target` requests
/// initiated.
pub proof fn lemma_paced_run(target: nat, k: nat)
    requires
        k <= target,
    ensures
        run_state_after(k, target) == (true, k),
        k < target ==> cycle_decision(true, k, target) == CycleDecision::Dispatch,
        k == target ==> cycle_decision(true, k, target) == CycleDecision::Finish,
        run_state_after(target + 1, target) == (false, target),
{
    lemma_paced_run_prefix(target, k);
    lemma_paced_run_prefix(target, target);
    assert(run_state_after(target + 1, target) == (false, target));
}

/// The completed count equals the cycle index on every cycle up to the target.
proof fn lemma_paced_run_prefix(target: nat, k: nat)
    requires
        k <= target,
    ensures
        run_state_after(k, target) == (true, k),
    decreases k,
{
    if k > 0 {
        lemma_paced_run_prefix(target, (k - 1) as nat);
    }
}

} // verus!
