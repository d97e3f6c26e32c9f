//! The termination policy: a pure decision over the configured limits and
//! what a state reports, applied in a fixed order of precedence.

use vstd::prelude::*;
use crate::error::EngineError;
use crate::state::{IterState, TerminationReason};

verus! {

/// The configured limits of a run.
#[derive(Clone, Copy, Debug, PartialEq, Eq, Structural)]
pub struct Limits {
    /// Stop once this many iterations have completed.
    pub max_iters: u64,
    /// Stop once more than this many microseconds have elapsed.
    pub max_time: Option<u64>,
    /// Stop once the best cost is at or below this value.
    pub target_cost: Option<i64>,
    /// Stop once this many iterations have passed without improvement.
    pub max_no_improvement: Option<u64>,
}

/// What the policy reads at an iteration boundary.
#[derive(Clone, Copy, Debug, PartialEq, Eq, Structural)]
pub struct Progress {
    pub iter: u64,
    pub last_best_iter: u64,
    pub best_cost: Option<i64>,
    pub time: Option<u64>,
    pub interrupted: bool,
    pub solver_converged: bool,
}

impl Limits {
    /// Only the iteration limit `max_iters`.
    pub open spec fn new_spec(max_iters: u64) -> Limits {
        Limits { max_iters, max_time: None, target_cost: None, max_no_improvement: None }
    }

    /// The given iteration limit and no other.
    pub fn new(max_iters: u64) -> (r: Limits)
        ensures
            r == Limits::new_spec(max_iters),
    {
        Limits { max_iters, max_time: None, target_cost: None, max_no_improvement: None }
    }

    /// Whether a run under these limits can stop on its own: a zero
    /// iteration limit stops it before any step unless another limit is set.
    pub open spec fn usable(self) -> bool {
        self.max_iters > 0 || self.max_time is Some || self.target_cost is Some
            || self.max_no_improvement is Some
    }

    /// Checks that a run under these limits can be started.
    pub fn is_usable(&self) -> (r: bool)
        ensures
            r == self.usable(),
    {
        self.max_iters > 0 || self.max_time.is_some() || self.target_cost.is_some()
            || self.max_no_improvement.is_some()
    }
}

/// Stopping condition number `k`, in order of precedence: interrupt, target
/// cost, iteration limit, time limit, no-improvement window, convergence.
pub open spec fn condition_holds(limits: Limits, p: Progress, k: int) -> bool {
    if k == 0 {
        p.interrupted
    } else if k == 1 {
        match (limits.target_cost, p.best_cost) {
            (Some(t), Some(b)) => b <= t,
            _ => false,
        }
    } else if k == 2 {
        p.iter >= limits.max_iters
    } else if k == 3 {
        match (limits.max_time, p.time) {
            (Some(m), Some(t)) => t > m,
            _ => false,
        }
    } else if k == 4 {
        match limits.max_no_improvement {
            Some(w) => p.iter >= p.last_best_iter + w,
            None => false,
        }
    } else if k == 5 {
        p.solver_converged
    } else {
        false
    }
}

/// The reason that condition number `k` sets.
pub open spec fn reason_of(limits: Limits, k: int) -> TerminationReason {
    if k == 0 {
        TerminationReason::Aborted(EngineError::Interrupted)
    } else if k == 1 {
        TerminationReason::TargetCostReached
    } else if k == 2 {
        TerminationReason::ExceededMaxIterations
    } else if k == 3 {
        TerminationReason::ExceededMaxTime
    } else if k == 4 {
        TerminationReason::NoImprovement(limits.max_no_improvement->Some_0)
    } else {
        TerminationReason::SolverConverged
    }
}

/// The first condition from `k` on that holds decides; `Running` if none.
pub open spec fn first_reason_from(limits: Limits, p: Progress, k: int) -> TerminationReason
    decreases 6 - k,
{
    if k >= 6 {
        TerminationReason::Running
    } else if condition_holds(limits, p, k) {
        reason_of(limits, k)
    } else {
        first_reason_from(limits, p, k + 1)
    }
}

/// The policy's verdict.
pub open spec fn termination_for(limits: Limits, p: Progress) -> TerminationReason {
    first_reason_from(limits, p, 0)
}

/// Decides whether to stop and why. The first condition in the order of
/// precedence that holds wins.
pub fn check_termination(limits: &Limits, p: &Progress) -> (r: TerminationReason)
    ensures
        r == termination_for(*limits, *p),
{
    reveal_with_fuel(first_reason_from, 7);
    if p.interrupted {
        return TerminationReason::Aborted(EngineError::Interrupted);
    }
    if let (Some(t), Some(b)) = (limits.target_cost, p.best_cost) {
        if b <= t {
            return TerminationReason::TargetCostReached;
        }
    }
    if p.iter >= limits.max_iters {
        return TerminationReason::ExceededMaxIterations;
    }
    if let (Some(m), Some(t)) = (limits.max_time, p.time) {
        if t > m {
            return TerminationReason::ExceededMaxTime;
        }
    }
    if let Some(w) = limits.max_no_improvement {
        if p.iter as u128 >= p.last_best_iter as u128 + w as u128 {
            return TerminationReason::NoImprovement(w);
        }
    }
    if p.solver_converged {
        return TerminationReason::SolverConverged;
    }
    TerminationReason::Running
}

/// What the policy reads from `state`, with the interrupt flag and the
/// solver's own verdict.
pub open spec fn progress_of<P, G, H, J>(
    state: IterState<P, G, H, J>,
    interrupted: bool,
    solver_converged: bool,
) -> Progress {
    Progress {
        iter: state.iter_spec(),
        last_best_iter: state.last_best_iter_spec(),
        best_cost: state.best_cost_spec(),
        time: state.time_spec(),
        interrupted,
        solver_converged,
    }
}

/// Builds what the policy reads from a state.
pub fn progress<P, G, H, J>(
    state: &IterState<P, G, H, J>,
    interrupted: bool,
    solver_converged: bool,
) -> (r: Progress)
    ensures
        r == progress_of(*state, interrupted, solver_converged),
{
    Progress {
        iter: state.get_iter(),
        last_best_iter: state.get_last_best_iter(),
        best_cost: state.get_best_cost(),
        time: state.get_time(),
        interrupted,
        solver_converged,
    }
}

/// While the policy lets a run go on, the iteration limit is not reached.
pub proof fn lemma_running_below_limit(limits: Limits, p: Progress)
    ensures
        termination_for(limits, p) is Running ==> p.iter < limits.max_iters,
{
    reveal_with_fuel(first_reason_from, 7);
}

/// Applies the policy to `state`: sets the reason it decides, leaving
/// everything else as it is.
pub fn apply_policy<P, G, H, J>(
    state: &mut IterState<P, G, H, J>,
    limits: &Limits,
    interrupted: bool,
    solver_converged: bool,
)
    requires
        old(state).reason_spec() is Running,
    ensures
        final(state).reason_spec() == termination_for(
            *limits,
            progress_of(*final(state), interrupted, solver_converged),
        ),
        final(state).reason_spec() is Running ==> final(state).iter_spec() < limits.max_iters,
        final(state).cost_spec() == old(state).cost_spec(),
        final(state).prev_cost_spec() == old(state).prev_cost_spec(),
        final(state).best_cost_spec() == old(state).best_cost_spec(),
        final(state).prev_best_cost_spec() == old(state).prev_best_cost_spec(),
        final(state).iter_spec() == old(state).iter_spec(),
        final(state).last_best_iter_spec() == old(state).last_best_iter_spec(),
        final(state).counts_spec() == old(state).counts_spec(),
        final(state).time_spec() == old(state).time_spec(),
        final(state).same_values(old(state)),
{
    let p = progress(state, interrupted, solver_converged);
    let reason = check_termination(limits, &p);
    state.set_termination_reason(reason);
    proof {
        lemma_running_below_limit(*limits, p);
    }
}

/// A reason found at position `k` holds there and no earlier condition does.
proof fn lemma_first_reason_from(limits: Limits, p: Progress, k: int, j: int)
    requires
        0 <= k <= j < 6,
        condition_holds(limits, p, j),
    ensures
        exists|m: int|
            k <= m <= j && condition_holds(limits, p, m) && first_reason_from(limits, p, k)
                == reason_of(limits, m) && forall|i: int| k <= i < m ==> !condition_holds(limits, p, i),
    decreases j - k,
{
    if condition_holds(limits, p, k) {
        assert(forall|i: int| k <= i < k ==> !condition_holds(limits, p, i));
    } else {
        lemma_first_reason_from(limits, p, k + 1, j);
        let m = choose|m: int|
            k + 1 <= m <= j && condition_holds(limits, p, m) && first_reason_from(limits, p, k + 1)
                == reason_of(limits, m) && forall|i: int| k + 1 <= i < m ==> !condition_holds(limits, p, i);
        assert(forall|i: int| k <= i < m ==> !condition_holds(limits, p, i));
    }
}

/// Distinct conditions set distinct reasons.
proof fn lemma_reasons_distinct(limits: Limits, i: int, j: int)
    requires
        0 <= i < j < 6,
    ensures
        reason_of(limits, i) != reason_of(limits, j),
{
}

/// Precedence: when conditions `i` and `j` hold at once, with `i` before `j`
/// in the order (interrupt, target cost, iteration limit, time limit,
/// no-improvement window, convergence), the reported reason is never the one
/// of `j`; it is that of the earliest condition that holds.
pub proof fn lemma_earlier_condition_wins(limits: Limits, p: Progress, i: int, j: int)
    requires
        0 <= i < j < 6,
        condition_holds(limits, p, i),
        condition_holds(limits, p, j),
    ensures
        termination_for(limits, p) != reason_of(limits, j),
        exists|m: int|
            0 <= m <= i && condition_holds(limits, p, m) && termination_for(limits, p)
                == reason_of(limits, m),
{
    lemma_first_reason_from(limits, p, 0, i);
    let m = choose|m: int|
        0 <= m <= i && condition_holds(limits, p, m) && first_reason_from(limits, p, 0)
            == reason_of(limits, m) && forall|q: int| 0 <= q < m ==> !condition_holds(limits, p, q);
    lemma_reasons_distinct(limits, m, j);
}

} // verus!
