//! The iteration state: the trajectory record handed from one solver step
//! to the next, with best-so-far tracking and the termination reason.

use vstd::prelude::*;
use crate::cost::{improves, improves_on, COST_EPSILON};
use crate::error::EngineError;
use crate::problem::EvalCounts;

verus! {

/// Why a run stopped, or `Running` while it goes on.
#[derive(Debug, PartialEq, Eq)]
pub enum TerminationReason {
    Running,
    TargetCostReached,
    ExceededMaxIterations,
    ExceededMaxTime,
    /// No improvement within the given number of iterations.
    NoImprovement(u64),
    SolverConverged,
    Aborted(EngineError),
}

impl Clone for TerminationReason {
    fn clone(&self) -> (r: Self)
        ensures
            r == *self,
    {
        match self {
            TerminationReason::Running => TerminationReason::Running,
            TerminationReason::TargetCostReached => TerminationReason::TargetCostReached,
            TerminationReason::ExceededMaxIterations => TerminationReason::ExceededMaxIterations,
            TerminationReason::ExceededMaxTime => TerminationReason::ExceededMaxTime,
            TerminationReason::NoImprovement(w) => TerminationReason::NoImprovement(*w),
            TerminationReason::SolverConverged => TerminationReason::SolverConverged,
            TerminationReason::Aborted(e) => TerminationReason::Aborted(e.clone()),
        }
    }
}

impl TerminationReason {
    /// Whether the run goes on.
    pub fn is_running(&self) -> (r: bool)
        ensures
            r == (*self is Running),
    {
        match self {
            TerminationReason::Running => true,
            _ => false,
        }
    }

    /// Whether the run was aborted.
    pub fn is_aborted(&self) -> (r: bool)
        ensures
            r == (*self is Aborted),
    {
        match self {
            TerminationReason::Aborted(_) => true,
            _ => false,
        }
    }

    /// A short text naming the reason.
    pub open spec fn text_spec(&self) -> Seq<char> {
        match self {
            TerminationReason::Running => "Running"@,
            TerminationReason::TargetCostReached => "Target cost reached"@,
            TerminationReason::ExceededMaxIterations => "Maximum number of iterations reached"@,
            TerminationReason::ExceededMaxTime => "Maximum time reached"@,
            TerminationReason::NoImprovement(_) => "No improvement within the allowed window"@,
            TerminationReason::SolverConverged => "Solver converged"@,
            TerminationReason::Aborted(_) => "Aborted"@,
        }
    }

    /// A short text naming the reason.
    pub fn text(&self) -> (r: String)
        ensures
            r@ == self.text_spec(),
    {
        match self {
            TerminationReason::Running => String::from_str("Running"),
            TerminationReason::TargetCostReached => String::from_str("Target cost reached"),
            TerminationReason::ExceededMaxIterations => String::from_str(
                "Maximum number of iterations reached",
            ),
            TerminationReason::ExceededMaxTime => String::from_str("Maximum time reached"),
            TerminationReason::NoImprovement(_) => String::from_str(
                "No improvement within the allowed window",
            ),
            TerminationReason::SolverConverged => String::from_str("Solver converged"),
            TerminationReason::Aborted(_) => String::from_str("Aborted"),
        }
    }
}

/// The best cost after a step whose current cost is `cost`: a present cost
/// replaces the best one when there is none yet or when it improves on it by
/// at least the tolerance.
pub open spec fn next_best(best: Option<i64>, cost: Option<i64>) -> Option<i64> {
    match cost {
        None => best,
        Some(c) => match best {
            None => Some(c),
            Some(b) => if improves_on(c as int, b as int) {
                Some(c)
            } else {
                best
            },
        },
    }
}

/// Whether a step with current cost `cost` replaces the best cost `best`.
pub open spec fn is_improvement(best: Option<i64>, cost: Option<i64>) -> bool {
    match cost {
        None => false,
        Some(c) => match best {
            None => true,
            Some(b) => improves_on(c as int, b as int),
        },
    }
}

/// The best cost after observing `costs` in order, starting from `start`.
pub open spec fn best_from(start: Option<i64>, costs: Seq<Option<i64>>) -> Option<i64>
    decreases costs.len(),
{
    if costs.len() == 0 {
        start
    } else {
        next_best(best_from(start, costs.drop_last()), costs.last())
    }
}

/// The best cost never rises: once there is one, observing any further
/// cost leaves a best cost that is no higher.
pub proof fn lemma_best_never_rises(start: Option<i64>, costs: Seq<Option<i64>>, c: Option<i64>)
    ensures
        best_from(start, costs) is Some ==> {
            &&& best_from(start, costs.push(c)) is Some
            &&& best_from(start, costs.push(c))->Some_0 <= best_from(start, costs)->Some_0
        },
{
    assert(costs.push(c).drop_last() =~= costs);
}

/// The best cost is the starting one or one of the observed costs, is no
/// higher than the starting one, and lies below every observed cost plus
/// the tolerance; there is none exactly when nothing was there to start
/// with and no cost was observed.
pub proof fn lemma_best_is_least_within_epsilon(start: Option<i64>, costs: Seq<Option<i64>>)
    ensures
        best_from(start, costs) is None <==> (start is None && forall|i: int|
            0 <= i < costs.len() ==> costs[i] is None),
        best_from(start, costs) is Some ==> best_from(start, costs) == start || exists|i: int|
            0 <= i < costs.len() && costs[i] == best_from(start, costs),
        start is Some ==> best_from(start, costs) is Some && best_from(start, costs)->Some_0
            <= start->Some_0,
        best_from(start, costs) is Some ==> forall|i: int|
            0 <= i < costs.len() && #[trigger] costs[i] is Some ==> best_from(start, costs)->Some_0
                - costs[i]->Some_0 < COST_EPSILON,
    decreases costs.len(),
{
    if costs.len() > 0 {
        let init = costs.drop_last();
        lemma_best_is_least_within_epsilon(start, init);
        let n = costs.len() - 1;
        assert(forall|i: int| 0 <= i < n ==> costs[i] == init[i]);
        if best_from(start, costs) is Some && best_from(start, init) is Some {
            if best_from(start, costs) == best_from(start, init) {
                if best_from(start, init) != start {
                    let w = choose|i: int| 0 <= i < init.len() && init[i] == best_from(start, init);
                    assert(costs[w] == best_from(start, costs));
                }
            } else {
                assert(costs[n] == best_from(start, costs));
            }
        } else if best_from(start, costs) is Some {
            assert(costs[n] == best_from(start, costs));
        }
    }
}

/// `b` holds a clone of what `a` holds, or both are empty.
pub open spec fn opt_cloned<P: Clone>(a: Option<P>, b: Option<P>) -> bool {
    &&& a is None <==> b is None
    &&& a is Some ==> vstd::pervasive::cloned(a->Some_0, b->Some_0)
}

/// The trajectory record: current, previous and best values, counters,
/// elapsed time and the termination reason.
#[derive(Clone)]
pub struct IterState<P, G, H, J> {
    param: Option<P>,
    prev_param: Option<P>,
    best_param: Option<P>,
    prev_best_param: Option<P>,
    cost: Option<i64>,
    prev_cost: Option<i64>,
    best_cost: Option<i64>,
    prev_best_cost: Option<i64>,
    grad: Option<G>,
    prev_grad: Option<G>,
    hessian: Option<H>,
    prev_hessian: Option<H>,
    jacobian: Option<J>,
    prev_jacobian: Option<J>,
    iter: u64,
    last_best_iter: u64,
    counts: EvalCounts,
    time: Option<u64>,
    reason: TerminationReason,
    seen: Ghost<Seq<Option<i64>>>,
    ended_by_step: Ghost<bool>,
}

impl<P, G, H, J> IterState<P, G, H, J> {
    pub closed spec fn param_spec(&self) -> Option<P> {
        self.param
    }

    pub closed spec fn prev_param_spec(&self) -> Option<P> {
        self.prev_param
    }

    pub closed spec fn best_param_spec(&self) -> Option<P> {
        self.best_param
    }

    pub closed spec fn prev_best_param_spec(&self) -> Option<P> {
        self.prev_best_param
    }

    pub closed spec fn cost_spec(&self) -> Option<i64> {
        self.cost
    }

    pub closed spec fn prev_cost_spec(&self) -> Option<i64> {
        self.prev_cost
    }

    pub closed spec fn best_cost_spec(&self) -> Option<i64> {
        self.best_cost
    }

    pub closed spec fn prev_best_cost_spec(&self) -> Option<i64> {
        self.prev_best_cost
    }

    pub closed spec fn grad_spec(&self) -> Option<G> {
        self.grad
    }

    pub closed spec fn hessian_spec(&self) -> Option<H> {
        self.hessian
    }

    pub closed spec fn jacobian_spec(&self) -> Option<J> {
        self.jacobian
    }

    pub closed spec fn iter_spec(&self) -> u64 {
        self.iter
    }

    pub closed spec fn last_best_iter_spec(&self) -> u64 {
        self.last_best_iter
    }

    pub closed spec fn counts_spec(&self) -> EvalCounts {
        self.counts
    }

    pub closed spec fn time_spec(&self) -> Option<u64> {
        self.time
    }

    pub closed spec fn reason_spec(&self) -> TerminationReason {
        self.reason
    }

    /// The current costs that a run judged, in order, as recorded when the
    /// run ended.
    pub closed spec fn seen_spec(&self) -> Seq<Option<i64>> {
        self.seen@
    }

    /// Whether a solver call itself ended the run, as recorded when the run
    /// ended.
    pub closed spec fn ended_by_step_spec(&self) -> bool {
        self.ended_by_step@
    }

    /// The bookkeeping of `self` and `other` agree: costs, counters,
    /// iteration numbers, time and reason.
    pub open spec fn same_bookkeeping(&self, other: &Self) -> bool {
        &&& self.cost_spec() == other.cost_spec()
        &&& self.prev_cost_spec() == other.prev_cost_spec()
        &&& self.best_cost_spec() == other.best_cost_spec()
        &&& self.prev_best_cost_spec() == other.prev_best_cost_spec()
        &&& self.iter_spec() == other.iter_spec()
        &&& self.last_best_iter_spec() == other.last_best_iter_spec()
        &&& self.counts_spec() == other.counts_spec()
        &&& self.time_spec() == other.time_spec()
        &&& self.reason_spec() == other.reason_spec()
    }

    /// The values of `self` and `other` agree: parameters, gradient, Hessian
    /// and Jacobian, current and previous.
    pub open spec fn same_values(&self, other: &Self) -> bool {
        &&& self.param_spec() == other.param_spec()
        &&& self.prev_param_spec() == other.prev_param_spec()
        &&& self.best_param_spec() == other.best_param_spec()
        &&& self.prev_best_param_spec() == other.prev_best_param_spec()
        &&& self.grad_spec() == other.grad_spec()
        &&& self.hessian_spec() == other.hessian_spec()
        &&& self.jacobian_spec() == other.jacobian_spec()
    }

    /// An empty state: nothing set, counters at zero, running.
    pub fn new() -> (r: Self)
        ensures
            r.param_spec() is None,
            r.prev_param_spec() is None,
            r.best_param_spec() is None,
            r.prev_best_param_spec() is None,
            r.cost_spec() is None,
            r.prev_cost_spec() is None,
            r.best_cost_spec() is None,
            r.prev_best_cost_spec() is None,
            r.grad_spec() is None,
            r.hessian_spec() is None,
            r.jacobian_spec() is None,
            r.iter_spec() == 0,
            r.last_best_iter_spec() == 0,
            r.counts_spec().is_zero(),
            r.time_spec() is None,
            r.reason_spec() is Running,
    {
        IterState {
            param: None,
            prev_param: None,
            best_param: None,
            prev_best_param: None,
            cost: None,
            prev_cost: None,
            best_cost: None,
            prev_best_cost: None,
            grad: None,
            prev_grad: None,
            hessian: None,
            prev_hessian: None,
            jacobian: None,
            prev_jacobian: None,
            iter: 0,
            last_best_iter: 0,
            counts: EvalCounts::zero(),
            time: None,
            reason: TerminationReason::Running,
            seen: Ghost(Seq::empty()),
            ended_by_step: Ghost(false),
        }
    }

    /// Sets the current parameter; the one it replaces becomes the previous one.
    pub fn param(self, param: P) -> (r: Self)
        ensures
            r.param_spec() == Some(param),
            r.prev_param_spec() == self.param_spec(),
            r.best_param_spec() == self.best_param_spec(),
            r.prev_best_param_spec() == self.prev_best_param_spec(),
            r.grad_spec() == self.grad_spec(),
            r.hessian_spec() == self.hessian_spec(),
            r.jacobian_spec() == self.jacobian_spec(),
            r.same_bookkeeping(&self),
    {
        let mut s = self;
        s.set_param(param);
        s
    }

    /// Sets the current parameter; the one it replaces becomes the previous one.
    pub fn set_param(&mut self, param: P)
        ensures
            final(self).param_spec() == Some(param),
            final(self).prev_param_spec() == old(self).param_spec(),
            final(self).best_param_spec() == old(self).best_param_spec(),
            final(self).prev_best_param_spec() == old(self).prev_best_param_spec(),
            final(self).grad_spec() == old(self).grad_spec(),
            final(self).hessian_spec() == old(self).hessian_spec(),
            final(self).jacobian_spec() == old(self).jacobian_spec(),
            final(self).same_bookkeeping(old(self)),
    {
        let prev = self.param.take();
        self.prev_param = prev;
        self.param = Some(param);
    }

    /// Moves the current parameter out, leaving none behind. A solver that
    /// takes it must set a new one before it hands the state back.
    pub fn take_param(&mut self) -> (r: Option<P>)
        ensures
            r == old(self).param_spec(),
            final(self).param_spec() is None,
            final(self).prev_param_spec() == old(self).prev_param_spec(),
            final(self).best_param_spec() == old(self).best_param_spec(),
            final(self).prev_best_param_spec() == old(self).prev_best_param_spec(),
            final(self).grad_spec() == old(self).grad_spec(),
            final(self).hessian_spec() == old(self).hessian_spec(),
            final(self).jacobian_spec() == old(self).jacobian_spec(),
            final(self).same_bookkeeping(old(self)),
    {
        self.param.take()
    }

    /// Sets the current cost; the one it replaces becomes the previous one.
    pub fn cost(self, cost: i64) -> (r: Self)
        ensures
            r.cost_spec() == Some(cost),
            r.prev_cost_spec() == self.cost_spec(),
            r.best_cost_spec() == self.best_cost_spec(),
            r.prev_best_cost_spec() == self.prev_best_cost_spec(),
            r.iter_spec() == self.iter_spec(),
            r.last_best_iter_spec() == self.last_best_iter_spec(),
            r.counts_spec() == self.counts_spec(),
            r.time_spec() == self.time_spec(),
            r.reason_spec() == self.reason_spec(),
            r.same_values(&self),
    {
        let mut s = self;
        s.set_cost(cost);
        s
    }

    /// Sets the current cost; the one it replaces becomes the previous one.
    pub fn set_cost(&mut self, cost: i64)
        ensures
            final(self).cost_spec() == Some(cost),
            final(self).prev_cost_spec() == old(self).cost_spec(),
            final(self).best_cost_spec() == old(self).best_cost_spec(),
            final(self).prev_best_cost_spec() == old(self).prev_best_cost_spec(),
            final(self).iter_spec() == old(self).iter_spec(),
            final(self).last_best_iter_spec() == old(self).last_best_iter_spec(),
            final(self).counts_spec() == old(self).counts_spec(),
            final(self).time_spec() == old(self).time_spec(),
            final(self).reason_spec() == old(self).reason_spec(),
            final(self).same_values(old(self)),
    {
        self.prev_cost = self.cost;
        self.cost = Some(cost);
    }

    /// Sets the current gradient; the one it replaces becomes the previous one.
    pub fn gradient(self, grad: G) -> (r: Self)
        ensures
            r.grad_spec() == Some(grad),
            r.param_spec() == self.param_spec(),
            r.best_param_spec() == self.best_param_spec(),
            r.hessian_spec() == self.hessian_spec(),
            r.jacobian_spec() == self.jacobian_spec(),
            r.same_bookkeeping(&self),
    {
        let mut s = self;
        s.prev_grad = s.grad.take();
        s.grad = Some(grad);
        s
    }

    /// Sets the current Hessian; the one it replaces becomes the previous one.
    pub fn hessian(self, hessian: H) -> (r: Self)
        ensures
            r.hessian_spec() == Some(hessian),
            r.param_spec() == self.param_spec(),
            r.best_param_spec() == self.best_param_spec(),
            r.grad_spec() == self.grad_spec(),
            r.jacobian_spec() == self.jacobian_spec(),
            r.same_bookkeeping(&self),
    {
        let mut s = self;
        s.prev_hessian = s.hessian.take();
        s.hessian = Some(hessian);
        s
    }

    /// Sets the current Jacobian; the one it replaces becomes the previous one.
    pub fn jacobian(self, jacobian: J) -> (r: Self)
        ensures
            r.jacobian_spec() == Some(jacobian),
            r.param_spec() == self.param_spec(),
            r.best_param_spec() == self.best_param_spec(),
            r.grad_spec() == self.grad_spec(),
            r.hessian_spec() == self.hessian_spec(),
            r.same_bookkeeping(&self),
    {
        let mut s = self;
        s.prev_jacobian = s.jacobian.take();
        s.jacobian = Some(jacobian);
        s
    }

    /// Moves the current gradient out, leaving none behind.
    pub fn take_gradient(&mut self) -> (r: Option<G>)
        ensures
            r == old(self).grad_spec(),
            final(self).grad_spec() is None,
            final(self).param_spec() == old(self).param_spec(),
            final(self).best_param_spec() == old(self).best_param_spec(),
            final(self).same_bookkeeping(old(self)),
    {
        self.grad.take()
    }

    /// The current parameter.
    pub fn get_param(&self) -> (r: Option<&P>)
        ensures
            r == match self.param_spec() { Some(p) => Some(&p), None => None },
    {
        self.param.as_ref()
    }

    /// The previous parameter.
    pub fn get_prev_param(&self) -> (r: Option<&P>)
        ensures
            r == match self.prev_param_spec() { Some(p) => Some(&p), None => None },
    {
        self.prev_param.as_ref()
    }

    /// The best parameter so far.
    pub fn get_best_param(&self) -> (r: Option<&P>)
        ensures
            r == match self.best_param_spec() { Some(p) => Some(&p), None => None },
    {
        self.best_param.as_ref()
    }

    /// The previous best parameter.
    pub fn get_prev_best_param(&self) -> (r: Option<&P>)
        ensures
            r == match self.prev_best_param_spec() { Some(p) => Some(&p), None => None },
    {
        self.prev_best_param.as_ref()
    }

    /// The current gradient.
    pub fn get_gradient(&self) -> (r: Option<&G>)
        ensures
            r == match self.grad_spec() { Some(g) => Some(&g), None => None },
    {
        self.grad.as_ref()
    }

    /// The current Hessian.
    pub fn get_hessian(&self) -> (r: Option<&H>)
        ensures
            r == match self.hessian_spec() { Some(h) => Some(&h), None => None },
    {
        self.hessian.as_ref()
    }

    /// The current Jacobian.
    pub fn get_jacobian(&self) -> (r: Option<&J>)
        ensures
            r == match self.jacobian_spec() { Some(j) => Some(&j), None => None },
    {
        self.jacobian.as_ref()
    }

    /// The current cost.
    pub fn get_cost(&self) -> (r: Option<i64>)
        ensures
            r == self.cost_spec(),
    {
        self.cost
    }

    /// The previous cost.
    pub fn get_prev_cost(&self) -> (r: Option<i64>)
        ensures
            r == self.prev_cost_spec(),
    {
        self.prev_cost
    }

    /// The best cost so far.
    pub fn get_best_cost(&self) -> (r: Option<i64>)
        ensures
            r == self.best_cost_spec(),
    {
        self.best_cost
    }

    /// The previous best cost.
    pub fn get_prev_best_cost(&self) -> (r: Option<i64>)
        ensures
            r == self.prev_best_cost_spec(),
    {
        self.prev_best_cost
    }

    /// Number of completed iterations.
    pub fn get_iter(&self) -> (r: u64)
        ensures
            r == self.iter_spec(),
    {
        self.iter
    }

    /// Iteration at which the best cost was last improved.
    pub fn get_last_best_iter(&self) -> (r: u64)
        ensures
            r == self.last_best_iter_spec(),
    {
        self.last_best_iter
    }

    /// Whether the latest iteration improved the best cost.
    pub fn is_best(&self) -> (r: bool)
        ensures
            r == (self.last_best_iter_spec() == self.iter_spec()),
    {
        self.last_best_iter == self.iter
    }

    /// Evaluation counts copied from the problem wrapper.
    pub fn get_counts(&self) -> (r: EvalCounts)
        ensures
            r == self.counts_spec(),
    {
        self.counts
    }

    /// Elapsed time in microseconds, once measured.
    pub fn get_time(&self) -> (r: Option<u64>)
        ensures
            r == self.time_spec(),
    {
        self.time
    }

    /// Why the run stopped, or `Running`.
    pub fn get_termination_reason(&self) -> (r: &TerminationReason)
        ensures
            *r == self.reason_spec(),
    {
        &self.reason
    }

    /// Whether the state is terminal.
    pub fn terminated(&self) -> (r: bool)
        ensures
            r == !(self.reason_spec() is Running),
    {
        !self.reason.is_running()
    }

    /// Counts one more completed iteration.
    pub fn increment_iter(&mut self)
        requires
            old(self).iter_spec() < u64::MAX,
        ensures
            final(self).iter_spec() == old(self).iter_spec() + 1,
            final(self).cost_spec() == old(self).cost_spec(),
            final(self).prev_cost_spec() == old(self).prev_cost_spec(),
            final(self).best_cost_spec() == old(self).best_cost_spec(),
            final(self).prev_best_cost_spec() == old(self).prev_best_cost_spec(),
            final(self).last_best_iter_spec() == old(self).last_best_iter_spec(),
            final(self).counts_spec() == old(self).counts_spec(),
            final(self).time_spec() == old(self).time_spec(),
            final(self).reason_spec() == old(self).reason_spec(),
            final(self).same_values(old(self)),
    {
        self.iter = self.iter + 1;
    }

    /// Records the evaluation counts.
    pub fn set_counts(&mut self, counts: EvalCounts)
        ensures
            final(self).counts_spec() == counts,
            final(self).cost_spec() == old(self).cost_spec(),
            final(self).prev_cost_spec() == old(self).prev_cost_spec(),
            final(self).best_cost_spec() == old(self).best_cost_spec(),
            final(self).prev_best_cost_spec() == old(self).prev_best_cost_spec(),
            final(self).iter_spec() == old(self).iter_spec(),
            final(self).last_best_iter_spec() == old(self).last_best_iter_spec(),
            final(self).time_spec() == old(self).time_spec(),
            final(self).reason_spec() == old(self).reason_spec(),
            final(self).same_values(old(self)),
    {
        self.counts = counts;
    }

    /// Records the elapsed time in microseconds.
    pub fn set_time(&mut self, time: Option<u64>)
        ensures
            final(self).time_spec() == time,
            final(self).cost_spec() == old(self).cost_spec(),
            final(self).prev_cost_spec() == old(self).prev_cost_spec(),
            final(self).best_cost_spec() == old(self).best_cost_spec(),
            final(self).prev_best_cost_spec() == old(self).prev_best_cost_spec(),
            final(self).iter_spec() == old(self).iter_spec(),
            final(self).last_best_iter_spec() == old(self).last_best_iter_spec(),
            final(self).counts_spec() == old(self).counts_spec(),
            final(self).reason_spec() == old(self).reason_spec(),
            final(self).same_values(old(self)),
    {
        self.time = time;
    }

    /// Sets the termination reason while the state is running; once it is
    /// terminal the reason stays as it is.
    pub fn set_termination_reason(&mut self, reason: TerminationReason)
        ensures
            final(self).reason_spec() == if old(self).reason_spec() is Running {
                reason
            } else {
                old(self).reason_spec()
            },
            final(self).cost_spec() == old(self).cost_spec(),
            final(self).prev_cost_spec() == old(self).prev_cost_spec(),
            final(self).best_cost_spec() == old(self).best_cost_spec(),
            final(self).prev_best_cost_spec() == old(self).prev_best_cost_spec(),
            final(self).iter_spec() == old(self).iter_spec(),
            final(self).last_best_iter_spec() == old(self).last_best_iter_spec(),
            final(self).counts_spec() == old(self).counts_spec(),
            final(self).time_spec() == old(self).time_spec(),
            final(self).same_values(old(self)),
    {
        if self.reason.is_running() {
            self.reason = reason;
        }
    }

    /// Records what a run judged and whether a solver call ended it.
    pub(crate) fn record_run(&mut self, seen: Ghost<Seq<Option<i64>>>, ended_by_step: Ghost<bool>)
        ensures
            final(self).seen_spec() == seen@,
            final(self).ended_by_step_spec() == ended_by_step@,
            final(self).reason_spec() == old(self).reason_spec(),
            final(self).cost_spec() == old(self).cost_spec(),
            final(self).prev_cost_spec() == old(self).prev_cost_spec(),
            final(self).best_cost_spec() == old(self).best_cost_spec(),
            final(self).prev_best_cost_spec() == old(self).prev_best_cost_spec(),
            final(self).iter_spec() == old(self).iter_spec(),
            final(self).last_best_iter_spec() == old(self).last_best_iter_spec(),
            final(self).counts_spec() == old(self).counts_spec(),
            final(self).time_spec() == old(self).time_spec(),
            final(self).same_values(old(self)),
    {
        self.seen = seen;
        self.ended_by_step = ended_by_step;
    }

    /// Ends the run with `e`, whatever reason was set before.
    pub(crate) fn abort(&mut self, e: EngineError)
        ensures
            final(self).reason_spec() == TerminationReason::Aborted(e),
            final(self).cost_spec() == old(self).cost_spec(),
            final(self).prev_cost_spec() == old(self).prev_cost_spec(),
            final(self).best_cost_spec() == old(self).best_cost_spec(),
            final(self).prev_best_cost_spec() == old(self).prev_best_cost_spec(),
            final(self).iter_spec() == old(self).iter_spec(),
            final(self).last_best_iter_spec() == old(self).last_best_iter_spec(),
            final(self).counts_spec() == old(self).counts_spec(),
            final(self).time_spec() == old(self).time_spec(),
            final(self).same_values(old(self)),
    {
        self.reason = TerminationReason::Aborted(e);
    }
}

impl<P: Clone, G, H, J> IterState<P, G, H, J> {
    /// Judges the current cost against the best one. On an improvement by at
    /// least the tolerance (or on the first cost seen) the best cost and a
    /// clone of the current parameter become the new best, the replaced ones
    /// become the previous best, and the current iteration is recorded as
    /// the last improving one. Otherwise nothing changes.
    pub fn update_best(&mut self)
        ensures
            final(self).best_cost_spec() == next_best(old(self).best_cost_spec(), old(self).cost_spec()),
            is_improvement(old(self).best_cost_spec(), old(self).cost_spec()) ==> {
                &&& opt_cloned(old(self).param_spec(), final(self).best_param_spec())
                &&& final(self).prev_best_param_spec() == old(self).best_param_spec()
                &&& final(self).prev_best_cost_spec() == old(self).best_cost_spec()
                &&& final(self).last_best_iter_spec() == old(self).iter_spec()
            },
            !is_improvement(old(self).best_cost_spec(), old(self).cost_spec()) ==> {
                &&& final(self).best_param_spec() == old(self).best_param_spec()
                &&& final(self).prev_best_param_spec() == old(self).prev_best_param_spec()
                &&& final(self).prev_best_cost_spec() == old(self).prev_best_cost_spec()
                &&& final(self).last_best_iter_spec() == old(self).last_best_iter_spec()
            },
            final(self).param_spec() == old(self).param_spec(),
            final(self).prev_param_spec() == old(self).prev_param_spec(),
            final(self).grad_spec() == old(self).grad_spec(),
            final(self).hessian_spec() == old(self).hessian_spec(),
            final(self).jacobian_spec() == old(self).jacobian_spec(),
            final(self).cost_spec() == old(self).cost_spec(),
            final(self).prev_cost_spec() == old(self).prev_cost_spec(),
            final(self).iter_spec() == old(self).iter_spec(),
            final(self).counts_spec() == old(self).counts_spec(),
            final(self).time_spec() == old(self).time_spec(),
            final(self).reason_spec() == old(self).reason_spec(),
    {
        let better = match self.cost {
            None => false,
            Some(c) => match self.best_cost {
                None => true,
                Some(b) => improves(c, b),
            },
        };
        if better {
            let p = self.param.clone();
            let old_best = self.best_param.take();
            self.prev_best_param = old_best;
            self.best_param = p;
            self.prev_best_cost = self.best_cost;
            self.best_cost = self.cost;
            self.last_best_iter = self.iter;
        }
    }
}

} // verus!
