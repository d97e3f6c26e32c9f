//! The outcome of a run: the problem wrapper with its counters and the
//! terminal state. Results are ordered by best cost alone, with tolerance.

use vstd::prelude::*;
use crate::cost::{compare_opt_costs, opt_cost_order};
use crate::problem::Problem;
use crate::state::{IterState, TerminationReason};

verus! {

/// What a result needs of a state: its best cost.
pub trait State {
    spec fn best_cost_of(&self) -> Option<i64>;

    fn best_cost(&self) -> (r: Option<i64>)
        ensures
            r == self.best_cost_of(),
    ;
}

impl<P, G, H, J> State for IterState<P, G, H, J> {
    open spec fn best_cost_of(&self) -> Option<i64> {
        self.best_cost_spec()
    }

    fn best_cost(&self) -> (r: Option<i64>) {
        self.get_best_cost()
    }
}

/// The problem wrapper and the terminal state of a run.
pub struct OptimizationResult<O, I> {
    /// The problem wrapper, with its evaluation counts.
    pub operator: Problem<O>,
    /// The terminal state.
    pub state: I,
}

/// The fields of a result in the order in which they are reported.
#[derive(Clone, Debug, PartialEq, Eq)]
pub struct ResultSummary {
    pub best_cost: Option<i64>,
    pub last_best_iter: u64,
    pub iters: u64,
    pub reason: TerminationReason,
    pub time: Option<u64>,
}

impl<O, I> OptimizationResult<O, I> {
    /// Pairs a problem wrapper with a state.
    pub fn new(operator: Problem<O>, state: I) -> (r: Self)
        ensures
            r.operator == operator,
            r.state == state,
    {
        OptimizationResult { operator, state }
    }

    /// The problem wrapper.
    pub fn operator(&self) -> (r: &Problem<O>)
        ensures
            *r == self.operator,
    {
        &self.operator
    }

    /// The terminal state.
    pub fn state(&self) -> (r: &I)
        ensures
            *r == self.state,
    {
        &self.state
    }
}

impl<O, I: State> OptimizationResult<O, I> {
    /// How `self` ranks against `other`: by best cost, with tolerance; a
    /// result without a best cost ranks above every result with one.
    pub open spec fn order_spec(&self, other: &Self) -> core::cmp::Ordering {
        opt_cost_order(self.state.best_cost_of(), other.state.best_cost_of())
    }

    /// Ranks `self` against `other` by best cost, with tolerance.
    pub fn cmp(&self, other: &Self) -> (r: core::cmp::Ordering)
        ensures
            r == self.order_spec(other),
    {
        compare_opt_costs(self.state.best_cost(), other.state.best_cost())
    }
}

impl<O, P, G, H, J> OptimizationResult<O, IterState<P, G, H, J>> {
    /// Best cost, iteration of the last improvement, total iterations,
    /// termination reason and elapsed time.
    pub fn summary(&self) -> (r: ResultSummary)
        ensures
            r.best_cost == self.state.best_cost_spec(),
            r.last_best_iter == self.state.last_best_iter_spec(),
            r.iters == self.state.iter_spec(),
            r.reason == self.state.reason_spec(),
            r.time == self.state.time_spec(),
    {
        ResultSummary {
            best_cost: self.state.get_best_cost(),
            last_best_iter: self.state.get_last_best_iter(),
            iters: self.state.get_iter(),
            reason: self.state.get_termination_reason().clone(),
            time: self.state.get_time(),
        }
    }
}

impl<O, I: State> PartialEq for OptimizationResult<O, I> {
    fn eq(&self, other: &Self) -> (r: bool) {
        match self.cmp(other) {
            core::cmp::Ordering::Equal => true,
            _ => false,
        }
    }
}

impl<O, I: State> vstd::std_specs::cmp::PartialEqSpecImpl for OptimizationResult<O, I> {
    open spec fn obeys_eq_spec() -> bool {
        true
    }

    open spec fn eq_spec(&self, other: &Self) -> bool {
        self.order_spec(other) == core::cmp::Ordering::Equal
    }
}

impl<O, I: State> PartialOrd for OptimizationResult<O, I> {
    fn partial_cmp(&self, other: &Self) -> (r: Option<core::cmp::Ordering>) {
        Some(self.cmp(other))
    }
}

impl<O, I: State> vstd::std_specs::cmp::PartialOrdSpecImpl for OptimizationResult<O, I> {
    open spec fn obeys_partial_cmp_spec() -> bool {
        true
    }

    open spec fn partial_cmp_spec(&self, other: &Self) -> Option<core::cmp::Ordering> {
        Some(self.order_spec(other))
    }
}

} // verus!
