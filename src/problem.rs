//! The user's objective and the wrapper that counts every call made to it.

use vstd::prelude::*;
use crate::error::{Capability, EngineError};

verus! {

/// An objective supplied by the user. Each capability has a default body
/// that reports it as not implemented, so a problem offers any subset.
pub trait Objective {
    type Param;
    type Gradient;
    type Hessian;
    type Jacobian;
    type Output;

    /// Cost at `param`, in fixed-point units (see `cost::COST_SCALE`).
    fn cost(&self, param: &Self::Param) -> Result<i64, EngineError> {
        Err(EngineError::CapabilityNotImplemented(Capability::Cost))
    }

    /// Gradient at `param`.
    fn gradient(&self, param: &Self::Param) -> Result<Self::Gradient, EngineError> {
        Err(EngineError::CapabilityNotImplemented(Capability::Gradient))
    }

    /// Hessian at `param`.
    fn hessian(&self, param: &Self::Param) -> Result<Self::Hessian, EngineError> {
        Err(EngineError::CapabilityNotImplemented(Capability::Hessian))
    }

    /// Jacobian at `param`.
    fn jacobian(&self, param: &Self::Param) -> Result<Self::Jacobian, EngineError> {
        Err(EngineError::CapabilityNotImplemented(Capability::Jacobian))
    }

    /// A general operator applied to `param`.
    fn apply(&self, param: &Self::Param) -> Result<Self::Output, EngineError> {
        Err(EngineError::CapabilityNotImplemented(Capability::Operator))
    }
}

/// `n + 1`, held at the largest `u64`.
pub open spec fn sat_inc(n: u64) -> u64 {
    if n == u64::MAX { n } else { (n + 1) as u64 }
}

/// `n + k`, held at the largest `u64`.
pub open spec fn sat_add(n: u64, k: nat) -> u64 {
    if n + k >= u64::MAX { u64::MAX } else { (n + k) as u64 }
}

/// One more call after `k` calls is `k + 1` calls.
pub proof fn lemma_after_one_more(n: EvalCounts, c: Capability, k: nat)
    ensures
        n.after(c, k).after(c, 1) == n.after(c, k + 1),
{
}

/// Number of calls made to each capability.
#[derive(Clone, Copy, Debug, PartialEq, Eq, Structural)]
pub struct EvalCounts {
    pub cost: u64,
    pub gradient: u64,
    pub hessian: u64,
    pub jacobian: u64,
    pub operator: u64,
}

impl EvalCounts {
    pub open spec fn is_zero(self) -> bool {
        self.cost == 0 && self.gradient == 0 && self.hessian == 0 && self.jacobian == 0
            && self.operator == 0
    }

    /// These counts after `k` more calls of capability `c`.
    pub open spec fn after(self, c: Capability, k: nat) -> EvalCounts {
        match c {
            Capability::Cost => EvalCounts { cost: sat_add(self.cost, k), ..self },
            Capability::Gradient => EvalCounts { gradient: sat_add(self.gradient, k), ..self },
            Capability::Hessian => EvalCounts { hessian: sat_add(self.hessian, k), ..self },
            Capability::Jacobian => EvalCounts { jacobian: sat_add(self.jacobian, k), ..self },
            Capability::Operator => EvalCounts { operator: sat_add(self.operator, k), ..self },
        }
    }

    /// Every counter of `self` is at most the matching counter of `other`.
    pub open spec fn le(self, other: EvalCounts) -> bool {
        self.cost <= other.cost && self.gradient <= other.gradient && self.hessian
            <= other.hessian && self.jacobian <= other.jacobian && self.operator <= other.operator
    }

    /// All counters at zero.
    pub fn zero() -> (r: EvalCounts)
        ensures
            r.is_zero(),
    {
        EvalCounts { cost: 0, gradient: 0, hessian: 0, jacobian: 0, operator: 0 }
    }

    /// Count one more call of capability `c`.
    pub fn bump(&mut self, c: Capability)
        ensures
            *final(self) == old(self).after(c, 1),
    {
        match c {
            Capability::Cost => self.cost = self.cost.saturating_add(1),
            Capability::Gradient => self.gradient = self.gradient.saturating_add(1),
            Capability::Hessian => self.hessian = self.hessian.saturating_add(1),
            Capability::Jacobian => self.jacobian = self.jacobian.saturating_add(1),
            Capability::Operator => self.operator = self.operator.saturating_add(1),
        }
    }
}

/// Counts after `n` rounds that each make one cost call and one gradient call.
pub open spec fn after_rounds(c: EvalCounts, n: nat) -> EvalCounts
    decreases n,
{
    if n == 0 {
        c
    } else {
        after_rounds(c, (n - 1) as nat).after(Capability::Cost, 1).after(Capability::Gradient, 1)
    }
}

/// Starting from zero, `n` rounds of one cost call and one gradient call
/// leave exactly `n` cost calls and `n` gradient calls counted, and no other.
pub proof fn lemma_rounds_count_exactly(c: EvalCounts, n: nat)
    requires
        c.is_zero(),
        n <= u64::MAX,
    ensures
        after_rounds(c, n).cost == n,
        after_rounds(c, n).gradient == n,
        after_rounds(c, n).hessian == 0,
        after_rounds(c, n).jacobian == 0,
        after_rounds(c, n).operator == 0,
    decreases n,
{
    if n > 0 {
        lemma_rounds_count_exactly(c, (n - 1) as nat);
    }
}

/// Sole owner of a user problem; counts the calls made through it.
pub struct Problem<O> {
    problem: O,
    counts: EvalCounts,
}

impl<O: Objective> Problem<O> {
    /// The wrapped user problem.
    pub closed spec fn inner_spec(&self) -> O {
        self.problem
    }

    /// The counters.
    pub closed spec fn counts_spec(&self) -> EvalCounts {
        self.counts
    }

    /// Wraps `problem` with every counter at zero.
    pub fn new(problem: O) -> (r: Self)
        ensures
            r.inner_spec() == problem,
            r.counts_spec().is_zero(),
    {
        Problem { problem, counts: EvalCounts::zero() }
    }

    /// The wrapped user problem.
    pub fn inner(&self) -> (r: &O)
        ensures
            *r == self.inner_spec(),
    {
        &self.problem
    }

    /// Gives the user problem back.
    pub fn into_inner(self) -> (r: O)
        ensures
            r == self.inner_spec(),
    {
        self.problem
    }

    /// The counters.
    pub fn counts(&self) -> (r: EvalCounts)
        ensures
            r == self.counts_spec(),
    {
        self.counts
    }

    /// Puts back counters that were saved with a state, when a run resumes.
    pub(crate) fn restore_counts(&mut self, counts: EvalCounts)
        ensures
            final(self).counts_spec() == counts,
            final(self).inner_spec() == old(self).inner_spec(),
    {
        self.counts = counts;
    }

    /// Cost at `param`; counts one cost call.
    pub fn cost(&mut self, param: &O::Param) -> (r: Result<i64, EngineError>)
        ensures
            final(self).counts_spec() == old(self).counts_spec().after(Capability::Cost, 1),
            final(self).inner_spec() == old(self).inner_spec(),
    {
        self.counts.bump(Capability::Cost);
        self.problem.cost(param)
    }

    /// Gradient at `param`; counts one gradient call.
    pub fn gradient(&mut self, param: &O::Param) -> (r: Result<O::Gradient, EngineError>)
        ensures
            final(self).counts_spec() == old(self).counts_spec().after(Capability::Gradient, 1),
            final(self).inner_spec() == old(self).inner_spec(),
    {
        self.counts.bump(Capability::Gradient);
        self.problem.gradient(param)
    }

    /// Hessian at `param`; counts one Hessian call.
    pub fn hessian(&mut self, param: &O::Param) -> (r: Result<O::Hessian, EngineError>)
        ensures
            final(self).counts_spec() == old(self).counts_spec().after(Capability::Hessian, 1),
            final(self).inner_spec() == old(self).inner_spec(),
    {
        self.counts.bump(Capability::Hessian);
        self.problem.hessian(param)
    }

    /// Jacobian at `param`; counts one Jacobian call.
    pub fn jacobian(&mut self, param: &O::Param) -> (r: Result<O::Jacobian, EngineError>)
        ensures
            final(self).counts_spec() == old(self).counts_spec().after(Capability::Jacobian, 1),
            final(self).inner_spec() == old(self).inner_spec(),
    {
        self.counts.bump(Capability::Jacobian);
        self.problem.jacobian(param)
    }

    /// The operator applied to `param`; counts one operator call.
    pub fn apply(&mut self, param: &O::Param) -> (r: Result<O::Output, EngineError>)
        ensures
            final(self).counts_spec() == old(self).counts_spec().after(Capability::Operator, 1),
            final(self).inner_spec() == old(self).inner_spec(),
    {
        self.counts.bump(Capability::Operator);
        self.problem.apply(param)
    }

    /// The operator applied to each of `params`, in order. Stops at the first
    /// failure; every call made, the failing one included, is counted.
    pub fn bulk_apply(&mut self, params: &Vec<O::Param>) -> (r: Result<Vec<O::Output>, EngineError>)
        ensures
            final(self).inner_spec() == old(self).inner_spec(),
            r is Ok ==> r->Ok_0@.len() == params@.len() && final(self).counts_spec()
                == old(self).counts_spec().after(Capability::Operator, params@.len()),
            r is Err ==> exists|k: nat|
                1 <= k <= params@.len() && final(self).counts_spec()
                    == old(self).counts_spec().after(Capability::Operator, k),
    {
        let mut out: Vec<O::Output> = Vec::new();
        let mut i: usize = 0;
        while i < params.len()
            invariant
                i <= params@.len(),
                out@.len() == i,
                self.inner_spec() == old(self).inner_spec(),
                self.counts_spec() == old(self).counts_spec().after(Capability::Operator, i as nat),
            decreases params@.len() - i,
        {
            let res = self.apply(&params[i]);
            proof {
                lemma_after_one_more(old(self).counts_spec(), Capability::Operator, i as nat);
            }
            match res {
                Ok(v) => out.push(v),
                Err(e) => {
                    assert(1 <= i as nat + 1 <= params@.len());
                    return Err(e);
                },
            }
            i = i + 1;
        }
        Ok(out)
    }

    /// Costs at each of `params`, in order. Stops at the first failure; every
    /// call made, the failing one included, is counted.
    pub fn bulk_cost(&mut self, params: &Vec<O::Param>) -> (r: Result<Vec<i64>, EngineError>)
        ensures
            final(self).inner_spec() == old(self).inner_spec(),
            r is Ok ==> r->Ok_0@.len() == params@.len() && final(self).counts_spec()
                == old(self).counts_spec().after(Capability::Cost, params@.len()),
            r is Err ==> exists|k: nat|
                1 <= k <= params@.len() && final(self).counts_spec()
                    == old(self).counts_spec().after(Capability::Cost, k),
    {
        let mut out: Vec<i64> = Vec::new();
        let mut i: usize = 0;
        while i < params.len()
            invariant
                i <= params@.len(),
                out@.len() == i,
                self.inner_spec() == old(self).inner_spec(),
                self.counts_spec() == old(self).counts_spec().after(Capability::Cost, i as nat),
            decreases params@.len() - i,
        {
            let res = self.cost(&params[i]);
            proof {
                lemma_after_one_more(old(self).counts_spec(), Capability::Cost, i as nat);
            }
            match res {
                Ok(c) => out.push(c),
                Err(e) => {
                    assert(1 <= i as nat + 1 <= params@.len());
                    return Err(e);
                },
            }
            i = i + 1;
        }
        Ok(out)
    }
}

} // verus!
