//! The interfaces that algorithms and checkpoint stores implement.

use vstd::prelude::*;
use crate::error::EngineError;
use crate::observe::KvRecord;
use crate::problem::{Objective, Problem};
use crate::state::IterState;

verus! {

/// One optimization algorithm, run one outer iteration at a time. A step
/// may take the current parameter out of the state, but must set a new one
/// before it returns.
pub trait Solver<O: Objective> {
    /// The name under which the algorithm is reported.
    fn name(&self) -> String;

    /// Prepares the state before the first iteration.
    fn init(
        &mut self,
        problem: &mut Problem<O>,
        state: &mut IterState<O::Param, O::Gradient, O::Hessian, O::Jacobian>,
    ) -> Result<Option<KvRecord>, EngineError> {
        Ok(None)
    }

    /// Performs one iteration, with the pairs to report for it.
    fn next_iter(
        &mut self,
        problem: &mut Problem<O>,
        state: &mut IterState<O::Param, O::Gradient, O::Hessian, O::Jacobian>,
    ) -> Result<Option<KvRecord>, EngineError>;

    /// Whether the algorithm considers itself converged at `state`.
    fn converged(&self, state: &IterState<O::Param, O::Gradient, O::Hessian, O::Jacobian>) -> bool {
        false
    }
}

/// A store for a solver and its state, so that a run can resume.
pub trait Checkpoint<S, P, G, H, J> {
    /// Saves the solver and the state.
    fn save(&mut self, solver: &S, state: &IterState<P, G, H, J>) -> Result<(), EngineError>;

    /// The last saved solver and state, if any.
    fn load(&mut self) -> Result<Option<(S, IterState<P, G, H, J>)>, EngineError>;
}

/// A store that keeps nothing, for runs without checkpoints.
pub struct NoCheckpoint;

impl<S, P, G, H, J> Checkpoint<S, P, G, H, J> for NoCheckpoint {
    fn save(&mut self, solver: &S, state: &IterState<P, G, H, J>) -> Result<(), EngineError> {
        Ok(())
    }

    fn load(&mut self) -> Result<Option<(S, IterState<P, G, H, J>)>, EngineError> {
        Ok(None)
    }
}

} // verus!
