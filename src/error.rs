//! Error kinds of the engine, each tied to the stage that raised it.

use vstd::prelude::*;

verus! {

/// A capability that a user problem may offer.
#[derive(Clone, Copy, Debug, PartialEq, Eq, Structural)]
pub enum Capability {
    Cost,
    Gradient,
    Hessian,
    Jacobian,
    Operator,
}

/// What went wrong, and at which stage.
#[derive(Debug, PartialEq, Eq)]
pub enum EngineError {
    /// The user problem does not offer a capability that was asked of it.
    CapabilityNotImplemented(Capability),
    /// A numerical failure inside a solver step.
    Solver(String),
    /// A solver step returned a state without a current parameter.
    ParamMissing,
    /// The run was interrupted from outside.
    Interrupted,
    /// A solver step changed the iteration counter, the best cost or the
    /// evaluation counts, which only the engine may change.
    Bookkeeping,
    /// Saving or loading a checkpoint failed.
    Checkpoint(String),
    /// An observer sink failed.
    Observer(String),
    /// The configuration cannot be run.
    Configuration(String),
}

impl Clone for EngineError {
    fn clone(&self) -> (r: Self)
        ensures
            r == *self,
    {
        match self {
            EngineError::CapabilityNotImplemented(c) => EngineError::CapabilityNotImplemented(*c),
            EngineError::Solver(m) => EngineError::Solver(m.clone()),
            EngineError::ParamMissing => EngineError::ParamMissing,
            EngineError::Bookkeeping => EngineError::Bookkeeping,
            EngineError::Interrupted => EngineError::Interrupted,
            EngineError::Checkpoint(m) => EngineError::Checkpoint(m.clone()),
            EngineError::Observer(m) => EngineError::Observer(m.clone()),
            EngineError::Configuration(m) => EngineError::Configuration(m.clone()),
        }
    }
}

} // verus!
