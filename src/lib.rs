//! An engine for running iterative optimization algorithms: evaluation
//! bookkeeping, best-solution tracking, termination decisions, observation
//! and checkpoint cadence, and the run loop that ties them together.
//!
//! Costs are fixed-point integers (see `cost::COST_SCALE`), compared with a
//! tolerance of `cost::COST_EPSILON` units.

pub mod clock;
pub mod cost;
pub mod error;
pub mod executor;
pub mod observe;
pub mod problem;
pub mod result;
pub mod solver;
pub mod state;
pub mod termination;

pub use cost::{COST_EPSILON, COST_SCALE};
pub use error::{Capability, EngineError};
pub use executor::{accept_step, bookkeeping_intact, Executor, StateOf};
pub use observe::{Cadence, KvRecord, NoObserver, Observer, Snapshot};
pub use problem::{EvalCounts, Objective, Problem};
pub use result::{OptimizationResult, ResultSummary, State};
pub use solver::{Checkpoint, NoCheckpoint, Solver};
pub use state::{IterState, TerminationReason};
pub use termination::{check_termination, Limits, Progress};
