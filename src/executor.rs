//! The executor: composes a problem, a solver, limits, observers and a
//! checkpoint store, and runs the iteration loop to a terminal state.

use vstd::prelude::*;
use std::sync::Arc;
use std::sync::atomic::AtomicBool;
use std::time::Instant;
use crate::clock::micros_since;
use crate::error::EngineError;
use crate::observe::{is_due, notify, notify_init, snapshot, Cadence, KvRecord, NoObserver, Observer};
use crate::problem::{EvalCounts, Objective, Problem};
use crate::result::OptimizationResult;
use crate::solver::{Checkpoint, NoCheckpoint, Solver};
use crate::state::{best_from, is_improvement, next_best, IterState, TerminationReason};
use crate::termination::{apply_policy, progress_of, termination_for, Limits};

verus! {

/// The state type that a solver for problem `O` works on.
pub type StateOf<O> = IterState<
    <O as Objective>::Param,
    <O as Objective>::Gradient,
    <O as Objective>::Hessian,
    <O as Objective>::Jacobian,
>;

/// Whether two optional costs are the same.
fn same_cost(a: Option<i64>, b: Option<i64>) -> (r: bool)
    ensures
        r == (a == b),
{
    match (a, b) {
        (Some(x), Some(y)) => x == y,
        (None, None) => true,
        _ => false,
    }
}

/// Whether the interrupt flag, if there is one, is set.
fn interrupt_requested(flag: &Option<Arc<AtomicBool>>) -> bool {
    match flag {
        Some(f) => f.load(std::sync::atomic::Ordering::SeqCst),
        None => false,
    }
}

/// Whether a solver call left the engine's bookkeeping as it was: the
/// iteration counter and best cost it had before the call, and evaluation
/// counts no lower than before.
pub fn bookkeeping_intact<P, G, H, J>(
    state: &IterState<P, G, H, J>,
    iter_before: u64,
    best_before: Option<i64>,
    counts_before: EvalCounts,
    counts_after: EvalCounts,
) -> (r: bool)
    ensures
        r == (state.iter_spec() == iter_before && state.best_cost_spec() == best_before
            && counts_before.le(counts_after)),
{
    state.get_iter() == iter_before && same_cost(state.get_best_cost(), best_before)
        && counts_le(counts_before, counts_after)
}

/// Whether every counter of `a` is at most the matching counter of `b`.
fn counts_le(a: EvalCounts, b: EvalCounts) -> (r: bool)
    ensures
        r == a.le(b),
{
    a.cost <= b.cost && a.gradient <= b.gradient && a.hessian <= b.hessian && a.jacobian
        <= b.jacobian && a.operator <= b.operator
}

/// Takes in the state that a successful solver step handed back, given the
/// iteration counter, best cost and evaluation counts from before the step
/// and the counts after it. A step that changed the bookkeeping (see
/// `bookkeeping_intact`) ends the run with `Bookkeeping`; one that left no
/// current parameter ends it with `ParamMissing`, whatever reason the step
/// set itself. An accepted state has its best cost judged and its
/// iteration counted, and keeps its reason.
pub fn accept_step<P: Clone, G, H, J>(
    state: &mut IterState<P, G, H, J>,
    iter_before: u64,
    best_before: Option<i64>,
    counts_before: EvalCounts,
    counts_after: EvalCounts,
) -> (accepted: bool)
    requires
        iter_before < u64::MAX,
    ensures
        accepted == (old(state).iter_spec() == iter_before && old(state).best_cost_spec()
            == best_before && counts_before.le(counts_after) && old(state).param_spec() is Some),
        !accepted ==> final(state).reason_spec() == if old(state).iter_spec() != iter_before
            || old(state).best_cost_spec() != best_before || !counts_before.le(counts_after) {
            TerminationReason::Aborted(EngineError::Bookkeeping)
        } else {
            TerminationReason::Aborted(EngineError::ParamMissing)
        },
        !accepted ==> final(state).best_cost_spec() == old(state).best_cost_spec()
            && final(state).iter_spec() == old(state).iter_spec()
            && final(state).param_spec() == old(state).param_spec(),
        accepted ==> {
            &&& final(state).best_cost_spec() == next_best(
                old(state).best_cost_spec(),
                old(state).cost_spec(),
            )
            &&& final(state).iter_spec() == iter_before + 1
            &&& final(state).reason_spec() == old(state).reason_spec()
            &&& final(state).param_spec() == old(state).param_spec()
            &&& is_improvement(old(state).best_cost_spec(), old(state).cost_spec())
                ==> final(state).last_best_iter_spec() == iter_before
            &&& !is_improvement(old(state).best_cost_spec(), old(state).cost_spec())
                ==> final(state).last_best_iter_spec() == old(state).last_best_iter_spec()
        },
        final(state).counts_spec() == old(state).counts_spec(),
        final(state).time_spec() == old(state).time_spec(),
{
    if !bookkeeping_intact(state, iter_before, best_before, counts_before, counts_after) {
        state.abort(EngineError::Bookkeeping);
        false
    } else if state.get_param().is_none() {
        state.abort(EngineError::ParamMissing);
        false
    } else {
        state.update_best();
        state.increment_iter();
        true
    }
}

/// A configured run, ready to start.
pub struct Executor<O: Objective, S, B, C> {
    problem: Problem<O>,
    solver: S,
    state: StateOf<O>,
    limits: Limits,
    observers: Vec<(B, Cadence)>,
    observer_errors_fatal: bool,
    checkpoint: Option<(C, Cadence)>,
    checkpoint_mandatory: bool,
    resume: bool,
    interrupt: Option<Arc<AtomicBool>>,
    timer: bool,
}

impl<O: Objective, S: Solver<O>> Executor<O, S, NoObserver, NoCheckpoint> where O::Param: Clone {
    /// A run of `solver` on `problem` with an empty initial state, no limit
    /// but the largest iteration count, no observers and no checkpoints.
    pub fn new(problem: O, solver: S) -> (r: Self)
        ensures
            r.wf(),
            r.limits_spec() == Limits::new_spec(u64::MAX),
            r.state_spec().param_spec() is None,
            r.state_spec().reason_spec() is Running,
            r.state_spec().iter_spec() == 0,
            r.problem_spec().counts_spec().is_zero(),
            r.problem_spec().inner_spec() == problem,
            !r.resume_spec(),
            r.observers_spec().len() == 0,
            r.checkpoint_spec() is None,
            r.timer_spec(),
            r.interrupt_spec() is None,
    {
        Executor {
            problem: Problem::new(problem),
            solver,
            state: IterState::new(),
            limits: Limits::new(u64::MAX),
            observers: Vec::new(),
            observer_errors_fatal: false,
            checkpoint: None,
            checkpoint_mandatory: false,
            resume: false,
            interrupt: None,
            timer: true,
        }
    }
}

impl<O: Objective, S: Solver<O>, B: Observer, C: Checkpoint<
    S,
    O::Param,
    O::Gradient,
    O::Hessian,
    O::Jacobian,
>> Executor<O, S, B, C> where O::Param: Clone {
    /// The limits can stop a run and the state has not terminated yet.
    pub open spec fn wf(&self) -> bool {
        &&& self.limits_spec().usable()
        &&& self.state_spec().reason_spec() is Running
    }

    pub closed spec fn limits_spec(&self) -> Limits {
        self.limits
    }

    pub closed spec fn state_spec(&self) -> StateOf<O> {
        self.state
    }

    pub closed spec fn problem_spec(&self) -> Problem<O> {
        self.problem
    }

    pub closed spec fn resume_spec(&self) -> bool {
        self.resume
    }

    pub closed spec fn timer_spec(&self) -> bool {
        self.timer
    }

    pub closed spec fn interrupt_spec(&self) -> Option<Arc<AtomicBool>> {
        self.interrupt
    }

    pub closed spec fn observers_spec(&self) -> Seq<(B, Cadence)> {
        self.observers@
    }

    pub closed spec fn observer_errors_fatal_spec(&self) -> bool {
        self.observer_errors_fatal
    }

    pub closed spec fn checkpoint_spec(&self) -> Option<(C, Cadence)> {
        self.checkpoint
    }

    pub closed spec fn checkpoint_mandatory_spec(&self) -> bool {
        self.checkpoint_mandatory
    }

    /// Sets the initial parameter.
    pub fn param(self, param: O::Param) -> (r: Self)
        ensures
            r.state_spec().param_spec() == Some(param),
            r.state_spec().reason_spec() == self.state_spec().reason_spec(),
            r.state_spec().iter_spec() == self.state_spec().iter_spec(),
            r.limits_spec() == self.limits_spec(),
            r.problem_spec() == self.problem_spec(),
            r.resume_spec() == self.resume_spec(),
    {
        let mut e = self;
        e.state.set_param(param);
        e
    }

    /// Sets the limits. Refused when no limit could ever stop the run.
    pub fn limits(self, limits: Limits) -> (r: Result<Self, EngineError>)
        ensures
            r is Err <==> !limits.usable(),
            r is Err ==> r->Err_0 is Configuration,
            r is Ok ==> {
                &&& r->Ok_0.limits_spec() == limits
                &&& r->Ok_0.state_spec() == self.state_spec()
                &&& r->Ok_0.problem_spec() == self.problem_spec()
                &&& r->Ok_0.resume_spec() == self.resume_spec()
            },
    {
        if !limits.is_usable() {
            return Err(EngineError::Configuration(String::from_str(
                "the iteration limit is zero and no other limit is set",
            )));
        }
        let mut e = self;
        e.limits = limits;
        Ok(e)
    }

    /// Whether elapsed time is measured.
    pub fn timer(self, on: bool) -> (r: Self)
        ensures
            r.timer_spec() == on,
            r.interrupt_spec() == self.interrupt_spec(),
            r.state_spec() == self.state_spec(),
            r.limits_spec() == self.limits_spec(),
            r.problem_spec() == self.problem_spec(),
            r.resume_spec() == self.resume_spec(),
    {
        let mut e = self;
        e.timer = on;
        e
    }

    /// A flag that, once set from elsewhere, stops the run at the next
    /// iteration boundary.
    pub fn interrupt_flag(self, flag: Arc<AtomicBool>) -> (r: Self)
        ensures
            r.interrupt_spec() == Some(flag),
            r.timer_spec() == self.timer_spec(),
            r.state_spec() == self.state_spec(),
            r.limits_spec() == self.limits_spec(),
            r.problem_spec() == self.problem_spec(),
            r.resume_spec() == self.resume_spec(),
    {
        let mut e = self;
        e.interrupt = Some(flag);
        e
    }

    /// Registers the observer sinks, in the order in which they are served.
    /// With `fatal`, a failing sink aborts the run.
    pub fn observers<B2: Observer>(self, observers: Vec<(B2, Cadence)>, fatal: bool) -> (r: Executor<O, S, B2, C>)
        ensures
            r.observers_spec() == observers@,
            r.observer_errors_fatal_spec() == fatal,
            r.checkpoint_spec() == self.checkpoint_spec(),
            r.checkpoint_mandatory_spec() == self.checkpoint_mandatory_spec(),
            r.timer_spec() == self.timer_spec(),
            r.interrupt_spec() == self.interrupt_spec(),
            r.state_spec() == self.state_spec(),
            r.limits_spec() == self.limits_spec(),
            r.problem_spec() == self.problem_spec(),
            r.resume_spec() == self.resume_spec(),
    {
        Executor {
            problem: self.problem,
            solver: self.solver,
            state: self.state,
            limits: self.limits,
            observers,
            observer_errors_fatal: fatal,
            checkpoint: self.checkpoint,
            checkpoint_mandatory: self.checkpoint_mandatory,
            resume: self.resume,
            interrupt: self.interrupt,
            timer: self.timer,
        }
    }

    /// Sets the checkpoint store and its cadence. With `resume`, a run starts
    /// from the saved solver and state when there are any; with `mandatory`,
    /// a failing store aborts the run.
    pub fn checkpoint<C2: Checkpoint<S, O::Param, O::Gradient, O::Hessian, O::Jacobian>>(
        self,
        store: C2,
        cadence: Cadence,
        resume: bool,
        mandatory: bool,
    ) -> (r: Executor<O, S, B, C2>)
        ensures
            r.checkpoint_spec() == Some((store, cadence)),
            r.checkpoint_mandatory_spec() == mandatory,
            r.observers_spec() == self.observers_spec(),
            r.observer_errors_fatal_spec() == self.observer_errors_fatal_spec(),
            r.timer_spec() == self.timer_spec(),
            r.interrupt_spec() == self.interrupt_spec(),
            r.state_spec() == self.state_spec(),
            r.limits_spec() == self.limits_spec(),
            r.problem_spec() == self.problem_spec(),
            r.resume_spec() == resume,
    {
        Executor {
            problem: self.problem,
            solver: self.solver,
            state: self.state,
            limits: self.limits,
            observers: self.observers,
            observer_errors_fatal: self.observer_errors_fatal,
            checkpoint: Some((store, cadence)),
            checkpoint_mandatory: mandatory,
            resume,
            interrupt: self.interrupt,
            timer: self.timer,
        }
    }

    /// Runs to a terminal state. Restores the solver and state from the
    /// checkpoint store when resuming and one was saved; otherwise lets the
    /// solver prepare the state and judges its first cost. Then, at each
    /// iteration boundary, applies the termination policy, serves the
    /// observers and the store that are due, and while the state is running
    /// performs one solver step, checks the bookkeeping and the parameter it
    /// handed back, judges the best cost, copies the evaluation counts and
    /// counts the iteration. A failing solver call aborts the run with its
    /// error; what was recorded up to it stays in the result. Returns the
    /// result and the errors that did not decide the outcome, in order.
    ///
    /// For a fresh run the result records the costs that were judged: the
    /// best cost is what they make of the initial best cost, the counts only
    /// grew, and the reason is an abort, one a solver call set itself, or
    /// the policy's verdict on the final state. A final state without a
    /// current parameter was always aborted.
    pub fn run(self) -> (r: (OptimizationResult<O, StateOf<O>>, Vec<EngineError>))
        requires
            self.wf(),
        ensures
            !(r.0.state.reason_spec() is Running),
            r.0.state.counts_spec() == r.0.operator.counts_spec(),
            r.0.state.param_spec() is None ==> r.0.state.reason_spec() is Aborted,
            !self.resume_spec() && r.0.state.reason_spec() != TerminationReason::Aborted(
                EngineError::Bookkeeping,
            ) ==> {
                &&& r.0.state.best_cost_spec() == best_from(
                    self.state_spec().best_cost_spec(),
                    r.0.state.seen_spec(),
                )
                &&& self.problem_spec().counts_spec().le(r.0.operator.counts_spec())
            },
            !self.resume_spec() && !(r.0.state.reason_spec() is Aborted)
                && !r.0.state.ended_by_step_spec() ==> exists|interrupted: bool, converged: bool|
                r.0.state.reason_spec() == termination_for(
                    self.limits_spec(),
                    progress_of(r.0.state, interrupted, converged),
                ),
    {
        let ghost counts0 = self.problem_spec().counts_spec();
        let ghost best0 = self.state_spec().best_cost_spec();
        let Executor {
            mut problem,
            mut solver,
            mut state,
            limits,
            mut observers,
            observer_errors_fatal,
            mut checkpoint,
            checkpoint_mandatory,
            resume,
            interrupt,
            timer,
        } = self;
        let ghost mut seen: Seq<Option<i64>> = Seq::empty();
        let ghost mut ended = false;
        let ghost mut w_stop = false;
        let ghost mut w_conv = false;
        let mut reported: Vec<EngineError> = Vec::new();
        let start: Option<Instant> = if timer {
            Some(Instant::now())
        } else {
            None
        };
        let mut kv: Option<KvRecord> = None;
        let mut restored = false;
        if resume {
            let loaded = match &mut checkpoint {
                Some(pair) => pair.0.load(),
                None => Ok(None),
            };
            match loaded {
                Ok(Some(pair)) => {
                    let (s, st) = pair;
                    solver = s;
                    state = st;
                    let counts = state.get_counts();
                    problem.restore_counts(counts);
                    restored = true;
                    if state.get_param().is_none() && !state.get_termination_reason().is_aborted() {
                        state.abort(EngineError::ParamMissing);
                    }
                },
                Ok(None) => {},
                Err(e) => {
                    if checkpoint_mandatory {
                        state.set_termination_reason(TerminationReason::Aborted(e));
                    } else {
                        reported.push(e);
                    }
                },
            }
        }
        if !restored && !state.terminated() {
            let iter0 = state.get_iter();
            let best_before = state.get_best_cost();
            let counts_before = problem.counts();
            let res = solver.init(&mut problem, &mut state);
            let counts_after = problem.counts();
            let intact = bookkeeping_intact(&state, iter0, best_before, counts_before, counts_after);
            match res {
                Ok(k) => {
                    kv = k;
                    if !intact {
                        state.abort(EngineError::Bookkeeping);
                    } else if state.get_param().is_none() {
                        state.abort(EngineError::ParamMissing);
                    } else {
                        proof {
                            seen = seen.push(state.cost_spec());
                            ended = !(state.reason_spec() is Running);
                            assert(seen.drop_last() =~= Seq::<Option<i64>>::empty());
                        }
                        state.update_best();
                        assert(state.best_cost_spec() == best_from(best0, seen)) by {
                            reveal_with_fuel(best_from, 2);
                        }
                    }
                },
                Err(e) => {
                    if intact {
                        state.abort(e);
                    } else {
                        reported.push(e);
                        state.abort(EngineError::Bookkeeping);
                    }
                },
            }
        }
        state.set_counts(problem.counts());
        if !state.terminated() {
            let name = solver.name();
            let init_kv = match &kv {
                Some(k) => k.clone(),
                None => KvRecord::new(),
            };
            let mut errs = notify_init(&mut observers, &name, &init_kv);
            if observer_errors_fatal && errs.len() > 0 {
                state.set_termination_reason(TerminationReason::Aborted(errs[0].clone()));
            }
            reported.append(&mut errs);
        }
        let mut iter: u64 = state.get_iter();
        if !state.terminated() {
            match &start {
                Some(t0) => state.set_time(Some(micros_since(t0))),
                None => {},
            }
            let stop = interrupt_requested(&interrupt);
            let converged = solver.converged(&state);
            apply_policy(&mut state, &limits, stop, converged);
            proof {
                w_stop = stop;
                w_conv = converged;
            }
        }
        loop
            invariant
                state.reason_spec() is Running ==> state.iter_spec() == iter && iter
                    < limits.max_iters,
                state.counts_spec() == problem.counts_spec(),
                state.param_spec() is None ==> state.reason_spec() is Aborted,
                limits == self.limits_spec(),
                resume == self.resume_spec(),
                !resume ==> !restored,
                !resume && state.reason_spec() != TerminationReason::Aborted(EngineError::Bookkeeping)
                    ==> state.best_cost_spec() == best_from(best0, seen) && counts0.le(
                    problem.counts_spec(),
                ),
                !resume && !(state.reason_spec() is Running) && !(state.reason_spec() is Aborted)
                    && !ended ==> state.reason_spec() == termination_for(
                    limits,
                    progress_of(state, w_stop, w_conv),
                ),
            ensures
                !(state.reason_spec() is Running),
                state.counts_spec() == problem.counts_spec(),
                state.param_spec() is None ==> state.reason_spec() is Aborted,
                !resume && state.reason_spec() != TerminationReason::Aborted(EngineError::Bookkeeping)
                    ==> state.best_cost_spec() == best_from(best0, seen) && counts0.le(
                    problem.counts_spec(),
                ),
                !resume && !(state.reason_spec() is Aborted) && !ended ==> state.reason_spec()
                    == termination_for(limits, progress_of(state, w_stop, w_conv)),
            decreases (if state.reason_spec() is Running {
                2 * (limits.max_iters - iter) + 1
            } else {
                0
            }),
        {
            let terminal = state.terminated();
            let snap = snapshot(&state, kv);
            let mut errs = notify(&mut observers, &snap, terminal);
            if observer_errors_fatal && errs.len() > 0 {
                state.set_termination_reason(TerminationReason::Aborted(errs[0].clone()));
            }
            reported.append(&mut errs);
            match &mut checkpoint {
                Some(pair) => {
                    if is_due(pair.1, state.get_iter(), terminal) {
                        match pair.0.save(&solver, &state) {
                            Ok(()) => {},
                            Err(e) => {
                                if checkpoint_mandatory {
                                    state.set_termination_reason(
                                        TerminationReason::Aborted(e.clone()),
                                    );
                                }
                                reported.push(e);
                            },
                        }
                    }
                },
                None => {},
            }
            if terminal {
                break;
            }
            if state.terminated() {
                kv = None;
                continue;
            }
            let best_before = state.get_best_cost();
            let counts_before = problem.counts();
            let res = solver.next_iter(&mut problem, &mut state);
            let counts_after = problem.counts();
            match res {
                Err(e) => {
                    kv = None;
                    if bookkeeping_intact(&state, iter, best_before, counts_before, counts_after) {
                        state.abort(e);
                    } else {
                        reported.push(e);
                        state.abort(EngineError::Bookkeeping);
                    }
                },
                Ok(k) => {
                    kv = k;
                    let ghost c = state.cost_spec();
                    proof {
                        assert(seen.push(c).drop_last() =~= seen);
                    }
                    if accept_step(&mut state, iter, best_before, counts_before, counts_after) {
                        iter = iter + 1;
                        proof {
                            seen = seen.push(c);
                            ended = !(state.reason_spec() is Running);
                        }
                    }
                },
            }
            state.set_counts(problem.counts());
            if !state.terminated() {
                match &start {
                    Some(t0) => state.set_time(Some(micros_since(t0))),
                    None => {},
                }
                let stop = interrupt_requested(&interrupt);
                let converged = solver.converged(&state);
                apply_policy(&mut state, &limits, stop, converged);
                proof {
                    w_stop = stop;
                    w_conv = converged;
                }
            }
        }
        state.record_run(Ghost(seen), Ghost(ended));
        proof {
            if !resume && !(state.reason_spec() is Aborted) && !ended {
                assert(state.reason_spec() == termination_for(
                    limits,
                    progress_of(state, w_stop, w_conv),
                ));
            }
        }
        (OptimizationResult::new(problem, state), reported)
    }
}

} // verus!
