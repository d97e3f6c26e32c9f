use argmin::{
    accept_step, Cadence, Capability, Checkpoint, EngineError, EvalCounts, Executor, IterState, KvRecord,
    Limits, Objective, Observer, Problem, Snapshot, Solver, StateOf, TerminationReason,
    COST_SCALE,
};
use std::cell::RefCell;
use std::rc::Rc;
use std::sync::atomic::AtomicBool;
use std::sync::Arc;

fn units(v: f64) -> i64 {
    (v * COST_SCALE as f64).round() as i64
}

#[derive(Clone)]
struct Square;

impl Objective for Square {
    type Param = f64;
    type Gradient = f64;
    type Hessian = f64;
    type Jacobian = f64;
    type Output = f64;

    fn cost(&self, x: &f64) -> Result<i64, EngineError> {
        Ok(units(x * x))
    }

    fn gradient(&self, x: &f64) -> Result<f64, EngineError> {
        Ok(2.0 * x)
    }
}

/// x <- x - step * f'(x), with the cost at the new point.
#[derive(Clone, Debug, PartialEq)]
struct Descent {
    step: f64,
}

impl Solver<Square> for Descent {
    fn name(&self) -> String {
        "descent".to_string()
    }

    fn init(
        &mut self,
        problem: &mut Problem<Square>,
        state: &mut StateOf<Square>,
    ) -> Result<Option<KvRecord>, EngineError> {
        if let Some(x) = state.get_param().copied() {
            let c = problem.cost(&x)?;
            state.set_cost(c);
        }
        Ok(None)
    }

    fn next_iter(
        &mut self,
        problem: &mut Problem<Square>,
        state: &mut StateOf<Square>,
    ) -> Result<Option<KvRecord>, EngineError> {
        let x = state.take_param().unwrap();
        let g = problem.gradient(&x)?;
        let nx = x - self.step * g;
        let c = problem.cost(&nx)?;
        state.set_param(nx);
        state.set_cost(c);
        let mut kv = KvRecord::new();
        kv.push("step".to_string(), format!("{}", self.step));
        Ok(Some(kv))
    }
}

#[derive(Clone, Default)]
struct Log {
    snaps: Rc<RefCell<Vec<Snapshot>>>,
    names: Rc<RefCell<Vec<String>>>,
}

impl Observer for Log {
    fn observe_init(&mut self, solver_name: &String, _kv: &KvRecord) -> Result<(), EngineError> {
        self.names.borrow_mut().push(solver_name.clone());
        Ok(())
    }

    fn observe_iter(&mut self, snapshot: &Snapshot) -> Result<(), EngineError> {
        self.snaps.borrow_mut().push(snapshot.clone());
        Ok(())
    }
}

struct Failing;

impl Observer for Failing {
    fn observe_iter(&mut self, _snapshot: &Snapshot) -> Result<(), EngineError> {
        Err(EngineError::Observer("sink down".to_string()))
    }
}

fn descent(max_iters: u64, target: Option<f64>) -> Executor<Square, Descent, argmin::NoObserver, argmin::NoCheckpoint> {
    let mut limits = Limits::new(max_iters);
    limits.target_cost = target.map(units);
    Executor::new(Square, Descent { step: 0.1 })
        .param(10.0)
        .timer(false)
        .limits(limits)
        .unwrap()
}

#[test]
fn square_descent_runs_to_iteration_limit() {
    let log = Log::default();
    let (res, reported) = descent(50, None).observers(vec![(log.clone(), Cadence::Always)], false).run();
    assert!(reported.is_empty());
    let st = res.state();
    assert_eq!(st.get_termination_reason(), &TerminationReason::ExceededMaxIterations);
    assert_eq!(st.get_iter(), 50);
    let best = st.get_best_cost().unwrap();
    assert!(best.abs() <= units(1e-6));
    assert_eq!(st.get_last_best_iter(), 49);
    let snaps = log.snaps.borrow();
    assert_eq!(snaps.len(), 51);
    for w in snaps.windows(2) {
        assert!(w[1].best_cost.unwrap() < w[0].best_cost.unwrap());
        assert_eq!(w[1].iter, w[0].iter + 1);
    }
    assert_eq!(snaps[1].kv.entries, vec![("step".to_string(), "0.1".to_string())]);
    assert_eq!(snaps[50].reason, TerminationReason::ExceededMaxIterations);
    let x = *st.get_best_param().unwrap();
    assert!((x - 10.0 * 0.8f64.powi(50)).abs() < 1e-12);
}

#[test]
fn square_descent_stops_at_target_cost() {
    let (res, _) = descent(50, Some(1e-6)).run();
    let st = res.state();
    assert_eq!(st.get_termination_reason(), &TerminationReason::TargetCostReached);
    assert_eq!(st.get_iter(), 42);
    assert!(st.get_best_cost().unwrap() <= units(1e-6));
}

/// One cost call and one gradient call per iteration, nothing at start.
struct CostAndGradient;

impl Solver<Square> for CostAndGradient {
    fn name(&self) -> String {
        "cost and gradient".to_string()
    }

    fn next_iter(
        &mut self,
        problem: &mut Problem<Square>,
        state: &mut StateOf<Square>,
    ) -> Result<Option<KvRecord>, EngineError> {
        let x = *state.get_param().unwrap();
        let c = problem.cost(&x)?;
        let g = problem.gradient(&x)?;
        state.set_param(x - 0.25 * g);
        state.set_cost(c);
        Ok(None)
    }
}

#[test]
fn counts_match_calls_per_iteration() {
    for n in [1u64, 7, 20] {
        let (res, _) = Executor::new(Square, CostAndGradient)
            .param(3.0)
            .timer(false)
            .limits(Limits::new(n))
            .unwrap()
            .run();
        let c = res.operator().counts();
        assert_eq!(c.cost, n);
        assert_eq!(c.gradient, n);
        assert_eq!(c.hessian, 0);
        assert_eq!(res.state().get_counts(), c);
        assert_eq!(res.state().get_iter(), n);
    }
}

/// Needs the Hessian, which `Square` does not offer.
struct NewtonLike;

impl Solver<Square> for NewtonLike {
    fn name(&self) -> String {
        "newton".to_string()
    }

    fn next_iter(
        &mut self,
        problem: &mut Problem<Square>,
        state: &mut StateOf<Square>,
    ) -> Result<Option<KvRecord>, EngineError> {
        let x = *state.get_param().unwrap();
        let h = problem.hessian(&x)?;
        state.set_param(x - h);
        Ok(None)
    }
}

#[test]
fn missing_hessian_aborts_before_any_iteration() {
    let (res, _) = Executor::new(Square, NewtonLike)
        .param(1.0)
        .limits(Limits::new(10))
        .unwrap()
        .run();
    assert_eq!(
        res.state().get_termination_reason(),
        &TerminationReason::Aborted(EngineError::CapabilityNotImplemented(Capability::Hessian))
    );
    assert_eq!(res.state().get_iter(), 0);
    assert_eq!(res.operator().counts().hessian, 1);
}

/// Takes the parameter and never puts one back.
struct Forgetful;

impl Solver<Square> for Forgetful {
    fn name(&self) -> String {
        "forgetful".to_string()
    }

    fn next_iter(
        &mut self,
        _problem: &mut Problem<Square>,
        state: &mut StateOf<Square>,
    ) -> Result<Option<KvRecord>, EngineError> {
        let _ = state.take_param();
        Ok(None)
    }
}

#[test]
fn state_without_param_after_step_is_an_error() {
    let (res, _) = Executor::new(Square, Forgetful)
        .param(1.0)
        .limits(Limits::new(10))
        .unwrap()
        .run();
    assert_eq!(
        res.state().get_termination_reason(),
        &TerminationReason::Aborted(EngineError::ParamMissing)
    );
    assert_eq!(res.state().get_iter(), 0);
}

#[test]
fn run_without_initial_param_is_an_error() {
    let (res, _) = Executor::new(Square, Descent { step: 0.1 }).run();
    assert_eq!(
        res.state().get_termination_reason(),
        &TerminationReason::Aborted(EngineError::ParamMissing)
    );
}

/// Counts the iteration itself, which only the engine may do.
struct Meddler;

impl Solver<Square> for Meddler {
    fn name(&self) -> String {
        "meddler".to_string()
    }

    fn next_iter(
        &mut self,
        _problem: &mut Problem<Square>,
        state: &mut StateOf<Square>,
    ) -> Result<Option<KvRecord>, EngineError> {
        state.increment_iter();
        Ok(None)
    }
}

#[test]
fn step_that_changes_the_counter_is_refused() {
    let (res, _) = Executor::new(Square, Meddler)
        .param(1.0)
        .limits(Limits::new(10))
        .unwrap()
        .run();
    assert_eq!(
        res.state().get_termination_reason(),
        &TerminationReason::Aborted(EngineError::Bookkeeping)
    );
}

#[test]
fn accept_step_judges_and_counts() {
    let zero = EvalCounts { cost: 0, gradient: 0, hessian: 0, jacobian: 0, operator: 0 };
    let one = EvalCounts { cost: 1, ..zero };
    let mut st: IterState<f64, f64, f64, f64> = IterState::new().param(1.0).cost(units(5.0));
    assert!(accept_step(&mut st, 0, None, zero, one));
    assert_eq!(st.get_iter(), 1);
    assert_eq!(st.get_best_cost(), Some(units(5.0)));
    assert!(!accept_step(&mut st, 0, Some(units(5.0)), zero, one));
    assert_eq!(st.get_termination_reason(), &TerminationReason::Aborted(EngineError::Bookkeeping));
    let mut st2: IterState<f64, f64, f64, f64> = IterState::new().param(1.0);
    assert!(!accept_step(&mut st2, 0, None, one, zero));
    assert_eq!(st2.get_termination_reason(), &TerminationReason::Aborted(EngineError::Bookkeeping));
}

#[test]
fn missing_param_is_reported_even_when_the_step_ended_the_run() {
    let zero = EvalCounts { cost: 0, gradient: 0, hessian: 0, jacobian: 0, operator: 0 };
    let mut st: IterState<f64, f64, f64, f64> = IterState::new().param(1.0);
    let _ = st.take_param();
    st.set_termination_reason(TerminationReason::SolverConverged);
    assert!(!accept_step(&mut st, 0, None, zero, zero));
    assert_eq!(st.get_termination_reason(), &TerminationReason::Aborted(EngineError::ParamMissing));
}

/// Takes the parameter and declares itself done.
struct Quitter;

impl Solver<Square> for Quitter {
    fn name(&self) -> String {
        "quitter".to_string()
    }

    fn next_iter(
        &mut self,
        _problem: &mut Problem<Square>,
        state: &mut StateOf<Square>,
    ) -> Result<Option<KvRecord>, EngineError> {
        let _ = state.take_param();
        state.set_termination_reason(TerminationReason::SolverConverged);
        Ok(None)
    }
}

#[test]
fn run_reports_missing_param_over_a_step_reason() {
    let (res, _) = Executor::new(Square, Quitter).param(1.0).limits(Limits::new(10)).unwrap().run();
    assert_eq!(
        res.state().get_termination_reason(),
        &TerminationReason::Aborted(EngineError::ParamMissing)
    );
    assert_eq!(res.state().get_iter(), 0);
}

#[test]
fn zero_iteration_limit_alone_is_refused() {
    let r = Executor::new(Square, Descent { step: 0.1 }).limits(Limits::new(0));
    assert!(matches!(r, Err(EngineError::Configuration(_))));
}

#[test]
fn interrupt_flag_stops_before_any_iteration() {
    let flag = Arc::new(AtomicBool::new(true));
    let (res, _) = descent(50, None).interrupt_flag(flag).run();
    assert_eq!(res.state().get_termination_reason(), &TerminationReason::Aborted(EngineError::Interrupted));
    assert_eq!(res.state().get_iter(), 0);
}

/// Cost never changes, so nothing ever improves.
struct Still;

impl Solver<Square> for Still {
    fn name(&self) -> String {
        "still".to_string()
    }

    fn next_iter(
        &mut self,
        _problem: &mut Problem<Square>,
        state: &mut StateOf<Square>,
    ) -> Result<Option<KvRecord>, EngineError> {
        state.set_cost(units(1.0));
        Ok(None)
    }

    fn converged(&self, state: &StateOf<Square>) -> bool {
        state.get_iter() >= 100
    }
}

#[test]
fn no_improvement_window_stops_the_run() {
    let limits = Limits { max_iters: 50, max_time: None, target_cost: None, max_no_improvement: Some(4) };
    let (res, _) = Executor::new(Square, Still).param(1.0).limits(limits).unwrap().run();
    assert_eq!(res.state().get_termination_reason(), &TerminationReason::NoImprovement(4));
    assert_eq!(res.state().get_iter(), 4);
    assert_eq!(res.state().get_last_best_iter(), 0);
}

#[test]
fn solver_convergence_stops_the_run() {
    let (res, _) = Executor::new(Square, Still).param(1.0).limits(Limits::new(500)).unwrap().run();
    assert_eq!(res.state().get_termination_reason(), &TerminationReason::SolverConverged);
    assert_eq!(res.state().get_iter(), 100);
}

#[test]
fn timer_records_elapsed_time() {
    let (res, _) = Executor::new(Square, Descent { step: 0.1 })
        .param(1.0)
        .limits(Limits::new(3))
        .unwrap()
        .run();
    assert!(res.state().get_time().is_some());
    let (res, _) = descent(3, None).run();
    assert_eq!(res.state().get_time(), None);
}

#[test]
fn every_n_observer_sees_final_iteration() {
    let log = Log::default();
    let (_, _) = descent(7, None).observers(vec![(log.clone(), Cadence::Every(3))], false).run();
    let iters: Vec<u64> = log.snaps.borrow().iter().map(|s| s.iter).collect();
    assert_eq!(iters, vec![0, 3, 6, 7]);
    assert_eq!(*log.names.borrow(), vec!["descent".to_string()]);
}

#[test]
fn observer_failure_is_reported_or_fatal() {
    let (res, reported) = descent(3, None).observers(vec![(Failing, Cadence::Always)], false).run();
    assert_eq!(res.state().get_termination_reason(), &TerminationReason::ExceededMaxIterations);
    assert_eq!(reported.len(), 4);
    assert_eq!(reported[0], EngineError::Observer("sink down".to_string()));
    let (res, _) = descent(3, None).observers(vec![(Failing, Cadence::Always)], true).run();
    assert_eq!(
        res.state().get_termination_reason(),
        &TerminationReason::Aborted(EngineError::Observer("sink down".to_string()))
    );
    assert_eq!(res.state().get_iter(), 0);
}

type Saved = Rc<RefCell<Option<(Descent, StateOf<Square>)>>>;

struct Memory {
    slot: Saved,
    fail: bool,
    until: u64,
}

impl Checkpoint<Descent, f64, f64, f64, f64> for Memory {
    fn save(&mut self, solver: &Descent, state: &StateOf<Square>) -> Result<(), EngineError> {
        if self.fail {
            return Err(EngineError::Checkpoint("disk full".to_string()));
        }
        if state.get_iter() <= self.until {
            *self.slot.borrow_mut() = Some((solver.clone(), state.clone()));
        }
        Ok(())
    }

    fn load(&mut self) -> Result<Option<(Descent, StateOf<Square>)>, EngineError> {
        Ok(self.slot.borrow().clone())
    }
}

#[test]
fn checkpoint_round_trip_keeps_observable_fields() {
    let slot: Saved = Rc::new(RefCell::new(None));
    let (res, _) = descent(5, None)
        .checkpoint(Memory { slot: slot.clone(), fail: false, until: u64::MAX }, Cadence::Always, false, false)
        .run();
    let mut store = Memory { slot: slot.clone(), fail: false, until: u64::MAX };
    let (solver, st) = store.load().unwrap().unwrap();
    let orig = res.state();
    assert_eq!(solver, Descent { step: 0.1 });
    assert_eq!(st.get_best_cost(), orig.get_best_cost());
    assert_eq!(st.get_best_param(), orig.get_best_param());
    assert_eq!(st.get_iter(), orig.get_iter());
    assert_eq!(st.get_termination_reason(), orig.get_termination_reason());
    assert_eq!(st.get_counts(), orig.get_counts());
    assert_eq!(st.get_counts(), res.operator().counts());
}

#[test]
fn resumed_run_continues_counters() {
    let slot: Saved = Rc::new(RefCell::new(None));
    // This store keeps what was saved up to iteration 4 only.
    let _ = descent(10, None)
        .checkpoint(Memory { slot: slot.clone(), fail: false, until: 4 }, Cadence::Every(2), false, false)
        .run();
    let (_, saved) = slot.borrow().clone().unwrap();
    assert_eq!(saved.get_iter(), 4);
    assert!(!saved.terminated());
    assert_eq!(saved.get_counts().cost, 5);
    let (res, _) = descent(10, None)
        .checkpoint(Memory { slot: slot.clone(), fail: false, until: 0 }, Cadence::Never, true, false)
        .run();
    let (full, _) = descent(10, None).run();
    assert_eq!(res.state().get_iter(), 10);
    assert_eq!(res.operator().counts(), full.operator().counts());
    assert_eq!(res.state().get_counts(), full.state().get_counts());
    assert_eq!(res.state().get_best_cost(), full.state().get_best_cost());
    assert_eq!(res.state().get_termination_reason(), &TerminationReason::ExceededMaxIterations);
}

#[test]
fn resume_from_terminal_state_runs_no_step() {
    let slot: Saved = Rc::new(RefCell::new(None));
    // Save every iteration; the store then holds the final, terminal state.
    let (first, _) = descent(6, None)
        .checkpoint(Memory { slot: slot.clone(), fail: false, until: u64::MAX }, Cadence::Always, false, false)
        .run();
    assert_eq!(first.operator().counts().cost, 7);
    // Resuming from a terminal state runs no further step.
    let (again, _) = descent(12, None)
        .checkpoint(Memory { slot: slot.clone(), fail: false, until: u64::MAX }, Cadence::Never, true, false)
        .run();
    assert_eq!(again.state().get_iter(), 6);
    assert_eq!(again.operator().counts(), first.operator().counts());
    assert_eq!(again.state().get_best_cost(), first.state().get_best_cost());
}

#[test]
fn checkpoint_failure_is_reported_or_fatal() {
    let slot: Saved = Rc::new(RefCell::new(None));
    let (res, reported) = descent(2, None)
        .checkpoint(Memory { slot: slot.clone(), fail: true, until: u64::MAX }, Cadence::Always, false, false)
        .run();
    assert_eq!(res.state().get_termination_reason(), &TerminationReason::ExceededMaxIterations);
    assert_eq!(reported.len(), 3);
    let (res, _) = descent(2, None)
        .checkpoint(Memory { slot, fail: true, until: u64::MAX }, Cadence::Always, false, true)
        .run();
    assert_eq!(
        res.state().get_termination_reason(),
        &TerminationReason::Aborted(EngineError::Checkpoint("disk full".to_string()))
    );
}
