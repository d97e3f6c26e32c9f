//! Observation and checkpoint cadence, the per-iteration snapshot, and the
//! interfaces of observer sinks and checkpoint stores.

use vstd::prelude::*;
use crate::error::EngineError;
use crate::state::{IterState, TerminationReason};

verus! {

/// How often a sink is served.
#[derive(Clone, Copy, Debug, PartialEq, Eq, Structural)]
pub enum Cadence {
    /// Every iteration.
    Always,
    /// Every n-th iteration, and the final one.
    Every(u64),
    /// Never.
    Never,
}

/// Whether a sink with cadence `c` is served at iteration `iter`; `terminal`
/// says whether this is the final iteration of the run.
pub open spec fn due(c: Cadence, iter: u64, terminal: bool) -> bool {
    match c {
        Cadence::Always => true,
        Cadence::Every(n) => terminal || (n > 0 && iter % n == 0),
        Cadence::Never => false,
    }
}

/// Whether a sink with cadence `c` is served at iteration `iter`.
pub fn is_due(c: Cadence, iter: u64, terminal: bool) -> (r: bool)
    ensures
        r == due(c, iter, terminal),
{
    match c {
        Cadence::Always => true,
        Cadence::Every(n) => terminal || (n > 0 && iter % n == 0),
        Cadence::Never => false,
    }
}

/// Number of sinks in `obs` whose cadence satisfies `served`.
pub open spec fn count_served<B>(obs: Seq<(B, Cadence)>, served: spec_fn(Cadence) -> bool) -> nat
    decreases obs.len(),
{
    if obs.len() == 0 {
        0
    } else {
        count_served(obs.drop_last(), served) + if served(obs.last().1) {
            1nat
        } else {
            0nat
        }
    }
}

/// No sink is counted when none satisfies `served`.
proof fn lemma_none_served<B>(obs: Seq<(B, Cadence)>, served: spec_fn(Cadence) -> bool)
    requires
        forall|i: int| 0 <= i < obs.len() ==> !served(#[trigger] obs[i].1),
    ensures
        count_served(obs, served) == 0,
    decreases obs.len(),
{
    if obs.len() > 0 {
        let init = obs.drop_last();
        assert forall|i: int| 0 <= i < init.len() implies !served(#[trigger] init[i].1) by {
            assert(init[i] == obs[i]);
        }
        lemma_none_served(init, served);
        assert(!served(obs[obs.len() - 1].1));
    }
}

/// Auxiliary key-value pairs that a solver reports with a step.
#[derive(Clone, Debug, PartialEq, Eq)]
pub struct KvRecord {
    pub entries: Vec<(String, String)>,
}

impl KvRecord {
    /// No pairs.
    pub fn new() -> (r: KvRecord)
        ensures
            r.entries@.len() == 0,
    {
        KvRecord { entries: Vec::new() }
    }

    /// Adds one pair at the end.
    pub fn push(&mut self, key: String, value: String)
        ensures
            final(self).entries@ == old(self).entries@.push((key, value)),
    {
        self.entries.push((key, value));
    }
}

/// What an observer sink receives for one iteration.
#[derive(Clone, Debug, PartialEq, Eq)]
pub struct Snapshot {
    pub iter: u64,
    pub time: Option<u64>,
    pub best_cost: Option<i64>,
    pub cost: Option<i64>,
    pub reason: TerminationReason,
    pub kv: KvRecord,
}

/// Builds the snapshot of `state`, with the solver's pairs `kv` if any.
pub fn snapshot<P, G, H, J>(state: &IterState<P, G, H, J>, kv: Option<KvRecord>) -> (r: Snapshot)
    ensures
        r.iter == state.iter_spec(),
        r.time == state.time_spec(),
        r.best_cost == state.best_cost_spec(),
        r.cost == state.cost_spec(),
        r.reason == state.reason_spec(),
        kv is Some ==> r.kv == kv->Some_0,
        kv is None ==> r.kv.entries@.len() == 0,
{
    let kv = match kv {
        Some(k) => k,
        None => KvRecord::new(),
    };
    Snapshot {
        iter: state.get_iter(),
        time: state.get_time(),
        best_cost: state.get_best_cost(),
        cost: state.get_cost(),
        reason: state.get_termination_reason().clone(),
        kv,
    }
}

/// A sink that receives snapshots.
pub trait Observer {
    /// Receives the solver's name and its pairs when a run starts.
    fn observe_init(&mut self, solver_name: &String, kv: &KvRecord) -> Result<(), EngineError> {
        Ok(())
    }

    /// Receives the snapshot of one iteration.
    fn observe_iter(&mut self, snapshot: &Snapshot) -> Result<(), EngineError>;
}

/// A sink that ignores everything, for runs without observers.
pub struct NoObserver;

impl Observer for NoObserver {
    fn observe_iter(&mut self, snapshot: &Snapshot) -> Result<(), EngineError> {
        Ok(())
    }
}

/// Announces a run to each sink that is ever served, in the order in which
/// the sinks were registered, and returns the failures in that order.
pub fn notify_init<B: Observer>(
    observers: &mut Vec<(B, Cadence)>,
    solver_name: &String,
    kv: &KvRecord,
) -> (r: Vec<EngineError>)
    ensures
        final(observers)@.len() == old(observers)@.len(),
        forall|i: int|
            0 <= i < old(observers)@.len() ==> (#[trigger] final(observers)@[i]).1 == old(
                observers,
            )@[i].1,
        forall|i: int|
            0 <= i < old(observers)@.len() && old(observers)@[i].1 is Never
                ==> #[trigger] final(observers)@[i] == old(observers)@[i],
        r@.len() <= count_served(old(observers)@, |c: Cadence| !(c is Never)),
        (forall|i: int| 0 <= i < old(observers)@.len() ==> (#[trigger] old(observers)@[i]).1 is Never)
            ==> r@.len() == 0,
{
    let mut errs: Vec<EngineError> = Vec::new();
    let mut i: usize = 0;
    while i < observers.len()
        invariant
            i <= observers@.len(),
            observers@.len() == old(observers)@.len(),
            errs@.len() <= i,
            forall|j: int| 0 <= j < observers@.len() ==> (#[trigger] observers@[j]).1 == old(observers)@[j].1,
            forall|j: int|
                0 <= j < observers@.len() && (i <= j || old(observers)@[j].1 is Never)
                    ==> #[trigger] observers@[j] == old(observers)@[j],
            errs@.len() <= count_served(old(observers)@.take(i as int), |c: Cadence| !(c is Never)),
        decreases observers@.len() - i,
    {
        proof {
            assert(old(observers)@.take(i + 1).drop_last() =~= old(observers)@.take(i as int));
        }
        let silent = match observers[i].1 {
            Cadence::Never => true,
            _ => false,
        };
        if !silent {
            let res = observers[i].0.observe_init(solver_name, kv);
            if let Err(e) = res {
                errs.push(e);
            }
        }
        i = i + 1;
    }
    proof {
        assert(old(observers)@.take(i as int) =~= old(observers)@);
        if forall|k: int| 0 <= k < old(observers)@.len() ==> (#[trigger] old(observers)@[k]).1 is Never {
            lemma_none_served(old(observers)@, |c: Cadence| !(c is Never));
        }
    }
    errs
}

/// Serves `snapshot` to each sink whose cadence is due, in the order in
/// which the sinks were registered, and returns the failures in that order.
pub fn notify<B: Observer>(
    observers: &mut Vec<(B, Cadence)>,
    snapshot: &Snapshot,
    terminal: bool,
) -> (r: Vec<EngineError>)
    ensures
        final(observers)@.len() == old(observers)@.len(),
        forall|i: int|
            0 <= i < old(observers)@.len() ==> (#[trigger] final(observers)@[i]).1 == old(
                observers,
            )@[i].1,
        forall|i: int|
            0 <= i < old(observers)@.len() && !due(old(observers)@[i].1, snapshot.iter, terminal)
                ==> #[trigger] final(observers)@[i] == old(observers)@[i],
        r@.len() <= count_served(old(observers)@, |c: Cadence| due(c, snapshot.iter, terminal)),
        (forall|i: int|
            0 <= i < old(observers)@.len() ==> !due(
                (#[trigger] old(observers)@[i]).1,
                snapshot.iter,
                terminal,
            )) ==> r@.len() == 0,
{
    let mut errs: Vec<EngineError> = Vec::new();
    let mut i: usize = 0;
    while i < observers.len()
        invariant
            i <= observers@.len(),
            observers@.len() == old(observers)@.len(),
            errs@.len() <= i,
            forall|j: int| 0 <= j < observers@.len() ==> (#[trigger] observers@[j]).1 == old(observers)@[j].1,
            forall|j: int|
                0 <= j < observers@.len() && (i <= j || !due(old(observers)@[j].1, snapshot.iter, terminal))
                    ==> #[trigger] observers@[j] == old(observers)@[j],
            errs@.len() <= count_served(
                old(observers)@.take(i as int),
                |c: Cadence| due(c, snapshot.iter, terminal),
            ),
        decreases observers@.len() - i,
    {
        proof {
            assert(old(observers)@.take(i + 1).drop_last() =~= old(observers)@.take(i as int));
        }
        if is_due(observers[i].1, snapshot.iter, terminal) {
            let res = observers[i].0.observe_iter(snapshot);
            if let Err(e) = res {
                errs.push(e);
            }
        }
        i = i + 1;
    }
    proof {
        assert(old(observers)@.take(i as int) =~= old(observers)@);
        if forall|k: int|
            0 <= k < old(observers)@.len() ==> !due(
                (#[trigger] old(observers)@[k]).1,
                snapshot.iter,
                terminal,
            ) {
            lemma_none_served(old(observers)@, |c: Cadence| due(c, snapshot.iter, terminal));
        }
    }
    errs
}

} // verus!
