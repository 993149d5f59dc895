//! The executor: runs a solver on an operator from an initial parameter until
//! the solver asks to stop or the iteration cap is reached.

use vstd::prelude::*;

use crate::errors::ArgminError;
use crate::float::ArgminCostValue;
use crate::observer::{ArgminObserver, NoObserver, ObserverMode};
use crate::op::{ArgminOp, OpWrapper};
use crate::solver::ArgminSolver;
use crate::state::{ArgminIterData, IterState, TerminationReason};

verus! {

/// The outcome of a run: the operator handed back and the final state.
pub struct ArgminResult<O: ArgminOp> {
    /// The operator of the run.
    pub operator: O,
    /// The state at the end of the run, with the operator call counts.
    pub state: IterState<O::Param, O::Output>,
}

impl<O: ArgminOp> ArgminResult<O> {
    /// The final state.
    pub fn state(&self) -> (r: &IterState<O::Param, O::Output>)
        ensures
            *r == self.state,
    {
        &self.state
    }

    /// A human-readable account of how the run ended: the termination reason,
    /// the iteration count and the operator call counts.
    ///
    /// Costs and parameters are of the caller's types, which render themselves.
    pub fn text(&self) -> String {
        let mut s = "Termination reason: ".to_string();
        s.append(self.state.termination_reason.text().as_str());
        s.append("\nIterations: ");
        s.append(self.state.iter.to_string().as_str());
        s.append("\nCost function evaluations: ");
        s.append(self.state.cost_func_count.to_string().as_str());
        s.append("\nGradient evaluations: ");
        s.append(self.state.grad_func_count.to_string().as_str());
        s.append("\nHessian evaluations: ");
        s.append(self.state.hessian_func_count.to_string().as_str());
        s
    }
}

/// One run of a solver on an operator.
pub struct Executor<O: ArgminOp, S> {
    /// The operator to minimize.
    pub op: O,
    /// The algorithm.
    pub solver: S,
    /// The state the run starts from.
    pub state: IterState<O::Param, O::Output>,
}

/// Copies the wrapper's call counts into the state.
fn record_counts<O: ArgminOp>(state: &mut IterState<O::Param, O::Output>, op: &OpWrapper<O>)
    ensures
        *final(state) == (IterState {
            cost_func_count: op.cost_func_count,
            grad_func_count: op.grad_func_count,
            hessian_func_count: op.hessian_func_count,
            ..*old(state)
        }),
{
    state.cost_func_count = op.cost_func_count;
    state.grad_func_count = op.grad_func_count;
    state.hessian_func_count = op.hessian_func_count;
}

impl<O, S> Executor<O, S> where O: ArgminOp, O::Param: Clone, O::Output: ArgminCostValue, S:
    ArgminSolver<O> {
    /// Sets up a run of `solver` on `op` from `init_param`, with no iteration cap.
    pub fn new(op: O, solver: S, init_param: O::Param) -> (r: Self)
        ensures
            r.op == op,
            r.solver == solver,
            r.state.param == init_param,
            cloned(init_param, r.state.prev_param),
            cloned(init_param, r.state.best_param),
            cloned(init_param, r.state.prev_best_param),
            r.state.cost == O::Output::spec_infinity(),
            r.state.prev_cost == O::Output::spec_infinity(),
            r.state.best_cost == O::Output::spec_infinity(),
            r.state.prev_best_cost == O::Output::spec_infinity(),
            r.state.cost_func_count == 0,
            r.state.grad_func_count == 0,
            r.state.hessian_func_count == 0,
            r.state.iter == 0,
            r.state.max_iters == u64::MAX,
            r.state.termination_reason == TerminationReason::NotTerminated,
            r.state.best_not_above_current(),
    {
        Executor { op, solver, state: IterState::new(init_param) }
    }

    /// Caps the number of iterations.
    pub fn max_iters(self, max_iters: u64) -> (r: Self)
        ensures
            r.op == self.op,
            r.solver == self.solver,
            r.state == (IterState { max_iters, ..self.state }),
    {
        let mut s = self;
        s.state.max_iters = max_iters;
        s
    }

    /// Merges a step output into `state` (see `IterState::merged`) and takes
    /// over its termination reason if that reason ends the run.
    pub fn merge(state: &mut IterState<O::Param, O::Output>, data: ArgminIterData<O::Param, O::Output>)
        ensures
            old(state).merged(*final(state), data),
            final(state).best_not_above_current(),
            final(state).best_cost == old(state).best_cost || final(state).best_cost.spec_lt(
                old(state).best_cost,
            ),
            final(state).iter == old(state).iter,
            final(state).max_iters == old(state).max_iters,
            final(state).termination_reason == if data.termination_reason.is_terminal() {
                data.termination_reason
            } else {
                old(state).termination_reason
            },
    {
        let reason = data.termination_reason;
        state.update(data);
        if reason.terminated() {
            state.termination_reason = reason;
        }
    }

    /// Takes in the outcome of one solver step, made when the state was below
    /// the iteration cap. An error is returned as it came and leaves the state
    /// unchanged. Otherwise the output is merged (see `merge`), the iteration
    /// count goes up by one, the counters become those of `op`, and the result
    /// tells whether the run goes on: no terminal reason and still below the cap.
    pub fn advance(
        state: &mut IterState<O::Param, O::Output>,
        step: Result<ArgminIterData<O::Param, O::Output>, ArgminError>,
        op: &OpWrapper<O>,
    ) -> (r: Result<bool, ArgminError>)
        requires
            old(state).iter < old(state).max_iters,
        ensures
            step matches Err(e) ==> r == Err::<bool, ArgminError>(e) && *final(state) == *old(state),
            step matches Ok(d) ==> {
                &&& old(state).merged(
                    (IterState {
                        iter: old(state).iter,
                        cost_func_count: old(state).cost_func_count,
                        grad_func_count: old(state).grad_func_count,
                        hessian_func_count: old(state).hessian_func_count,
                        termination_reason: old(state).termination_reason,
                        ..*final(state)
                    }),
                    d,
                )
                &&& final(state).iter == old(state).iter + 1
                &&& final(state).cost_func_count == op.cost_func_count
                &&& final(state).grad_func_count == op.grad_func_count
                &&& final(state).hessian_func_count == op.hessian_func_count
                &&& final(state).termination_reason == if d.termination_reason.is_terminal() {
                    d.termination_reason
                } else {
                    old(state).termination_reason
                }
                &&& final(state).best_not_above_current()
                &&& r == Ok::<bool, ArgminError>(
                    !final(state).termination_reason.is_terminal() && final(state).iter
                        < final(state).max_iters,
                )
            },
    {
        let data = match step {
            Ok(d) => d,
            Err(e) => return Err(e),
        };
        Self::merge(state, data);
        state.iter = state.iter + 1;
        record_counts(state, op);
        Ok(!state.termination_reason.terminated() && state.iter < state.max_iters)
    }

    /// Runs the solver without observers; see [`Executor::run_observed`].
    pub fn run(self) -> (r: Result<ArgminResult<O>, ArgminError>)
        requires
            self.state.iter <= self.state.max_iters,
            !self.state.termination_reason.is_terminal(),
            self.state.best_not_above_current(),
        ensures
            r matches Ok(res) ==> {
                &&& res.operator == self.op
                &&& res.state.termination_reason.is_terminal()
                &&& res.state.max_iters == self.state.max_iters
                &&& self.state.iter <= res.state.iter <= self.state.max_iters
                &&& res.state.best_not_above_current()
                &&& res.state.termination_reason == TerminationReason::MaxItersReached
                    ==> res.state.iter == res.state.max_iters
                &&& !self.solver.signals_termination() ==> res.state.iter == res.state.max_iters
                    && res.state.termination_reason == TerminationReason::MaxItersReached
            },
    {
        let mut none: Vec<(NoObserver, ObserverMode)> = Vec::new();
        self.run_observed(&mut none)
    }

    /// Runs the solver: `init` once, then one step per iteration until a step
    /// reports a termination reason or `max_iters` iterations are done.
    ///
    /// After each merge, the observers are notified in order, each one whose
    /// mode fires. The first error of the solver, of the operator or of an
    /// observer ends the run and is returned; no step follows it.
    pub fn run_observed<B: ArgminObserver<O::Param, O::Output>>(
        self,
        observers: &mut Vec<(B, ObserverMode)>,
    ) -> (r: Result<ArgminResult<O>, ArgminError>)
        requires
            self.state.iter <= self.state.max_iters,
            !self.state.termination_reason.is_terminal(),
            self.state.best_not_above_current(),
        ensures
            r matches Ok(res) ==> {
                &&& res.operator == self.op
                &&& res.state.termination_reason.is_terminal()
                &&& res.state.max_iters == self.state.max_iters
                &&& self.state.iter <= res.state.iter <= self.state.max_iters
                &&& res.state.best_not_above_current()
                &&& res.state.termination_reason == TerminationReason::MaxItersReached
                    ==> res.state.iter == res.state.max_iters
                &&& !self.solver.signals_termination() ==> res.state.iter == res.state.max_iters
                    && res.state.termination_reason == TerminationReason::MaxItersReached
            },
            final(observers)@.len() == old(observers)@.len(),
    {
        let mut op = OpWrapper::new(self.op);
        let mut solver = self.solver;
        let mut state = self.state;
        let ghost stops = solver.signals_termination();
        let init_data = solver.init(&mut op, &state);
        match init_data {
            Ok(Some(data)) => {
                Self::merge(&mut state, data);
                record_counts(&mut state, &op);
                match notify_observers(observers, &state) {
                    Ok(()) => {},
                    Err(e) => return Err(e),
                }
            },
            Ok(None) => record_counts(&mut state, &op),
            Err(e) => return Err(e),
        }
        while !state.termination_reason.terminated()
            invariant
                op.op == self.op,
                solver.signals_termination() == stops,
                stops == self.solver.signals_termination(),
                state.max_iters == self.state.max_iters,
                self.state.iter <= state.iter <= state.max_iters,
                state.best_not_above_current(),
                state.termination_reason == TerminationReason::MaxItersReached ==> state.iter
                    == state.max_iters,
                !stops ==> state.termination_reason is NotTerminated || state.termination_reason
                    == TerminationReason::MaxItersReached,
                observers@.len() == old(observers)@.len(),
            ensures
                state.termination_reason.is_terminal(),
                self.state.iter <= state.iter <= state.max_iters,
                state.best_not_above_current(),
                state.termination_reason == TerminationReason::MaxItersReached ==> state.iter
                    == state.max_iters,
                !stops ==> state.termination_reason == TerminationReason::MaxItersReached,
                observers@.len() == old(observers)@.len(),
            decreases u64::MAX - state.iter,
        {
            if state.iter >= state.max_iters {
                state.termination_reason = TerminationReason::MaxItersReached;
                break;
            }
            let data = solver.next_iter(&mut op, &state);
            match Self::advance(&mut state, data, &op) {
                Ok(_) => {},
                Err(e) => return Err(e),
            }
            match notify_observers(observers, &state) {
                Ok(()) => {},
                Err(e) => return Err(e),
            }
        }
        Ok(ArgminResult { operator: op.op, state })
    }
}

/// Notifies, in order, each observer whose mode fires at the state's iteration
/// count; the first error ends the notification and is returned.
pub fn notify_observers<P, F, B: ArgminObserver<P, F>>(
    observers: &mut Vec<(B, ObserverMode)>,
    state: &IterState<P, F>,
) -> (r: Result<(), ArgminError>)
    ensures
        final(observers)@.len() == old(observers)@.len(),
        forall|i: int|
            0 <= i < final(observers)@.len() ==> (#[trigger] final(observers)@[i]).1 == old(
                observers,
            )@[i].1,
{
    let n = observers.len();
    let mut i: usize = 0;
    while i < n
        invariant
            n == old(observers)@.len(),
            observers@.len() == n,
            i <= n,
            forall|j: int| 0 <= j < n ==> (#[trigger] observers@[j]).1 == old(observers)@[j].1,
        decreases n - i,
    {
        let (mut observer, mode) = observers.remove(i);
        let outcome = if mode.fires(state.iter) {
            observer.observe_iter(state)
        } else {
            Ok(())
        };
        observers.insert(i, (observer, mode));
        match outcome {
            Ok(()) => {},
            Err(e) => return Err(e),
        }
        i = i + 1;
    }
    Ok(())
}

} // verus!
