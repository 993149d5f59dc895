//! Per-run bookkeeping: termination reasons, the output of one solver step,
//! and the iteration state that the executor merges those outputs into.

use vstd::prelude::*;

use crate::float::ArgminCostValue;

verus! {

/// Why a run stopped, or that it has not stopped.
#[derive(Clone, Copy, Debug, PartialEq, Eq, Structural)]
pub enum TerminationReason {
    /// The run goes on.
    NotTerminated,
    /// The configured maximum number of iterations was reached.
    MaxItersReached,
    /// The solver reached the precision it was asked for.
    TargetPrecisionReached,
    /// The cost fell to the target cost.
    TargetCostReached,
    /// The run was stopped for another reason.
    Aborted,
}

impl TerminationReason {
    /// Whether this reason ends a run.
    pub open spec fn is_terminal(self) -> bool {
        !(self is NotTerminated)
    }

    /// Whether this reason ends a run.
    pub fn terminated(&self) -> (r: bool)
        ensures
            r == self.is_terminal(),
    {
        !matches!(self, TerminationReason::NotTerminated)
    }

    /// A human-readable description.
    pub fn text(&self) -> String {
        match self {
            TerminationReason::NotTerminated => "Not terminated".to_string(),
            TerminationReason::MaxItersReached => "Maximum number of iterations reached".to_string(),
            TerminationReason::TargetPrecisionReached => "Target precision reached".to_string(),
            TerminationReason::TargetCostReached => "Target cost value reached".to_string(),
            TerminationReason::Aborted => "Optimization aborted".to_string(),
        }
    }
}

/// What one solver step reports: a new parameter and cost when it has them,
/// and whether the solver asks the run to stop.
pub struct ArgminIterData<P, F> {
    /// The new current parameter, if the step produced one.
    pub param: Option<P>,
    /// The cost at the new parameter, if the step computed it.
    pub cost: Option<F>,
    /// `NotTerminated`, or the reason for which the solver stops the run.
    pub termination_reason: TerminationReason,
}

impl<P, F> ArgminIterData<P, F> {
    /// A step output with nothing in it.
    pub fn new() -> (r: Self)
        ensures
            r.param is None,
            r.cost is None,
            r.termination_reason == TerminationReason::NotTerminated,
    {
        ArgminIterData { param: None, cost: None, termination_reason: TerminationReason::NotTerminated }
    }

    /// Sets the parameter.
    pub fn param(self, param: P) -> (r: Self)
        ensures
            r.param == Some(param),
            r.cost == self.cost,
            r.termination_reason == self.termination_reason,
    {
        ArgminIterData { param: Some(param), ..self }
    }

    /// Sets the cost.
    pub fn cost(self, cost: F) -> (r: Self)
        ensures
            r.param == self.param,
            r.cost == Some(cost),
            r.termination_reason == self.termination_reason,
    {
        ArgminIterData { cost: Some(cost), ..self }
    }

    /// Sets the termination reason.
    pub fn termination_reason(self, reason: TerminationReason) -> (r: Self)
        ensures
            r.param == self.param,
            r.cost == self.cost,
            r.termination_reason == reason,
    {
        ArgminIterData { termination_reason: reason, ..self }
    }
}

/// The state of one run: current, previous and best points, the iteration
/// count, the operator call counts and the termination reason.
pub struct IterState<P, F> {
    /// Current parameter.
    pub param: P,
    /// Parameter before the latest step that produced one.
    pub prev_param: P,
    /// Best parameter found so far.
    pub best_param: P,
    /// Best parameter before the latest merge.
    pub prev_best_param: P,
    /// Current cost.
    pub cost: F,
    /// Cost before the latest step that computed one.
    pub prev_cost: F,
    /// Best cost found so far.
    pub best_cost: F,
    /// Best cost before the latest merge.
    pub prev_best_cost: F,
    /// Number of completed iterations.
    pub iter: u64,
    /// Largest number of iterations of the run.
    pub max_iters: u64,
    /// Number of cost evaluations.
    pub cost_func_count: u64,
    /// Number of gradient evaluations.
    pub grad_func_count: u64,
    /// Number of Hessian evaluations.
    pub hessian_func_count: u64,
    /// Why the run stopped, or `NotTerminated`.
    pub termination_reason: TerminationReason,
}

impl<P: Clone, F: ArgminCostValue> IterState<P, F> {
    /// The best cost is the current cost, or the current cost is not below it.
    pub open spec fn best_not_above_current(self) -> bool {
        self.best_cost == self.cost || !self.cost.spec_lt(self.best_cost)
    }

    /// A fresh state at `param`: all costs infinite, nothing counted, not terminated.
    pub fn new(param: P) -> (r: Self)
        ensures
            r.param == param,
            cloned(param, r.prev_param),
            cloned(param, r.best_param),
            cloned(param, r.prev_best_param),
            r.cost == F::spec_infinity(),
            r.prev_cost == F::spec_infinity(),
            r.best_cost == F::spec_infinity(),
            r.prev_best_cost == F::spec_infinity(),
            r.iter == 0,
            r.max_iters == u64::MAX,
            r.cost_func_count == 0,
            r.grad_func_count == 0,
            r.hessian_func_count == 0,
            r.termination_reason == TerminationReason::NotTerminated,
            r.best_not_above_current(),
    {
        let inf = F::infinity();
        IterState {
            prev_param: param.clone(),
            best_param: param.clone(),
            prev_best_param: param.clone(),
            param,
            cost: inf,
            prev_cost: inf,
            best_cost: inf,
            prev_best_cost: inf,
            iter: 0,
            max_iters: u64::MAX,
            cost_func_count: 0,
            grad_func_count: 0,
            hessian_func_count: 0,
            termination_reason: TerminationReason::NotTerminated,
        }
    }

    /// Whether `next` is this state with the step output `data` merged in
    /// (all but the termination reason): the current point moves to the
    /// previous one where `data` brings a new one, the best point becomes the
    /// current one exactly when its cost is strictly lower, and the counters
    /// stay.
    pub open spec fn merged(self, next: Self, data: ArgminIterData<P, F>) -> bool {
        &&& match data.param {
            Some(p) => next.param == p && next.prev_param == self.param,
            None => next.param == self.param && next.prev_param == self.prev_param,
        }
        &&& match data.cost {
            Some(c) => next.cost == c && next.prev_cost == self.cost,
            None => next.cost == self.cost && next.prev_cost == self.prev_cost,
        }
        &&& next.prev_best_cost == self.best_cost
        &&& cloned(self.best_param, next.prev_best_param)
        &&& if next.cost.spec_lt(self.best_cost) {
            &&& next.best_cost == next.cost
            &&& cloned(next.param, next.best_param)
        } else {
            &&& next.best_cost == self.best_cost
            &&& next.best_param == self.best_param
        }
        &&& next.iter == self.iter
        &&& next.max_iters == self.max_iters
        &&& next.cost_func_count == self.cost_func_count
        &&& next.grad_func_count == self.grad_func_count
        &&& next.hessian_func_count == self.hessian_func_count
    }

    /// Merges the output of a step: the current point moves to the previous
    /// one where the step brings a new one, and the best point becomes the
    /// current one exactly when its cost is strictly lower.
    ///
    /// The iteration count and the termination reason are left to the caller.
    pub fn update(&mut self, data: ArgminIterData<P, F>)
        ensures
            old(self).merged(*final(self), data),
            final(self).termination_reason == old(self).termination_reason,
            final(self).best_cost == old(self).best_cost || final(self).best_cost.spec_lt(
                old(self).best_cost,
            ),
            final(self).best_not_above_current(),
    {
        match data.param {
            Some(p) => {
                let mut prev = p;
                std::mem::swap(&mut self.param, &mut prev);
                self.prev_param = prev;
            },
            None => {},
        }
        match data.cost {
            Some(c) => {
                self.prev_cost = self.cost;
                self.cost = c;
            },
            None => {},
        }
        self.prev_best_cost = self.best_cost;
        self.prev_best_param = self.best_param.clone();
        if self.cost.lt(self.best_cost) {
            self.best_cost = self.cost;
            self.best_param = self.param.clone();
        }
    }
}

} // verus!
