//! The contract between the executor and an optimization algorithm.

use vstd::prelude::*;

use crate::errors::ArgminError;
use crate::op::{ArgminOp, OpWrapper};
use crate::state::{ArgminIterData, IterState, TerminationReason};

verus! {

/// An optimization algorithm, driven one step at a time by the executor.
///
/// A solver keeps its own private state. It may use the operator only through
/// the counting wrapper, whose counters it can therefore never decrease.
/// Reaching the iteration cap is the executor's reason to stop, never a solver's.
pub trait ArgminSolver<O: ArgminOp>: Sized {
    /// Whether this solver may end a run by itself. One that may not never
    /// reports a terminal reason, so only the iteration cap ends its runs.
    spec fn signals_termination(&self) -> bool;

    /// Prepares the solver before the first step; may evaluate the operator to
    /// produce a first point. Does nothing unless the solver overrides it.
    fn init(&mut self, op: &mut OpWrapper<O>, state: &IterState<O::Param, O::Output>) -> (r:
        Result<Option<ArgminIterData<O::Param, O::Output>>, ArgminError>)
        ensures
            old(op).counts_grown(*final(op)),
            r matches Ok(Some(d)) ==> d.termination_reason != TerminationReason::MaxItersReached,
            !old(self).signals_termination() ==> (r matches Ok(Some(d))
                ==> !d.termination_reason.is_terminal()),
            final(self).signals_termination() == old(self).signals_termination(),
    {
        Ok(None)
    }

    /// Performs one step from `state`.
    fn next_iter(&mut self, op: &mut OpWrapper<O>, state: &IterState<O::Param, O::Output>) -> (r:
        Result<ArgminIterData<O::Param, O::Output>, ArgminError>)
        ensures
            old(op).counts_grown(*final(op)),
            r matches Ok(d) ==> d.termination_reason != TerminationReason::MaxItersReached,
            !old(self).signals_termination() ==> (r matches Ok(d)
                ==> !d.termination_reason.is_terminal()),
            final(self).signals_termination() == old(self).signals_termination(),
    ;
}

} // verus!
