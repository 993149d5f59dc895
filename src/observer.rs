//! Read-only listeners that the executor notifies after merging a step.

use vstd::prelude::*;

use crate::errors::ArgminError;
use crate::state::IterState;

verus! {

/// A listener notified with the state after each merge; an error it returns aborts the run.
pub trait ArgminObserver<P, F> {
    /// Called with the state after a merge.
    fn observe_iter(&mut self, state: &IterState<P, F>) -> Result<(), ArgminError>;
}

/// When an observer is notified.
#[derive(Clone, Copy, Debug, PartialEq, Eq, Structural)]
pub enum ObserverMode {
    /// After every merge.
    Always,
    /// After the merges at iteration counts that are multiples of the given
    /// number; never when that number is zero.
    EveryNIterations(u64),
    /// Never.
    Never,
}

impl ObserverMode {
    /// Whether the observer is notified once the iteration count is `iter`.
    pub open spec fn fires_at(self, iter: u64) -> bool {
        match self {
            ObserverMode::Always => true,
            ObserverMode::EveryNIterations(n) => n > 0 && iter % n == 0,
            ObserverMode::Never => false,
        }
    }

    /// Whether the observer is notified once the iteration count is `iter`.
    pub fn fires(&self, iter: u64) -> (r: bool)
        ensures
            r == self.fires_at(iter),
    {
        match self {
            ObserverMode::Always => true,
            ObserverMode::EveryNIterations(n) => *n > 0 && iter % *n == 0,
            ObserverMode::Never => false,
        }
    }
}

/// An observer that does nothing.
pub struct NoObserver;

impl<P, F> ArgminObserver<P, F> for NoObserver {
    fn observe_iter(&mut self, _state: &IterState<P, F>) -> Result<(), ArgminError> {
        Ok(())
    }
}

} // verus!
