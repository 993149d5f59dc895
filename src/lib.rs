//! Iterative optimization: an executor that drives a solver step by step over
//! a user's cost operator, with Brent's univariate minimizer and Newton's
//! method as solvers.
//!
//! The numeric type of parameters and costs is left to the caller through
//! [`ArgminCostValue`]; every algorithm here is written and proved against
//! that interface.

use vstd::prelude::*;

pub mod brent;
pub mod errors;
pub mod executor;
pub mod float;
pub mod newton;
pub mod observer;
pub mod op;
pub mod parameter;
pub mod solver;
pub mod state;

pub use brent::Brent;
pub use errors::ArgminError;
pub use float::ArgminCostValue;
pub use executor::{ArgminResult, Executor};
pub use newton::Newton;
pub use observer::{ArgminObserver, ObserverMode};
pub use op::{ArgminOp, OpWrapper};
pub use parameter::ArgminParameter;
pub use solver::ArgminSolver;
pub use state::{ArgminIterData, IterState, TerminationReason};
