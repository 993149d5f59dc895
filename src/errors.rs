//! Errors of a run or of a constructor.

use vstd::prelude::*;

verus! {

/// What can go wrong while configuring or running an optimization.
#[derive(Clone, Debug, PartialEq, Eq)]
pub enum ArgminError {
    /// A constructor or setter was handed a value outside its allowed range.
    InvalidParameter(String),
    /// The cost operator failed while computing a value.
    EvaluationError(String),
    /// The cost operator does not provide the requested capability.
    NotImplemented(String),
    /// A numerical primitive failed, e.g. a singular matrix could not be inverted.
    NumericalError(String),
}

impl ArgminError {
    /// Whether this error reports an invalid parameter.
    pub open spec fn is_invalid_parameter(self) -> bool {
        self is InvalidParameter
    }
}

} // verus!
