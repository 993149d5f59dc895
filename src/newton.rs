//! Newton's method: `x_{k+1} = x_k - gamma * H(x_k)^-1 * g(x_k)`.
//!
//! The solver never stops a run by itself; the executor's iteration cap ends it.
//!
//! Reference: J. Nocedal and S. J. Wright, Numerical Optimization, 2006.

use vstd::prelude::*;

use crate::errors::ArgminError;
use crate::float::ArgminCostValue;
use crate::op::{ArgminOp, OpWrapper, MAX_COUNT};
use crate::solver::ArgminSolver;
use crate::state::{ArgminIterData, IterState, TerminationReason};

verus! {

/// Matrix inversion, provided by the caller's linear-algebra backend.
///
/// Implementations are not checked by the verifier: each must define the
/// twins as the operations they stand for.
pub trait ArgminInv: Sized {
    /// The result of `inv`.
    spec fn spec_inv(self) -> Result<Self, ArgminError>;

    /// Whether `self` is singular.
    spec fn spec_singular(self) -> bool;

    /// The inverse of `self`; fails with a numerical error exactly when `self` is singular.
    fn inv(&self) -> (r: Result<Self, ArgminError>)
        ensures
            r == self.spec_inv(),
            r is Err <==> self.spec_singular(),
            r matches Err(e) ==> e is NumericalError,
    ;
}

/// Product of `self` with a vector, provided by the caller's linear-algebra backend.
///
/// Implementations are not checked by the verifier: the twin must be the product.
pub trait ArgminDot<T>: Sized {
    /// The value of `self * other`.
    spec fn spec_dot(self, other: T) -> T;

    /// `self * other`.
    fn dot(&self, other: &T) -> (r: T)
        ensures
            r == self.spec_dot(*other),
    ;
}

/// Scaled subtraction of vectors, provided by the caller's linear-algebra backend.
///
/// Implementations are not checked by the verifier: the twin must be the operation.
pub trait ArgminScaledSub<F>: Sized {
    /// The value of `self - factor * other`.
    spec fn spec_scaled_sub(self, factor: F, other: Self) -> Self;

    /// `self - factor * other`.
    fn scaled_sub(&self, factor: F, other: &Self) -> (r: Self)
        ensures
            r == self.spec_scaled_sub(factor, *other),
    ;
}

/// Newton's method with step multiplier `gamma`, `0 < gamma <= 1`.
#[derive(Clone, Copy, Debug)]
pub struct Newton<F> {
    /// Step multiplier.
    pub gamma: F,
}

impl<F: ArgminCostValue> Newton<F> {
    /// Whether `gamma` lies in `(0, 1]`.
    pub open spec fn valid_gamma(gamma: F) -> bool {
        F::spec_from_int(0).spec_lt(gamma) && gamma.spec_le(F::spec_from_int(1))
    }

    /// Newton's method with the full step, `gamma = 1`.
    pub fn new() -> (r: Self)
        ensures
            r.gamma == F::spec_from_int(1),
    {
        Newton { gamma: F::from_int(1) }
    }

    /// Sets the step multiplier; fails with `InvalidParameter` unless `0 < gamma <= 1`.
    pub fn set_gamma(self, gamma: F) -> (r: Result<Self, ArgminError>)
        ensures
            Self::valid_gamma(gamma) ==> r == Ok::<Self, ArgminError>(Newton { gamma }),
            !Self::valid_gamma(gamma) ==> (r matches Err(e) && e.is_invalid_parameter()),
    {
        if !(F::from_int(0).lt(gamma) && gamma.le(F::from_int(1))) {
            return Err(ArgminError::InvalidParameter("Newton: gamma must be in (0, 1].".to_string()));
        }
        Ok(Newton { gamma })
    }

    /// The result of a step from `param` on the operator `op`: the first
    /// error of the gradient, the Hessian or the inversion, or else the new
    /// parameter `param - gamma * H^-1 * g`, with no cost and no termination.
    pub open spec fn step_result<O>(self, op: O, param: O::Param) -> Result<
        ArgminIterData<O::Param, O::Output>,
        ArgminError,
    > where O: ArgminOp, O::Param: ArgminScaledSub<F>, O::Hessian: ArgminInv + ArgminDot<O::Param> {
        match op.spec_gradient(param) {
            Err(e) => Err(e),
            Ok(g) => match op.spec_hessian(param) {
                Err(e) => Err(e),
                Ok(h) => match h.spec_inv() {
                    Err(e) => Err(e),
                    Ok(hinv) => Ok(
                        ArgminIterData {
                            param: Some(param.spec_scaled_sub(self.gamma, hinv.spec_dot(g))),
                            cost: None,
                            termination_reason: TerminationReason::NotTerminated,
                        },
                    ),
                },
            },
        }
    }

    /// What a step from `param` does to the wrapper (`op0` before, `op1` after)
    /// and what it returns: one counted gradient call at `param`, then, only if
    /// it succeeded, one counted Hessian call at `param`; no cost evaluation;
    /// the result is `step_result`. A counter already at `MAX_COUNT` makes the
    /// step fail where that call would be made.
    pub open spec fn step_outcome<O>(
        self,
        op0: OpWrapper<O>,
        param: O::Param,
        op1: OpWrapper<O>,
        r: Result<ArgminIterData<O::Param, O::Output>, ArgminError>,
    ) -> bool where O: ArgminOp, O::Param: ArgminScaledSub<F>, O::Hessian: ArgminInv + ArgminDot<
        O::Param,
    > {
        if op0.grad_func_count == MAX_COUNT {
            op1 == op0 && r is Err
        } else if op0.op.spec_gradient(param) is Err {
            op0.counted(op1, 0, 1, 0) && r == self.step_result(op0.op, param)
        } else if op0.hessian_func_count == MAX_COUNT {
            op0.counted(op1, 0, 1, 0) && r is Err
        } else {
            op0.counted(op1, 0, 1, 1) && r == self.step_result(op0.op, param)
        }
    }

    /// One step from `param`: evaluates the gradient, then the Hessian, and
    /// moves to `param - gamma * H^-1 * g`.
    ///
    /// The step reports the new parameter only: no cost and no termination.
    /// The first error, of the operator or of the inversion, is returned as it came.
    pub fn step<O>(&self, op: &mut OpWrapper<O>, param: &O::Param) -> (r: Result<
        ArgminIterData<O::Param, O::Output>,
        ArgminError,
    >) where O: ArgminOp, O::Param: ArgminScaledSub<F>, O::Hessian: ArgminInv + ArgminDot<O::Param>
        ensures
            self.step_outcome(*old(op), *param, *final(op), r),
    {
        let grad = match op.gradient(param) {
            Ok(g) => g,
            Err(e) => return Err(e),
        };
        let hessian = match op.hessian(param) {
            Ok(h) => h,
            Err(e) => return Err(e),
        };
        let inverse = match hessian.inv() {
            Ok(i) => i,
            Err(e) => return Err(e),
        };
        let direction = inverse.dot(&grad);
        let new_param = param.scaled_sub(self.gamma, &direction);
        Ok(ArgminIterData::new().param(new_param))
    }
}

impl<F: ArgminCostValue> Default for Newton<F> {
    fn default() -> (r: Self)
        ensures
            r.gamma == F::spec_from_int(1),
    {
        Self::new()
    }
}

impl<O, F> ArgminSolver<O> for Newton<F> where
    O: ArgminOp,
    O::Param: ArgminScaledSub<F>,
    O::Hessian: ArgminInv + ArgminDot<O::Param>,
    F: ArgminCostValue,
 {
    /// Newton's method never stops a run by itself.
    open spec fn signals_termination(&self) -> bool {
        false
    }

    fn init(&mut self, op: &mut OpWrapper<O>, state: &IterState<O::Param, O::Output>) -> (r: Result<
        Option<ArgminIterData<O::Param, O::Output>>,
        ArgminError,
    >)
        ensures
            r == Ok::<Option<ArgminIterData<O::Param, O::Output>>, ArgminError>(None),
            *final(op) == *old(op),
            *final(self) == *old(self),
    {
        Ok(None)
    }

    fn next_iter(&mut self, op: &mut OpWrapper<O>, state: &IterState<O::Param, O::Output>) -> (r:
        Result<ArgminIterData<O::Param, O::Output>, ArgminError>)
        ensures
            *final(self) == *old(self),
            old(self).step_outcome(*old(op), state.param, *final(op), r),
    {
        self.step(op, &state.param)
    }
}

} // verus!
