//! The cost operator that a caller supplies, and the wrapper that counts its uses.

use vstd::prelude::*;

use crate::errors::ArgminError;

verus! {

/// A cost function to minimize, with its optional derivatives.
///
/// An operator that lacks the gradient or the Hessian returns
/// [`ArgminError::NotImplemented`] from that method.
///
/// Every capability is deterministic: each method returns what its
/// specification twin denotes. Implementations are written by the caller and
/// are not checked by the verifier; each must define every twin as the method
/// it stands for.
pub trait ArgminOp {
    /// Type of a parameter (a point of the search space).
    type Param;
    /// Type of a cost value.
    type Output;
    /// Type of a Hessian.
    type Hessian;

    /// The result of `apply` at `param`.
    spec fn spec_apply(&self, param: Self::Param) -> Result<Self::Output, ArgminError>;

    /// The cost at `param`.
    fn apply(&self, param: &Self::Param) -> (r: Result<Self::Output, ArgminError>)
        ensures
            r == self.spec_apply(*param),
    ;

    /// The result of `gradient` at `param`.
    spec fn spec_gradient(&self, param: Self::Param) -> Result<Self::Param, ArgminError>;

    /// The gradient at `param`, or `NotImplemented`.
    fn gradient(&self, param: &Self::Param) -> (r: Result<Self::Param, ArgminError>)
        ensures
            r == self.spec_gradient(*param),
    ;

    /// The result of `hessian` at `param`.
    spec fn spec_hessian(&self, param: Self::Param) -> Result<Self::Hessian, ArgminError>;

    /// The Hessian at `param`, or `NotImplemented`.
    fn hessian(&self, param: &Self::Param) -> (r: Result<Self::Hessian, ArgminError>)
        ensures
            r == self.spec_hessian(*param),
    ;
}

/// The largest number of calls that a counter records.
pub const MAX_COUNT: u64 = 0xffff_ffff_ffff_ffff;

/// Owns the operator for one run and counts the calls of each capability.
pub struct OpWrapper<O> {
    /// The wrapped operator.
    pub op: O,
    /// Number of calls of `apply`.
    pub cost_func_count: u64,
    /// Number of calls of `gradient`.
    pub grad_func_count: u64,
    /// Number of calls of `hessian`.
    pub hessian_func_count: u64,
}

impl<O: ArgminOp> OpWrapper<O> {
    /// Whether `next` has the counters of `self` plus `dc`, `dg` and `dh`, and the same operator.
    pub open spec fn counted(self, next: Self, dc: int, dg: int, dh: int) -> bool {
        &&& next.op == self.op
        &&& next.cost_func_count == self.cost_func_count + dc
        &&& next.grad_func_count == self.grad_func_count + dg
        &&& next.hessian_func_count == self.hessian_func_count + dh
    }

    /// Whether no counter of `next` is below that of `self`, and the operator is the same.
    pub open spec fn counts_grown(self, next: Self) -> bool {
        &&& next.op == self.op
        &&& self.cost_func_count <= next.cost_func_count
        &&& self.grad_func_count <= next.grad_func_count
        &&& self.hessian_func_count <= next.hessian_func_count
    }

    /// Wraps `op` with all counters at zero.
    pub fn new(op: O) -> (r: Self)
        ensures
            r.op == op,
            r.cost_func_count == 0,
            r.grad_func_count == 0,
            r.hessian_func_count == 0,
    {
        OpWrapper { op, cost_func_count: 0, grad_func_count: 0, hessian_func_count: 0 }
    }

    /// Calls `apply` once and counts the call.
    ///
    /// Once the counter holds `MAX_COUNT` calls no further call is made.
    pub fn apply(&mut self, param: &O::Param) -> (r: Result<O::Output, ArgminError>)
        ensures
            old(self).cost_func_count < MAX_COUNT ==> old(self).counted(*final(self), 1, 0, 0)
                && r == old(self).op.spec_apply(*param),
            old(self).cost_func_count == MAX_COUNT ==> *final(self) == *old(self) && r is Err,
    {
        if self.cost_func_count == MAX_COUNT {
            return Err(ArgminError::EvaluationError("too many cost evaluations".to_string()));
        }
        self.cost_func_count = self.cost_func_count + 1;
        self.op.apply(param)
    }

    /// Calls `gradient` once and counts the call.
    pub fn gradient(&mut self, param: &O::Param) -> (r: Result<O::Param, ArgminError>)
        ensures
            old(self).grad_func_count < MAX_COUNT ==> old(self).counted(*final(self), 0, 1, 0)
                && r == old(self).op.spec_gradient(*param),
            old(self).grad_func_count == MAX_COUNT ==> *final(self) == *old(self) && r is Err,
    {
        if self.grad_func_count == MAX_COUNT {
            return Err(ArgminError::EvaluationError("too many gradient evaluations".to_string()));
        }
        self.grad_func_count = self.grad_func_count + 1;
        self.op.gradient(param)
    }

    /// Calls `hessian` once and counts the call.
    pub fn hessian(&mut self, param: &O::Param) -> (r: Result<O::Hessian, ArgminError>)
        ensures
            old(self).hessian_func_count < MAX_COUNT ==> old(self).counted(*final(self), 0, 0, 1)
                && r == old(self).op.spec_hessian(*param),
            old(self).hessian_func_count == MAX_COUNT ==> *final(self) == *old(self) && r is Err,
    {
        if self.hessian_func_count == MAX_COUNT {
            return Err(ArgminError::EvaluationError("too many Hessian evaluations".to_string()));
        }
        self.hessian_func_count = self.hessian_func_count + 1;
        self.op.hessian(param)
    }
}

} // verus!
