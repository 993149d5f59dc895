//! Brent's method: a univariate minimizer that combines golden-section steps
//! with parabolic interpolation.
//!
//! Reference: R. P. Brent, "An algorithm with guaranteed convergence for
//! finding a minimum of a function of one variable", Algorithms for
//! minimization without derivatives, 1973.

use vstd::prelude::*;

use crate::errors::ArgminError;
use crate::float::ArgminCostValue;
use crate::op::{ArgminOp, OpWrapper, MAX_COUNT};
use crate::solver::ArgminSolver;
use crate::state::{ArgminIterData, IterState, TerminationReason};

verus! {

/// The constant two.
pub open spec fn two<F: ArgminCostValue>() -> F {
    F::spec_from_int(2)
}

/// The golden-section ratio `(3 - sqrt(5)) / 2`.
pub open spec fn golden<F: ArgminCostValue>() -> F {
    F::spec_from_int(3).spec_sub(F::spec_from_int(5).spec_sqrt()).spec_div(two())
}

/// The default absolute tolerance, `1e-5`.
pub open spec fn default_abs_tol<F: ArgminCostValue>() -> F {
    F::spec_from_int(1).spec_div(F::spec_from_int(100000))
}

/// State of Brent's method.
///
/// The bracket `[a, b]` is supposed to hold a local minimum. Of the points
/// evaluated so far, `x` has the lowest cost, `w` the second lowest, `v` is
/// the previous `w` and `u` the latest trial point.
#[derive(Clone, Copy, Debug)]
pub struct Brent<F> {
    /// Relative tolerance.
    pub eps: F,
    /// Absolute tolerance.
    pub t: F,
    /// Left end of the current bracket.
    pub a: F,
    /// Right end of the current bracket.
    pub b: F,
    /// Last point where the cost was evaluated.
    pub u: F,
    /// Previous value of `w`.
    pub v: F,
    /// Point with the second lowest cost.
    pub w: F,
    /// Point with the lowest cost.
    pub x: F,
    /// Cost at `v`.
    pub fv: F,
    /// Cost at `w`.
    pub fw: F,
    /// Cost at `x`.
    pub fx: F,
    /// Step taken two iterations ago.
    pub e: F,
    /// Most recent step.
    pub d: F,
    /// The golden-section ratio.
    pub c: F,
}

impl<F: ArgminCostValue> Brent<F> {
    /// The state right after construction on the bracket `[min, max]`.
    pub open spec fn spec_new(min: F, max: F) -> Self {
        Brent {
            eps: F::spec_epsilon().spec_sqrt(),
            t: default_abs_tol(),
            a: min,
            b: max,
            u: F::spec_nan(),
            v: F::spec_nan(),
            w: F::spec_nan(),
            x: F::spec_nan(),
            fv: F::spec_nan(),
            fw: F::spec_nan(),
            fx: F::spec_nan(),
            e: F::spec_from_int(0),
            d: F::spec_from_int(0),
            c: golden(),
        }
    }

    /// `tol = eps * |x| + t`.
    pub open spec fn tol(self) -> F {
        self.eps.spec_mul(self.x.spec_abs()).spec_add(self.t)
    }

    /// Midpoint of the bracket.
    pub open spec fn mid(self) -> F {
        self.a.spec_add(self.b).spec_div(two())
    }

    /// The precision test: `|x - m| <= 2 tol - (b - a) / 2`.
    pub open spec fn converged(self) -> bool {
        self.x.spec_sub(self.mid()).spec_abs().spec_le(
            two::<F>().spec_mul(self.tol()).spec_sub(self.b.spec_sub(self.a).spec_div(two())),
        )
    }

    /// Numerator of the parabolic step through `x`, `v` and `w`, before its sign is fixed.
    pub open spec fn raw_p(self) -> F {
        let xv = self.x.spec_sub(self.v);
        let xw = self.x.spec_sub(self.w);
        xv.spec_mul(xv).spec_mul(self.fx.spec_sub(self.fw)).spec_sub(
            xw.spec_mul(xw).spec_mul(self.fx.spec_sub(self.fv)),
        )
    }

    /// Denominator of the parabolic step, before its sign is fixed.
    pub open spec fn raw_q(self) -> F {
        two::<F>().spec_mul(
            self.x.spec_sub(self.w).spec_mul(self.fx.spec_sub(self.fv)).spec_sub(
                self.x.spec_sub(self.v).spec_mul(self.fx.spec_sub(self.fw)),
            ),
        )
    }

    /// Whether the denominator is kept as it is (`q >= 0`) rather than both negated.
    pub open spec fn q_kept(self) -> bool {
        F::spec_from_int(0).spec_le(self.raw_q())
    }

    /// The numerator with the sign that makes the denominator non-negative.
    pub open spec fn p(self) -> F {
        if self.q_kept() {
            self.raw_p()
        } else {
            self.raw_p().spec_neg()
        }
    }

    /// The non-negative denominator.
    pub open spec fn q(self) -> F {
        if self.q_kept() {
            self.raw_q()
        } else {
            self.raw_q().spec_neg()
        }
    }

    /// Whether the parabolic step is acceptable: `|e| > tol`,
    /// `q (a - x) < p < q (b - x)` and `2 |p| < q |e|`.
    pub open spec fn parabola_acceptable(self) -> bool {
        let (p, q) = (self.p(), self.q());
        &&& self.tol().spec_lt(self.e.spec_abs())
        &&& q.spec_mul(self.a.spec_sub(self.x)).spec_lt(p)
        &&& p.spec_lt(q.spec_mul(self.b.spec_sub(self.x)))
        &&& two::<F>().spec_mul(p.spec_abs()).spec_lt(q.spec_mul(self.e.spec_abs()))
    }

    /// Whether the next step is a golden-section step rather than a parabolic one.
    pub open spec fn takes_golden_step(self) -> bool {
        !self.parabola_acceptable()
    }

    /// The golden-section step: toward the farther end of the bracket.
    pub open spec fn golden_e(self) -> F {
        (if self.x.spec_lt(self.mid()) {
            self.b
        } else {
            self.a
        }).spec_sub(self.x)
    }

    /// The parabolic step, kept at least `2 tol` away from both ends of the bracket.
    pub open spec fn parabolic_d(self) -> F {
        let step = self.p().spec_div(self.q());
        let two_tol = two::<F>().spec_mul(self.tol());
        if self.x.spec_add(step).spec_sub(self.a).spec_lt(two_tol) || self.b.spec_sub(
            self.x,
        ).spec_sub(step).spec_lt(two_tol) {
            self.mid().spec_sub(self.x).spec_signum().spec_mul(self.tol())
        } else {
            step
        }
    }

    /// The state after choosing the next step and the next trial point `u`,
    /// before the cost at `u` is known.
    pub open spec fn stepped(self) -> Self {
        let (e, d) = if self.takes_golden_step() {
            (self.golden_e(), self.c.spec_mul(self.golden_e()))
        } else {
            (self.d, self.parabolic_d())
        };
        let tol = self.tol();
        let u = self.x.spec_add(
            if tol.spec_le(d.spec_abs()) {
                d
            } else {
                d.spec_signum().spec_mul(tol)
            },
        );
        Brent { e, d, u, ..self }
    }

    /// The state after the cost `fu` at the trial point `u` is known: the
    /// bracket shrinks and the point history is updated.
    pub open spec fn accepted(self, fu: F) -> Self {
        if fu.spec_le(self.fx) {
            let (a, b) = if self.u.spec_lt(self.x) {
                (self.a, self.x)
            } else {
                (self.x, self.b)
            };
            Brent { a, b, v: self.w, fv: self.fw, w: self.x, fw: self.fx, x: self.u, fx: fu, ..self }
        } else {
            let (a, b) = if self.u.spec_lt(self.x) {
                (self.u, self.b)
            } else {
                (self.a, self.u)
            };
            if fu.spec_le(self.fw) || self.w.spec_equals(self.x) {
                Brent { a, b, v: self.w, fv: self.fw, w: self.u, fw: fu, ..self }
            } else if fu.spec_le(self.fv) || self.v.spec_equals(self.x) || self.v.spec_equals(
                self.w,
            ) {
                Brent { a, b, v: self.u, fv: fu, ..self }
            } else {
                Brent { a, b, ..self }
            }
        }
    }

    /// The first point: `a + c (b - a)`.
    pub open spec fn first_point(self) -> F {
        self.a.spec_add(self.c.spec_mul(self.b.spec_sub(self.a)))
    }

    /// The state after the first point was evaluated with cost `f`.
    pub open spec fn started(self, f: F) -> Self {
        let u = self.first_point();
        Brent { v: u, w: u, x: u, fv: f, fw: f, fx: f, ..self }
    }

    /// Creates the solver for the bracket `[min, max]`, which must hold a local
    /// minimum of the cost.
    pub fn new(min: F, max: F) -> (r: Brent<F>)
        ensures
            r == Self::spec_new(min, max),
    {
        let two = F::from_int(2);
        let c = F::from_int(3).sub(F::from_int(5).sqrt()).div(two);
        let nan = F::nan();
        Brent {
            eps: F::epsilon().sqrt(),
            t: F::from_int(1).div(F::from_int(100000)),
            a: min,
            b: max,
            u: nan,
            v: nan,
            w: nan,
            x: nan,
            fv: nan,
            fw: nan,
            fx: nan,
            e: F::from_int(0),
            d: F::from_int(0),
            c,
        }
    }

    /// Sets the relative tolerance `eps` and the absolute tolerance `t`.
    ///
    /// The minimum is located to within `3 tol`, where `tol = eps * |x| + t`.
    pub fn set_tolerance(self, eps: F, t: F) -> (r: Self)
        ensures
            r == (Brent { eps, t, ..self }),
    {
        let mut s = self;
        s.eps = eps;
        s.t = t;
        s
    }

    /// Evaluates the precision test on the current state.
    pub fn is_converged(&self) -> (r: bool)
        ensures
            r == self.converged(),
    {
        let two = F::from_int(2);
        let tol = self.eps.mul(self.x.abs()).add(self.t);
        let m = self.a.add(self.b).div(two);
        self.x.sub(m).abs().le(two.mul(tol).sub(self.b.sub(self.a).div(two)))
    }

    /// Chooses the next step (parabolic or golden-section) and the next trial point `u`.
    pub fn choose_step(&mut self)
        ensures
            *final(self) == old(self).stepped(),
    {
        let two = F::from_int(2);
        let zero = F::from_int(0);
        let tol = self.eps.mul(self.x.abs()).add(self.t);
        let m = self.a.add(self.b).div(two);
        let xv = self.x.sub(self.v);
        let xw = self.x.sub(self.w);
        let raw_p = xv.mul(xv).mul(self.fx.sub(self.fw)).sub(xw.mul(xw).mul(self.fx.sub(self.fv)));
        let raw_q = two.mul(xw.mul(self.fx.sub(self.fv)).sub(xv.mul(self.fx.sub(self.fw))));
        let (p, q) = if zero.le(raw_q) {
            (raw_p, raw_q)
        } else {
            (raw_p.neg(), raw_q.neg())
        };
        let acceptable = tol.lt(self.e.abs()) && q.mul(self.a.sub(self.x)).lt(p) && p.lt(
            q.mul(self.b.sub(self.x)),
        ) && two.mul(p.abs()).lt(q.mul(self.e.abs()));
        let golden_step = !acceptable;
        if golden_step {
            let far = if self.x.lt(m) {
                self.b
            } else {
                self.a
            };
            self.e = far.sub(self.x);
            self.d = self.c.mul(self.e);
        } else {
            self.e = self.d;
            let step = p.div(q);
            let two_tol = two.mul(tol);
            self.d = if self.x.add(step).sub(self.a).lt(two_tol) || self.b.sub(self.x).sub(
                step,
            ).lt(two_tol) {
                m.sub(self.x).signum().mul(tol)
            } else {
                step
            };
        }
        let offset = if tol.le(self.d.abs()) {
            self.d
        } else {
            self.d.signum().mul(tol)
        };
        self.u = self.x.add(offset);
    }

    /// Takes in the cost `fu` at the trial point `u`: shrinks the bracket and
    /// updates the point history.
    pub fn accept(&mut self, fu: F)
        ensures
            *final(self) == old(self).accepted(fu),
    {
        if fu.le(self.fx) {
            if self.u.lt(self.x) {
                self.b = self.x;
            } else {
                self.a = self.x;
            }
            self.v = self.w;
            self.fv = self.fw;
            self.w = self.x;
            self.fw = self.fx;
            self.x = self.u;
            self.fx = fu;
        } else {
            if self.u.lt(self.x) {
                self.a = self.u;
            } else {
                self.b = self.u;
            }
            if fu.le(self.fw) || self.w.equals(self.x) {
                self.v = self.w;
                self.fv = self.fw;
                self.w = self.u;
                self.fw = fu;
            } else if fu.le(self.fv) || self.v.equals(self.x) || self.v.equals(self.w) {
                self.v = self.u;
                self.fv = fu;
            }
        }
    }

    /// What `start` does from this state, with the wrapper `op0` before and
    /// `op1` after, leaving `next` and returning `r`: one counted evaluation at
    /// the first point, whose cost `f` gives `started(f)`; an error of the
    /// operator is returned as it came, with the state unchanged.
    pub open spec fn start_outcome<O: ArgminOp<Param = F, Output = F>>(
        self,
        op0: OpWrapper<O>,
        next: Self,
        op1: OpWrapper<O>,
        r: Result<F, ArgminError>,
    ) -> bool {
        if op0.cost_func_count < MAX_COUNT {
            &&& op0.counted(op1, 1, 0, 0)
            &&& match op0.op.spec_apply(self.first_point()) {
                Ok(f) => next == self.started(f) && r == Ok::<F, ArgminError>(f),
                Err(e) => next == self && r == Err::<F, ArgminError>(e),
            }
        } else {
            op1 == op0 && next == self && r is Err
        }
    }

    /// What `step` does from this state (see `start_outcome` for the
    /// arguments). When the precision test holds: nothing is evaluated or
    /// changed, and `x`, `fx` are reported with `TargetPrecisionReached`.
    /// Otherwise: one counted evaluation at the trial point `u` of
    /// `stepped()`, whose cost `fu` gives `stepped().accepted(fu)`, whose new
    /// `x`, `fx` are reported; an error of the operator is returned as it
    /// came, with the state left at `stepped()`.
    pub open spec fn step_outcome<O: ArgminOp<Param = F, Output = F>>(
        self,
        op0: OpWrapper<O>,
        next: Self,
        op1: OpWrapper<O>,
        r: Result<ArgminIterData<F, F>, ArgminError>,
    ) -> bool {
        if self.converged() {
            &&& next == self
            &&& op1 == op0
            &&& r matches Ok(d)
            &&& d.param == Some(self.x)
            &&& d.cost == Some(self.fx)
            &&& d.termination_reason == TerminationReason::TargetPrecisionReached
        } else if op0.cost_func_count < MAX_COUNT {
            &&& op0.counted(op1, 1, 0, 0)
            &&& match op0.op.spec_apply(self.stepped().u) {
                Ok(fu) => {
                    &&& next == self.stepped().accepted(fu)
                    &&& r matches Ok(d)
                    &&& d.param == Some(next.x)
                    &&& d.cost == Some(next.fx)
                    &&& d.termination_reason == TerminationReason::NotTerminated
                },
                Err(e) => next == self.stepped() && r == Err::<ArgminIterData<F, F>, ArgminError>(e),
            }
        } else {
            op1 == op0 && next == self.stepped() && r is Err
        }
    }

    /// Evaluates the first point `a + c (b - a)` and makes it `x`, `w` and `v`.
    ///
    /// Exactly one cost evaluation is made.
    pub fn start<O: ArgminOp<Param = F, Output = F>>(&mut self, op: &mut OpWrapper<O>) -> (r: Result<
        F,
        ArgminError,
    >)
        ensures
            old(self).start_outcome(*old(op), *final(self), *final(op), r),
    {
        let u = self.a.add(self.c.mul(self.b.sub(self.a)));
        let f = match op.apply(&u) {
            Ok(f) => f,
            Err(e) => return Err(e),
        };
        self.v = u;
        self.w = u;
        self.x = u;
        self.fv = f;
        self.fw = f;
        self.fx = f;
        Ok(f)
    }

    /// One iteration: the precision test, and unless it holds, one new trial
    /// point, its evaluation, and the update of bracket and history.
    pub fn step<O: ArgminOp<Param = F, Output = F>>(&mut self, op: &mut OpWrapper<O>) -> (r: Result<
        ArgminIterData<F, F>,
        ArgminError,
    >)
        ensures
            old(self).step_outcome(*old(op), *final(self), *final(op), r),
    {
        if self.is_converged() {
            let data = ArgminIterData::new().param(self.x).cost(self.fx);
            return Ok(data.termination_reason(TerminationReason::TargetPrecisionReached));
        }
        self.choose_step();
        let fu = match op.apply(&self.u) {
            Ok(fu) => fu,
            Err(e) => return Err(e),
        };
        self.accept(fu);
        Ok(ArgminIterData::new().param(self.x).cost(self.fx))
    }
}

/// A Brent iteration is a function of the state and of the operator: two
/// iterations from equal states, with wrappers holding equal operators and
/// counts, leave equal states and wrappers and return equal results.
pub proof fn lemma_iteration_deterministic<F: ArgminCostValue, O: ArgminOp<Param = F, Output = F>>(
    s: Brent<F>,
    op0: OpWrapper<O>,
    next1: Brent<F>,
    op1: OpWrapper<O>,
    r1: Result<ArgminIterData<F, F>, ArgminError>,
    next2: Brent<F>,
    op2: OpWrapper<O>,
    r2: Result<ArgminIterData<F, F>, ArgminError>,
)
    requires
        s.step_outcome(op0, next1, op1, r1),
        s.step_outcome(op0, next2, op2, r2),
    ensures
        next1 == next2,
        op1 == op2,
        r1 is Ok ==> r1 == r2,
        r1 matches Err(e) ==> (r2 matches Err(e2) && (op0.cost_func_count < MAX_COUNT ==> e
            == e2)),
{
}

impl<O, F> ArgminSolver<O> for Brent<F> where O: ArgminOp<Param = F, Output = F>, F: ArgminCostValue {
    /// Brent's method stops a run once its precision test holds.
    open spec fn signals_termination(&self) -> bool {
        true
    }

    fn init(&mut self, op: &mut OpWrapper<O>, _state: &IterState<F, F>) -> (r: Result<
        Option<ArgminIterData<F, F>>,
        ArgminError,
    >)
        ensures
            old(op).cost_func_count < MAX_COUNT ==> {
                &&& old(op).counted(*final(op), 1, 0, 0)
                &&& match old(op).op.spec_apply(old(self).first_point()) {
                    Ok(f) => {
                        &&& *final(self) == old(self).started(f)
                        &&& r matches Ok(Some(d))
                        &&& d.param == Some(final(self).x)
                        &&& d.cost == Some(f)
                        &&& d.termination_reason == TerminationReason::NotTerminated
                    },
                    Err(e) => *final(self) == *old(self) && r == Err::<
                        Option<ArgminIterData<F, F>>,
                        ArgminError,
                    >(e),
                }
            },
            old(op).cost_func_count == MAX_COUNT ==> *final(op) == *old(op) && *final(self) == *old(
                self,
            ) && r is Err,
    {
        match self.start(op) {
            Ok(f) => Ok(Some(ArgminIterData::new().param(self.x).cost(f))),
            Err(e) => Err(e),
        }
    }

    fn next_iter(&mut self, op: &mut OpWrapper<O>, _state: &IterState<F, F>) -> (r: Result<
        ArgminIterData<F, F>,
        ArgminError,
    >)
        ensures
            old(self).step_outcome(*old(op), *final(self), *final(op), r),
    {
        self.step(op)
    }
}

} // verus!
