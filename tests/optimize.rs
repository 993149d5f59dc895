use argmin::{
    ArgminCostValue, ArgminError, ArgminIterData, ArgminObserver, ArgminOp, ArgminSolver, Brent, Executor, IterState, Newton,
    ObserverMode, OpWrapper, TerminationReason,
};
use argmin::newton::{ArgminDot, ArgminInv, ArgminScaledSub};
use argmin::parameter::{check_bounds, modify, random_vec, ArgminParameter, ArgminRng};

#[derive(Clone, Copy, Debug, PartialEq)]
struct F64(f64);

impl ArgminCostValue for F64 {
    fn spec_add(self, o: F64) -> F64 {
        self.add(o)
    }
    fn spec_sub(self, o: F64) -> F64 {
        self.sub(o)
    }
    fn spec_mul(self, o: F64) -> F64 {
        self.mul(o)
    }
    fn spec_div(self, o: F64) -> F64 {
        self.div(o)
    }
    fn spec_neg(self) -> F64 {
        self.neg()
    }
    fn spec_abs(self) -> F64 {
        self.abs()
    }
    fn spec_signum(self) -> F64 {
        self.signum()
    }
    fn spec_sqrt(self) -> F64 {
        self.sqrt()
    }
    fn spec_le(self, o: F64) -> bool {
        self.le(o)
    }
    fn spec_lt(self, o: F64) -> bool {
        self.lt(o)
    }
    fn spec_equals(self, o: F64) -> bool {
        self.equals(o)
    }
    fn spec_from_int(n: i64) -> F64 {
        F64::from_int(n)
    }
    fn spec_epsilon() -> F64 {
        F64::epsilon()
    }
    fn spec_nan() -> F64 {
        F64::nan()
    }
    fn spec_infinity() -> F64 {
        F64::infinity()
    }
    fn add(self, o: F64) -> F64 {
        F64(self.0 + o.0)
    }
    fn sub(self, o: F64) -> F64 {
        F64(self.0 - o.0)
    }
    fn mul(self, o: F64) -> F64 {
        F64(self.0 * o.0)
    }
    fn div(self, o: F64) -> F64 {
        F64(self.0 / o.0)
    }
    fn neg(self) -> F64 {
        F64(-self.0)
    }
    fn abs(self) -> F64 {
        F64(self.0.abs())
    }
    fn signum(self) -> F64 {
        F64(self.0.signum())
    }
    fn sqrt(self) -> F64 {
        F64(self.0.sqrt())
    }
    fn le(self, o: F64) -> bool {
        self.0 <= o.0
    }
    fn lt(self, o: F64) -> bool {
        self.0 < o.0
    }
    fn equals(self, o: F64) -> bool {
        self.0 == o.0
    }
    fn from_int(n: i64) -> F64 {
        F64(n as f64)
    }
    fn epsilon() -> F64 {
        F64(f64::EPSILON)
    }
    fn nan() -> F64 {
        F64(f64::NAN)
    }
    fn infinity() -> F64 {
        F64(f64::INFINITY)
    }
}

struct TestFunc {}

impl ArgminOp for TestFunc {
    type Param = F64;
    type Output = F64;
    type Hessian = ();

    fn spec_apply(&self, x: F64) -> Result<F64, ArgminError> {
        self.apply(&x)
    }

    fn apply(&self, x: &F64) -> Result<F64, ArgminError> {
        Ok(F64((-x.0).exp() - (5. - x.0 / 2.).exp()))
    }

    fn spec_gradient(&self, x: F64) -> Result<F64, ArgminError> {
        self.gradient(&x)
    }

    fn gradient(&self, _x: &F64) -> Result<F64, ArgminError> {
        Err(ArgminError::NotImplemented("gradient".to_string()))
    }

    fn spec_hessian(&self, x: F64) -> Result<(), ArgminError> {
        self.hessian(&x)
    }

    fn hessian(&self, _x: &F64) -> Result<(), ArgminError> {
        Err(ArgminError::NotImplemented("hessian".to_string()))
    }
}

#[test]
fn test_brent() {
    let cost = TestFunc {};
    let solver = Brent::new(F64(-10.), F64(10.));
    let res = Executor::new(cost, solver, F64(f64::NAN))
        .max_iters(13)
        .run()
        .unwrap();
    assert_eq!(
        res.state().termination_reason,
        TerminationReason::TargetPrecisionReached
    );
    assert_eq!(res.state().param.0, -8.613701289624956);
    assert_eq!(res.state().prev_param.0, -8.613701289624956);
    assert_eq!(res.state().best_param.0, -8.613701289624956);
    assert_eq!(res.state().prev_best_param.0, -8.613701289624956);
    assert_eq!(res.state().cost.0, -5506.616448675639);
    assert_eq!(res.state().best_cost.0, -5506.616448675639);
    assert_eq!(res.state().prev_cost.0, -5506.616448675639);
    assert_eq!(res.state().prev_best_cost.0, -5506.616448675639);
    assert_eq!(res.state().iter, 13);
    assert_eq!(res.state().cost_func_count, 13);
}

fn run_brent(min: f64, max: f64, max_iters: u64) -> argmin::ArgminResult<TestFunc> {
    Executor::new(TestFunc {}, Brent::new(F64(min), F64(max)), F64(f64::NAN))
        .max_iters(max_iters)
        .run()
        .unwrap()
}

#[test]
fn brent_runs_are_deterministic() {
    let r1 = run_brent(-10., 10., 100);
    let r2 = run_brent(-10., 10., 100);
    let (s1, s2) = (r1.state(), r2.state());
    assert_eq!(s1.param.0.to_bits(), s2.param.0.to_bits());
    assert_eq!(s1.prev_param.0.to_bits(), s2.prev_param.0.to_bits());
    assert_eq!(s1.best_param.0.to_bits(), s2.best_param.0.to_bits());
    assert_eq!(s1.cost.0.to_bits(), s2.cost.0.to_bits());
    assert_eq!(s1.best_cost.0.to_bits(), s2.best_cost.0.to_bits());
    assert_eq!(s1.iter, s2.iter);
    assert_eq!(s1.cost_func_count, s2.cost_func_count);
    assert_eq!(s1.termination_reason, s2.termination_reason);
}

#[test]
fn brent_degenerate_bracket_stops_at_first_check() {
    let res = run_brent(2., 2., 100);
    assert_eq!(res.state().termination_reason, TerminationReason::TargetPrecisionReached);
    assert_eq!(res.state().iter, 1);
    assert_eq!(res.state().cost_func_count, 1);
    assert_eq!(res.state().param.0, 2.);
}

#[test]
fn brent_best_cost_never_above_current_and_never_increases() {
    let mut last_best = f64::INFINITY;
    for k in 0..14 {
        let res = run_brent(-10., 10., k);
        let s = res.state();
        assert!(s.best_cost.0 <= s.cost.0);
        assert!(s.best_cost.0 <= last_best);
        last_best = s.best_cost.0;
    }
}

#[test]
fn brent_stops_at_iteration_cap() {
    let res = run_brent(-10., 10., 3);
    assert_eq!(res.state().termination_reason, TerminationReason::MaxItersReached);
    assert_eq!(res.state().iter, 3);
    assert_eq!(res.state().cost_func_count, 4);
    assert_eq!(res.state().grad_func_count, 0);
}

#[test]
fn brent_zero_iterations_evaluates_once() {
    let res = run_brent(-10., 10., 0);
    assert_eq!(res.state().termination_reason, TerminationReason::MaxItersReached);
    assert_eq!(res.state().iter, 0);
    assert_eq!(res.state().cost_func_count, 1);
}

#[test]
fn brent_new_sets_defaults() {
    let b = Brent::new(F64(-1.), F64(3.));
    assert_eq!(b.eps.0, f64::EPSILON.sqrt());
    assert_eq!(b.t.0, 1e-5);
    assert_eq!(b.c.0, (3f64 - 5f64.sqrt()) / 2f64);
    assert_eq!(b.a.0, -1.);
    assert_eq!(b.b.0, 3.);
    assert_eq!(b.e.0, 0.);
    assert_eq!(b.d.0, 0.);
    assert!(b.x.0.is_nan());
}

#[test]
fn brent_set_tolerance_replaces_both() {
    let b = Brent::new(F64(-1.), F64(3.)).set_tolerance(F64(1e-3), F64(1e-2));
    assert_eq!(b.eps.0, 1e-3);
    assert_eq!(b.t.0, 1e-2);
    assert_eq!(b.a.0, -1.);
}

#[test]
fn brent_first_point_is_golden_section() {
    let mut b = Brent::new(F64(0.), F64(1.));
    let mut op = OpWrapper::new(TestFunc {});
    let f = b.start(&mut op).unwrap();
    let c = (3f64 - 5f64.sqrt()) / 2f64;
    assert_eq!(b.x.0, c);
    assert_eq!(b.w.0, c);
    assert_eq!(b.fx.0, f.0);
    assert_eq!(op.cost_func_count, 1);
}

#[test]
fn brent_accept_lower_cost_moves_history() {
    let mut b = Brent::new(F64(0.), F64(10.));
    b.x = F64(5.);
    b.fx = F64(1.);
    b.w = F64(6.);
    b.fw = F64(2.);
    b.v = F64(7.);
    b.fv = F64(3.);
    b.u = F64(4.);
    b.accept(F64(0.5));
    assert_eq!((b.a.0, b.b.0), (0., 5.));
    assert_eq!((b.x.0, b.fx.0), (4., 0.5));
    assert_eq!((b.w.0, b.fw.0), (5., 1.));
    assert_eq!((b.v.0, b.fv.0), (6., 2.));
}

#[test]
fn brent_accept_higher_cost_shrinks_toward_x() {
    let mut b = Brent::new(F64(0.), F64(10.));
    b.x = F64(5.);
    b.fx = F64(1.);
    b.w = F64(6.);
    b.fw = F64(2.);
    b.v = F64(7.);
    b.fv = F64(3.);
    b.u = F64(4.);
    b.accept(F64(1.5));
    assert_eq!((b.a.0, b.b.0), (4., 10.));
    assert_eq!((b.x.0, b.fx.0), (5., 1.));
    assert_eq!((b.w.0, b.fw.0), (4., 1.5));
    assert_eq!((b.v.0, b.fv.0), (6., 2.));
}

#[test]
fn brent_choose_step_golden_section_from_start() {
    let mut b = Brent::new(F64(0.), F64(1.));
    let mut op = OpWrapper::new(TestFunc {});
    b.start(&mut op).unwrap();
    b.choose_step();
    let c = (3f64 - 5f64.sqrt()) / 2f64;
    let e = 1. - c;
    assert_eq!(b.e.0, e);
    assert_eq!(b.d.0, c * e);
    assert_eq!(b.u.0, c + c * e);
}

#[test]
fn brent_converged_state_makes_no_evaluation() {
    let mut b = Brent::new(F64(1.), F64(1.));
    b.x = F64(1.);
    b.fx = F64(0.);
    assert!(b.is_converged());
    let mut op = OpWrapper::new(TestFunc {});
    let d = b.step(&mut op).unwrap();
    assert_eq!(d.termination_reason, TerminationReason::TargetPrecisionReached);
    assert_eq!(op.cost_func_count, 0);
}

#[test]
fn gradient_not_provided_is_not_implemented() {
    let mut op = OpWrapper::new(TestFunc {});
    let r = op.gradient(&F64(1.));
    assert!(matches!(r, Err(ArgminError::NotImplemented(_))));
    assert_eq!(op.grad_func_count, 1);
    assert!(matches!(op.hessian(&F64(1.)), Err(ArgminError::NotImplemented(_))));
    assert_eq!(op.hessian_func_count, 1);
}

#[test]
fn wrapper_counts_each_apply() {
    let mut op = OpWrapper::new(TestFunc {});
    let y = op.apply(&F64(0.)).unwrap();
    assert_eq!(y.0, 1. - 5f64.exp());
    op.apply(&F64(1.)).unwrap();
    assert_eq!(op.cost_func_count, 2);
    assert_eq!(op.grad_func_count, 0);
}

#[test]
fn termination_reason_text_and_flag() {
    assert!(!TerminationReason::NotTerminated.terminated());
    assert!(TerminationReason::MaxItersReached.terminated());
    assert_eq!(TerminationReason::TargetPrecisionReached.text(), "Target precision reached");
    assert_eq!(TerminationReason::NotTerminated.text(), "Not terminated");
}

#[test]
fn iter_data_builders() {
    let d: ArgminIterData<F64, F64> = ArgminIterData::new()
        .param(F64(1.))
        .cost(F64(2.))
        .termination_reason(TerminationReason::Aborted);
    assert_eq!(d.param, Some(F64(1.)));
    assert_eq!(d.cost, Some(F64(2.)));
    assert_eq!(d.termination_reason, TerminationReason::Aborted);
}

#[test]
fn state_update_keeps_earlier_best_on_tie() {
    let mut s: IterState<F64, F64> = IterState::new(F64(0.));
    s.update(ArgminIterData::new().param(F64(1.)).cost(F64(5.)));
    assert_eq!((s.best_param.0, s.best_cost.0), (1., 5.));
    s.update(ArgminIterData::new().param(F64(2.)).cost(F64(5.)));
    assert_eq!((s.best_param.0, s.best_cost.0), (1., 5.));
    assert_eq!((s.prev_param.0, s.prev_cost.0), (1., 5.));
    s.update(ArgminIterData::new().param(F64(3.)).cost(F64(4.)));
    assert_eq!((s.best_param.0, s.best_cost.0), (3., 4.));
    assert_eq!((s.prev_best_param.0, s.prev_best_cost.0), (1., 5.));
    assert_eq!(s.iter, 0);
}

#[derive(Clone, Debug, PartialEq)]
struct V2([f64; 2]);

#[derive(Clone, Debug, PartialEq)]
struct M2([[f64; 2]; 2]);

impl ArgminScaledSub<F64> for V2 {
    fn spec_scaled_sub(self, factor: F64, other: V2) -> V2 {
        self.scaled_sub(factor, &other)
    }
    fn scaled_sub(&self, factor: F64, other: &V2) -> V2 {
        V2([self.0[0] - factor.0 * other.0[0], self.0[1] - factor.0 * other.0[1]])
    }
}

impl ArgminInv for M2 {
    fn spec_inv(self) -> Result<M2, ArgminError> {
        self.inv()
    }

    fn spec_singular(self) -> bool {
        let [[a, b], [c, d]] = self.0;
        a * d - b * c == 0.
    }

    fn inv(&self) -> Result<M2, ArgminError> {
        let [[a, b], [c, d]] = self.0;
        let det = a * d - b * c;
        if det == 0. {
            return Err(ArgminError::NumericalError("singular matrix".to_string()));
        }
        Ok(M2([[d / det, -b / det], [-c / det, a / det]]))
    }
}

impl ArgminDot<V2> for M2 {
    fn spec_dot(self, v: V2) -> V2 {
        self.dot(&v)
    }
    fn dot(&self, v: &V2) -> V2 {
        let m = self.0;
        V2([m[0][0] * v.0[0] + m[0][1] * v.0[1], m[1][0] * v.0[0] + m[1][1] * v.0[1]])
    }
}

/// `f(x) = (x0 - 1)^2 + 2 (x1 + 3)^2`, or a flat function whose Hessian is singular.
struct Quadratic {
    singular: bool,
}

impl ArgminOp for Quadratic {
    type Param = V2;
    type Output = F64;
    type Hessian = M2;

    fn spec_apply(&self, p: V2) -> Result<F64, ArgminError> {
        self.apply(&p)
    }

    fn apply(&self, p: &V2) -> Result<F64, ArgminError> {
        Ok(F64((p.0[0] - 1.).powi(2) + 2. * (p.0[1] + 3.).powi(2)))
    }

    fn spec_gradient(&self, p: V2) -> Result<V2, ArgminError> {
        self.gradient(&p)
    }

    fn gradient(&self, p: &V2) -> Result<V2, ArgminError> {
        Ok(V2([2. * (p.0[0] - 1.), 4. * (p.0[1] + 3.)]))
    }

    fn spec_hessian(&self, p: V2) -> Result<M2, ArgminError> {
        self.hessian(&p)
    }

    fn hessian(&self, _p: &V2) -> Result<M2, ArgminError> {
        if self.singular {
            Ok(M2([[0., 0.], [0., 0.]]))
        } else {
            Ok(M2([[2., 0.], [0., 4.]]))
        }
    }
}

#[test]
fn newton_gamma_zero_is_invalid() {
    let r = Newton::<F64>::new().set_gamma(F64(0.));
    assert!(matches!(r, Err(ArgminError::InvalidParameter(_))));
}

#[test]
fn newton_gamma_above_one_is_invalid() {
    let r = Newton::<F64>::new().set_gamma(F64(1.5));
    assert!(matches!(r, Err(ArgminError::InvalidParameter(_))));
}

#[test]
fn newton_gamma_in_range_is_kept() {
    assert_eq!(Newton::<F64>::new().gamma.0, 1.);
    assert_eq!(Newton::<F64>::new().set_gamma(F64(0.5)).unwrap().gamma.0, 0.5);
    assert_eq!(Newton::<F64>::new().set_gamma(F64(1.)).unwrap().gamma.0, 1.);
}

#[test]
fn newton_full_step_reaches_quadratic_minimum() {
    let res = Executor::new(Quadratic { singular: false }, Newton::new(), V2([0., 0.]))
        .max_iters(2)
        .run()
        .unwrap();
    let s = res.state();
    assert_eq!(s.param, V2([1., -3.]));
    assert_eq!(s.termination_reason, TerminationReason::MaxItersReached);
    assert_eq!(s.iter, 2);
    assert_eq!(s.grad_func_count, 2);
    assert_eq!(s.hessian_func_count, 2);
    assert_eq!(s.cost_func_count, 0);
}

#[test]
fn newton_half_step() {
    let solver = Newton::new().set_gamma(F64(0.5)).unwrap();
    let res = Executor::new(Quadratic { singular: false }, solver, V2([0., 0.]))
        .max_iters(1)
        .run()
        .unwrap();
    assert_eq!(res.state().param, V2([0.5, -1.5]));
    assert_eq!(res.state().prev_param, V2([0., 0.]));
}

#[test]
fn newton_singular_hessian_is_fatal() {
    let r = Executor::new(Quadratic { singular: true }, Newton::<F64>::new(), V2([0., 0.]))
        .max_iters(5)
        .run();
    assert!(matches!(r, Err(ArgminError::NumericalError(_))));
}

#[test]
fn newton_without_gradient_fails_not_implemented() {
    struct NoDerivatives {}
    impl ArgminOp for NoDerivatives {
        type Param = V2;
        type Output = F64;
        type Hessian = M2;
        fn spec_apply(&self, p: V2) -> Result<F64, ArgminError> {
            self.apply(&p)
        }
        fn apply(&self, _p: &V2) -> Result<F64, ArgminError> {
            Ok(F64(0.))
        }
        fn spec_gradient(&self, p: V2) -> Result<V2, ArgminError> {
            self.gradient(&p)
        }
        fn gradient(&self, _p: &V2) -> Result<V2, ArgminError> {
            Err(ArgminError::NotImplemented("gradient".to_string()))
        }
        fn spec_hessian(&self, p: V2) -> Result<M2, ArgminError> {
            self.hessian(&p)
        }
        fn hessian(&self, _p: &V2) -> Result<M2, ArgminError> {
            Err(ArgminError::NotImplemented("hessian".to_string()))
        }
    }
    let r = Executor::new(NoDerivatives {}, Newton::<F64>::new(), V2([0., 0.]))
        .max_iters(5)
        .run();
    assert!(matches!(r, Err(ArgminError::NotImplemented(_))));
}

/// A linear congruential generator that records how many draws it made.
struct Lcg {
    state: u64,
    draws: usize,
}

impl Lcg {
    fn next_unit(&mut self) -> f64 {
        self.state = self.state.wrapping_mul(6364136223846793005).wrapping_add(1442695040888963407);
        self.draws += 1;
        (self.state >> 11) as f64 / (1u64 << 53) as f64
    }
}

impl ArgminRng<F64> for Lcg {
    fn sample_between(&mut self, low: F64, high: F64) -> F64 {
        let u = self.next_unit();
        let v = low.0 + u * (high.0 - low.0);
        F64(if v < high.0 { v } else { low.0 })
    }

    fn sample_index(&mut self, n: usize) -> usize {
        ((self.next_unit() * n as f64) as usize).min(n - 1)
    }
}

#[test]
fn random_vector_lies_within_bounds() {
    let lower = vec![F64(-1.), F64(0.), F64(10.)];
    let upper = vec![F64(1.), F64(0.5), F64(20.)];
    let mut rng = Lcg { state: 42, draws: 0 };
    for _ in 0..100 {
        let v = random_vec(&lower, &upper, &mut rng).unwrap();
        assert_eq!(v.len(), 3);
        for i in 0..3 {
            assert!(lower[i].0 <= v[i].0 && v[i].0 < upper[i].0);
        }
    }
    let w = <Vec<F64> as ArgminParameter<F64>>::random(&lower, &upper, &mut rng).unwrap();
    assert_eq!(w.len(), 3);
}

#[test]
fn random_vector_rejects_unordered_bounds_before_sampling() {
    let lower = vec![F64(0.), F64(1.)];
    let upper = vec![F64(1.), F64(1.)];
    let mut rng = Lcg { state: 7, draws: 0 };
    let r = random_vec(&lower, &upper, &mut rng);
    assert!(matches!(r, Err(ArgminError::InvalidParameter(_))));
    assert_eq!(rng.draws, 0);
    assert!(matches!(check_bounds(&upper, &lower), Err(ArgminError::InvalidParameter(_))));
    assert!(check_bounds(&vec![F64(0.)], &vec![F64(1.)]).is_ok());
}

#[test]
fn random_vector_of_empty_bounds_is_empty() {
    let mut rng = Lcg { state: 1, draws: 0 };
    let v = random_vec(&vec![], &vec![], &mut rng).unwrap();
    assert!(v.is_empty());
}

#[test]
fn modify_moves_one_coordinate_within_bounds() {
    let param = vec![F64(0.), F64(5.), F64(9.5)];
    let lower = vec![F64(-0.5), F64(0.), F64(9.)];
    let upper = vec![F64(0.5), F64(10.), F64(10.)];
    let mut rng = Lcg { state: 3, draws: 0 };
    for _ in 0..50 {
        let m = modify(&param, &lower, &upper, &mut rng);
        let changed = (0..3).filter(|&i| m[i].0 != param[i].0).count();
        assert!(changed <= 1);
        for i in 0..3 {
            assert!(lower[i].0 <= m[i].0 && m[i].0 <= upper[i].0);
            assert!((m[i].0 - param[i].0).abs() <= 1.);
        }
    }
}

#[test]
fn newton_default_takes_full_steps() {
    let n: Newton<F64> = Default::default();
    assert_eq!(n.gamma.0, 1.);
}

struct Recorder {
    iters: Vec<u64>,
    fail_at: Option<u64>,
}

impl ArgminObserver<F64, F64> for Recorder {
    fn observe_iter(&mut self, state: &IterState<F64, F64>) -> Result<(), ArgminError> {
        if Some(state.iter) == self.fail_at {
            return Err(ArgminError::EvaluationError("observer failed".to_string()));
        }
        self.iters.push(state.iter);
        Ok(())
    }
}

fn observed_brent(mode: ObserverMode, fail_at: Option<u64>) -> (Result<u64, ArgminError>, Vec<u64>) {
    let mut observers = vec![(Recorder { iters: vec![], fail_at }, mode)];
    let r = Executor::new(TestFunc {}, Brent::new(F64(-10.), F64(10.)), F64(f64::NAN))
        .max_iters(13)
        .run_observed(&mut observers)
        .map(|res| res.state().iter);
    (r, observers.pop().unwrap().0.iters)
}

#[test]
fn observer_always_sees_every_merge_in_order() {
    let (r, iters) = observed_brent(ObserverMode::Always, None);
    assert_eq!(r.unwrap(), 13);
    assert_eq!(iters, (0..14).collect::<Vec<u64>>());
}

#[test]
fn observer_every_n_iterations() {
    let (_, iters) = observed_brent(ObserverMode::EveryNIterations(5), None);
    assert_eq!(iters, vec![0, 5, 10]);
    let (_, none) = observed_brent(ObserverMode::EveryNIterations(0), None);
    assert!(none.is_empty());
    let (_, never) = observed_brent(ObserverMode::Never, None);
    assert!(never.is_empty());
}

#[test]
fn observer_failure_aborts_run() {
    let (r, iters) = observed_brent(ObserverMode::Always, Some(4));
    assert!(matches!(r, Err(ArgminError::EvaluationError(_))));
    assert_eq!(iters, vec![0, 1, 2, 3]);
}

#[test]
fn observer_mode_fires() {
    assert!(ObserverMode::Always.fires(7));
    assert!(ObserverMode::EveryNIterations(3).fires(9));
    assert!(!ObserverMode::EveryNIterations(3).fires(10));
    assert!(!ObserverMode::Never.fires(0));
}

#[test]
fn newton_gamma_nan_is_invalid() {
    let r = Newton::<F64>::new().set_gamma(F64(f64::NAN));
    assert!(matches!(r, Err(ArgminError::InvalidParameter(_))));
    let r = Newton::<F64>::new().set_gamma(F64(-0.5));
    assert!(matches!(r, Err(ArgminError::InvalidParameter(_))));
}

#[test]
fn modify_accepts_longer_bounds() {
    let param = vec![F64(0.), F64(0.)];
    let lower = vec![F64(-3.), F64(-3.), F64(-3.)];
    let upper = vec![F64(3.), F64(3.), F64(3.)];
    let mut rng = Lcg { state: 11, draws: 0 };
    for _ in 0..20 {
        let m = modify(&param, &lower, &upper, &mut rng);
        assert_eq!(m.len(), 2);
        let changed = (0..2).filter(|&i| m[i].0 != param[i].0).count();
        assert!(changed <= 1);
        for i in 0..2 {
            assert!(-1. <= m[i].0 && m[i].0 < 1.);
        }
    }
}

#[test]
fn random_vector_draws_one_value_per_coordinate() {
    let lower = vec![F64(0.), F64(0.)];
    let upper = vec![F64(1.), F64(1.), F64(1.)];
    let mut rng = Lcg { state: 5, draws: 0 };
    let v = random_vec(&lower, &upper, &mut rng).unwrap();
    assert_eq!(v.len(), 2);
    assert_eq!(rng.draws, 2);
}

#[test]
fn brent_init_reports_first_point() {
    let mut b = Brent::new(F64(-10.), F64(10.));
    let mut op = OpWrapper::new(TestFunc {});
    let state: IterState<F64, F64> = IterState::new(F64(f64::NAN));
    let d = ArgminSolver::init(&mut b, &mut op, &state).unwrap().unwrap();
    let u = -10. + (3f64 - 5f64.sqrt()) / 2f64 * 20.;
    assert_eq!(d.param, Some(F64(u)));
    assert_eq!(d.cost, Some(F64((-u).exp() - (5. - u / 2.).exp())));
    assert_eq!(d.termination_reason, TerminationReason::NotTerminated);
    assert_eq!(op.cost_func_count, 1);
}

#[test]
fn observers_are_notified_in_order() {
    let mut observers = vec![
        (Recorder { iters: vec![], fail_at: None }, ObserverMode::Always),
        (Recorder { iters: vec![], fail_at: None }, ObserverMode::EveryNIterations(4)),
        (Recorder { iters: vec![], fail_at: Some(2) }, ObserverMode::Always),
    ];
    let r = Executor::new(TestFunc {}, Brent::new(F64(-10.), F64(10.)), F64(f64::NAN))
        .max_iters(13)
        .run_observed(&mut observers);
    assert!(matches!(r, Err(ArgminError::EvaluationError(_))));
    assert_eq!(observers.len(), 3);
    assert_eq!(observers[0].0.iters, vec![0, 1, 2]);
    assert_eq!(observers[1].0.iters, vec![0]);
    assert_eq!(observers[2].0.iters, vec![0, 1]);
}

#[test]
fn newton_step_formula_and_counts() {
    let solver = Newton::new().set_gamma(F64(0.5)).unwrap();
    let mut op = OpWrapper::new(Quadratic { singular: false });
    let d = solver.step(&mut op, &V2([3., 1.])).unwrap();
    assert_eq!(d.param, Some(V2([2., -1.])));
    assert_eq!(d.cost, None);
    assert_eq!((op.cost_func_count, op.grad_func_count, op.hessian_func_count), (0, 1, 1));
}

struct GradientFails {}

impl ArgminOp for GradientFails {
    type Param = V2;
    type Output = F64;
    type Hessian = M2;

    fn spec_apply(&self, p: V2) -> Result<F64, ArgminError> {
        self.apply(&p)
    }
    fn apply(&self, _p: &V2) -> Result<F64, ArgminError> {
        Ok(F64(0.))
    }
    fn spec_gradient(&self, p: V2) -> Result<V2, ArgminError> {
        self.gradient(&p)
    }
    fn gradient(&self, _p: &V2) -> Result<V2, ArgminError> {
        Err(ArgminError::EvaluationError("no gradient here".to_string()))
    }
    fn spec_hessian(&self, p: V2) -> Result<M2, ArgminError> {
        self.hessian(&p)
    }
    fn hessian(&self, _p: &V2) -> Result<M2, ArgminError> {
        Ok(M2([[1., 0.], [0., 1.]]))
    }
}

#[test]
fn newton_gradient_failure_skips_hessian() {
    let mut op = OpWrapper::new(GradientFails {});
    let r = Newton::<F64>::new().step(&mut op, &V2([0., 0.]));
    assert_eq!(r.err(), Some(ArgminError::EvaluationError("no gradient here".to_string())));
    assert_eq!((op.grad_func_count, op.hessian_func_count), (1, 0));
    let mut op2 = OpWrapper::new(Quadratic { singular: true });
    let r2 = Newton::<F64>::new().step(&mut op2, &V2([0., 0.]));
    assert!(matches!(r2, Err(ArgminError::NumericalError(_))));
    assert_eq!((op2.grad_func_count, op2.hessian_func_count), (1, 1));
}

#[test]
fn newton_init_makes_no_call() {
    let mut n = Newton::<F64>::new();
    let mut op = OpWrapper::new(Quadratic { singular: false });
    let state: IterState<V2, F64> = IterState::new(V2([0., 0.]));
    let r = ArgminSolver::init(&mut n, &mut op, &state).unwrap();
    assert!(r.is_none());
    assert_eq!((op.cost_func_count, op.grad_func_count, op.hessian_func_count), (0, 0, 0));
}

#[test]
fn advance_merges_counts_and_reports_continuation() {
    let mut state: IterState<F64, F64> = IterState::new(F64(0.));
    state.max_iters = 3;
    let mut op = OpWrapper::new(TestFunc {});
    op.apply(&F64(0.)).unwrap();
    let go = Executor::<TestFunc, Brent<F64>>::advance(
        &mut state,
        Ok(ArgminIterData::new().param(F64(1.)).cost(F64(3.))),
        &op,
    );
    assert_eq!(go.unwrap(), true);
    assert_eq!((state.iter, state.cost_func_count), (1, 1));
    assert_eq!((state.best_param.0, state.best_cost.0), (1., 3.));
    let stop = Executor::<TestFunc, Brent<F64>>::advance(
        &mut state,
        Ok(ArgminIterData::new().termination_reason(TerminationReason::TargetPrecisionReached)),
        &op,
    );
    assert_eq!(stop.unwrap(), false);
    assert_eq!(state.termination_reason, TerminationReason::TargetPrecisionReached);
    let err = Executor::<TestFunc, Brent<F64>>::advance(
        &mut state,
        Err(ArgminError::EvaluationError("boom".to_string())),
        &op,
    );
    assert_eq!(err, Err(ArgminError::EvaluationError("boom".to_string())));
    assert_eq!(state.iter, 2);
}

#[test]
fn result_text_names_reason_and_counts() {
    let res = run_brent(-10., 10., 13);
    let t = res.text();
    assert!(t.contains("Target precision reached"));
    assert!(t.contains("Iterations: 13"));
    assert!(t.contains("Cost function evaluations: 13"));
}
