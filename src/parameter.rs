//! Parameter vectors drawn at random within bounds, from a random source that
//! the caller owns and passes in.

use vstd::prelude::*;

use crate::errors::ArgminError;
use crate::float::ArgminCostValue;

verus! {

/// A random source owned by one run.
///
/// Implementations are written by the caller and are not checked by the
/// verifier: the bounds in the contracts below are believed of them, as they
/// hold of a uniform sampler over a half-open range.
pub trait ArgminRng<F: ArgminCostValue> {
    /// A value drawn from `[low, high)`, where `low < high`.
    fn sample_between(&mut self, low: F, high: F) -> (r: F)
        requires
            low.spec_lt(high),
        ensures
            low.spec_le(r),
            r.spec_lt(high),
    ;

    /// An index drawn from `0..n`, where `n > 0`.
    fn sample_index(&mut self, n: usize) -> (r: usize)
        requires
            n > 0,
        ensures
            r < n,
    ;
}

/// Whether `lower[i] < upper[i]` at every index that both vectors have.
pub open spec fn bounds_ordered<F: ArgminCostValue>(lower: Seq<F>, upper: Seq<F>) -> bool {
    forall|i: int|
        0 <= i < lower.len() && i < upper.len() ==> #[trigger] lower[i].spec_lt(upper[i])
}

/// The number of coordinates that a pair of bounds describes.
pub open spec fn bounds_len<F>(lower: Seq<F>, upper: Seq<F>) -> nat {
    if lower.len() <= upper.len() {
        lower.len()
    } else {
        upper.len()
    }
}

/// Whether every coordinate of `v` lies between its bounds: at or above the
/// lower one, below the upper one.
pub open spec fn within_bounds<F: ArgminCostValue>(v: Seq<F>, lower: Seq<F>, upper: Seq<F>) -> bool {
    &&& v.len() == bounds_len(lower, upper)
    &&& forall|i: int|
        0 <= i < v.len() ==> lower[i].spec_le(#[trigger] v[i]) && v[i].spec_lt(upper[i])
}

/// `v` clamped into `[lo, hi]`: first raised to `lo`, then lowered to `hi`.
pub open spec fn clamp<F: ArgminCostValue>(v: F, lo: F, hi: F) -> F {
    let raised = if v.spec_lt(lo) {
        lo
    } else {
        v
    };
    if hi.spec_lt(raised) {
        hi
    } else {
        raised
    }
}

/// Parameters that can be drawn at random between a lower and an upper bound.
pub trait ArgminParameter<F: ArgminCostValue>: Sized {
    /// A random parameter between `lower` and `upper`; fails with
    /// `InvalidParameter`, before anything is drawn, unless `lower < upper` in
    /// every coordinate.
    fn random<R: ArgminRng<F>>(lower: &Self, upper: &Self, rng: &mut R) -> Result<Self, ArgminError>;
}

/// Checks that `lower[i] < upper[i]` at every index that both vectors have.
pub fn check_bounds<F: ArgminCostValue>(lower: &Vec<F>, upper: &Vec<F>) -> (r: Result<(), ArgminError>)
    ensures
        r is Ok <==> bounds_ordered(lower@, upper@),
        r matches Err(e) ==> e.is_invalid_parameter(),
{
    let n: usize = if lower.len() <= upper.len() {
        lower.len()
    } else {
        upper.len()
    };
    let mut i: usize = 0;
    while i < n
        invariant
            n <= lower.len(),
            n <= upper.len(),
            n == lower.len() || n == upper.len(),
            i <= n,
            forall|j: int| 0 <= j < i ==> #[trigger] lower@[j].spec_lt(upper@[j]),
        decreases n - i,
    {
        if !lower[i].lt(upper[i]) {
            return Err(
                ArgminError::InvalidParameter(
                    "Parameter: lower_bound must be lower than upper_bound.".to_string(),
                ),
            );
        }
        i = i + 1;
    }
    Ok(())
}

/// A vector drawn coordinate by coordinate between `lower` and `upper`.
///
/// The bounds are checked before anything is drawn; the result has one
/// coordinate per index that both bounds have.
pub fn random_vec<F: ArgminCostValue, R: ArgminRng<F>>(lower: &Vec<F>, upper: &Vec<F>, rng: &mut R) -> (r:
    Result<Vec<F>, ArgminError>)
    ensures
        r is Ok <==> bounds_ordered(lower@, upper@),
        r matches Err(e) ==> e.is_invalid_parameter(),
        r matches Ok(v) ==> within_bounds(v@, lower@, upper@),
        r is Err ==> *final(rng) == *old(rng),
{
    match check_bounds(lower, upper) {
        Ok(()) => {},
        Err(e) => return Err(e),
    }
    let n: usize = if lower.len() <= upper.len() {
        lower.len()
    } else {
        upper.len()
    };
    let mut out: Vec<F> = Vec::new();
    let mut i: usize = 0;
    while i < n
        invariant
            n == bounds_len(lower@, upper@),
            i <= n,
            out@.len() == i,
            bounds_ordered(lower@, upper@),
            forall|j: int|
                0 <= j < i ==> lower@[j].spec_le(#[trigger] out@[j]) && out@[j].spec_lt(upper@[j]),
        decreases n - i,
    {
        assert(lower@[i as int].spec_lt(upper@[i as int]));
        let value = rng.sample_between(lower[i], upper[i]);
        out.push(value);
        i = i + 1;
    }
    Ok(out)
}

/// A neighbour of `param`: one coordinate, chosen at random, moves by a random
/// amount in `[-1, 1)` and is then clamped into its bounds.
///
/// For a numeric type in which `-1 < 1` fails, `param` is returned as it is.
pub fn modify<F: ArgminCostValue, R: ArgminRng<F>>(param: &Vec<F>, lower: &Vec<F>, upper: &Vec<F>, rng: &mut R) -> (r:
    Vec<F>)
    requires
        param.len() > 0,
        lower.len() >= param.len(),
        upper.len() >= param.len(),
    ensures
        !F::spec_from_int(-1i64).spec_lt(F::spec_from_int(1)) ==> r@ == param@,
        F::spec_from_int(-1i64).spec_lt(F::spec_from_int(1)) ==> exists|i: int, delta: F|
            {
                &&& 0 <= i < param.len()
                &&& F::spec_from_int(-1i64).spec_le(delta)
                &&& delta.spec_lt(F::spec_from_int(1))
                &&& r@ == param@.update(
                    i,
                    clamp(param@[i].spec_add(delta), lower@[i], upper@[i]),
                )
            },
{
    let minus_one = F::from_int(-1);
    let one = F::from_int(1);
    if !minus_one.lt(one) {
        return copy_with(param, param.len(), minus_one);
    }
    let idx = rng.sample_index(param.len());
    let delta = rng.sample_between(minus_one, one);
    let mut value = param[idx].add(delta);
    if value.lt(lower[idx]) {
        value = lower[idx];
    }
    if upper[idx].lt(value) {
        value = upper[idx];
    }
    copy_with(param, idx, value)
}

/// A copy of `v` whose coordinate `idx` is `value`; a plain copy when `idx` is out of range.
fn copy_with<F: Copy>(v: &Vec<F>, idx: usize, value: F) -> (r: Vec<F>)
    ensures
        idx < v.len() ==> r@ == v@.update(idx as int, value),
        idx >= v.len() ==> r@ == v@,
{
    let mut out: Vec<F> = Vec::new();
    let mut j: usize = 0;
    while j < v.len()
        invariant
            j <= v.len(),
            out@.len() == j,
            forall|k: int| 0 <= k < j ==> #[trigger] out@[k] == (if k == idx { value } else { v@[k] }),
        decreases v.len() - j,
    {
        if j == idx {
            out.push(value);
        } else {
            out.push(v[j]);
        }
        j = j + 1;
    }
    if idx < v.len() {
        assert(out@ =~= v@.update(idx as int, value));
    } else {
        assert(out@ =~= v@);
    }
    out
}

impl<F: ArgminCostValue> ArgminParameter<F> for Vec<F> {
    fn random<R: ArgminRng<F>>(lower: &Vec<F>, upper: &Vec<F>, rng: &mut R) -> (r: Result<
        Vec<F>,
        ArgminError,
    >)
        ensures
            r is Ok <==> bounds_ordered(lower@, upper@),
            r matches Err(e) ==> e.is_invalid_parameter(),
            r matches Ok(v) ==> within_bounds(v@, lower@, upper@),
            r is Err ==> *final(rng) == *old(rng),
    {
        random_vec(lower, upper, rng)
    }
}

} // verus!
