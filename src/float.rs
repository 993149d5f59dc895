//! The numeric interface that parameters and cost values are written against.

use vstd::prelude::*;

verus! {

/// The scalar type of costs (and of one-dimensional parameters).
///
/// Each executable operation has a specification twin, and its contract says
/// that it returns exactly what its twin denotes. The twins are otherwise left
/// open, so what is proved against this trait holds for every type that
/// provides these operations, whatever its rounding.
///
/// Implementations are written by the caller and are not checked by the
/// verifier: each must define every twin as the operation itself (for `f64`,
/// the IEEE arithmetic and comparisons), which makes the contracts hold.
pub trait ArgminCostValue: Sized + Copy {
    /// The value of `self + o`.
    spec fn spec_add(self, o: Self) -> Self;

    /// The value of `self - o`.
    spec fn spec_sub(self, o: Self) -> Self;

    /// The value of `self * o`.
    spec fn spec_mul(self, o: Self) -> Self;

    /// The value of `self / o`.
    spec fn spec_div(self, o: Self) -> Self;

    /// The value of `-self`.
    spec fn spec_neg(self) -> Self;

    /// The absolute value of `self`.
    spec fn spec_abs(self) -> Self;

    /// The sign of `self`: one, minus one, or not a number.
    spec fn spec_signum(self) -> Self;

    /// The square root of `self`.
    spec fn spec_sqrt(self) -> Self;

    /// Whether `self <= o` holds.
    spec fn spec_le(self, o: Self) -> bool;

    /// Whether `self < o` holds.
    spec fn spec_lt(self, o: Self) -> bool;

    /// Whether `self == o` holds as numbers.
    spec fn spec_equals(self, o: Self) -> bool;

    /// The value closest to the integer `n`.
    spec fn spec_from_int(n: i64) -> Self;

    /// The machine epsilon of the type.
    spec fn spec_epsilon() -> Self;

    /// Not a number.
    spec fn spec_nan() -> Self;

    /// Positive infinity.
    spec fn spec_infinity() -> Self;

    fn add(self, o: Self) -> (r: Self)
        ensures
            r == self.spec_add(o),
    ;

    fn sub(self, o: Self) -> (r: Self)
        ensures
            r == self.spec_sub(o),
    ;

    fn mul(self, o: Self) -> (r: Self)
        ensures
            r == self.spec_mul(o),
    ;

    fn div(self, o: Self) -> (r: Self)
        ensures
            r == self.spec_div(o),
    ;

    fn neg(self) -> (r: Self)
        ensures
            r == self.spec_neg(),
    ;

    fn abs(self) -> (r: Self)
        ensures
            r == self.spec_abs(),
    ;

    fn signum(self) -> (r: Self)
        ensures
            r == self.spec_signum(),
    ;

    fn sqrt(self) -> (r: Self)
        ensures
            r == self.spec_sqrt(),
    ;

    fn le(self, o: Self) -> (r: bool)
        ensures
            r == self.spec_le(o),
    ;

    fn lt(self, o: Self) -> (r: bool)
        ensures
            r == self.spec_lt(o),
    ;

    fn equals(self, o: Self) -> (r: bool)
        ensures
            r == self.spec_equals(o),
    ;

    fn from_int(n: i64) -> (r: Self)
        ensures
            r == Self::spec_from_int(n),
    ;

    fn epsilon() -> (r: Self)
        ensures
            r == Self::spec_epsilon(),
    ;

    fn nan() -> (r: Self)
        ensures
            r == Self::spec_nan(),
    ;

    fn infinity() -> (r: Self)
        ensures
            r == Self::spec_infinity(),
    ;
}

} // verus!
