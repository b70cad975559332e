//! The numeric capability that the rotation types are generic over.
//!
//! A [`Scalar`] is a machine representation of a real number: a binary
//! floating-point value, a fixed-point value, an arbitrary-precision number.
//! The rotation types never look inside one; they only combine scalars through
//! the operations of this trait.
//!
//! Every operation has two faces. The executable method computes; the `_spec`
//! function of the same name is the value that the method is bound to return.
//! The contracts of the rotation types are written over the `_spec` functions,
//! so they fix the exact sequence of scalar operations that is performed.
//!
//! What the operations mean as real-number arithmetic is a separate matter.
//! A reading of the scalars as real numbers is a function `val` from `T` to
//! the reals; [`exact_field`], [`exact_trig`] and [`exact_angles`] say that
//! under it the operations of `T` agree with the arithmetic of the reals.
//! Rounding arithmetic has no such reading, and meets the laws only up to its
//! rounding errors; the algebraic laws of the rotation types are proved for
//! scalars that have one.
//!
//! Outside verified code the `_spec` functions are ordinary methods that
//! nothing calls: an implementation there gives each the body of its
//! executable twin.

use vstd::prelude::*;

verus! {

/// A real-valued scalar with field arithmetic, a square root, the
/// trigonometric functions that rotations need, an absolute value, a sign
/// copy and an order.
///
/// An implementation promises that each method is a function of the values of
/// its arguments and returns what its `_spec` function names. No method may
/// panic; an operation outside its mathematical domain (a division by zero,
/// the arcsine of 2) returns whatever value the representation has for it.
pub trait Scalar: Sized {
    /// The scalar for 0.
    spec fn zero_spec() -> Self;

    /// The scalar for 1.
    spec fn one_spec() -> Self;

    /// The scalar for 2.
    spec fn two_spec() -> Self;

    /// The scalar for a quarter turn, π/2.
    spec fn frac_pi_2_spec() -> Self;

    /// `self + rhs`.
    spec fn add_spec(self, rhs: Self) -> Self;

    /// `self - rhs`.
    spec fn sub_spec(self, rhs: Self) -> Self;

    /// `self * rhs`.
    spec fn mul_spec(self, rhs: Self) -> Self;

    /// `self / rhs`.
    spec fn div_spec(self, rhs: Self) -> Self;

    /// The non-negative square root of `self`.
    spec fn sqrt_spec(self) -> Self;

    /// The sine of the angle `self`, in radians.
    spec fn sin_spec(self) -> Self;

    /// The cosine of the angle `self`, in radians.
    spec fn cos_spec(self) -> Self;

    /// The arcsine of `self`, in `[-π/2, π/2]`.
    spec fn asin_spec(self) -> Self;

    /// The angle of the point `(x, self)`, in `(-π, π]`.
    spec fn atan2_spec(self, x: Self) -> Self;

    /// The magnitude of `self`.
    spec fn abs_spec(self) -> Self;

    /// The magnitude of `self` with the sign of `sign`.
    spec fn copysign_spec(self, sign: Self) -> Self;

    /// Whether `self` is strictly greater than `rhs`.
    spec fn gt_spec(self, rhs: Self) -> bool;

    /// Whether `self` is a zero of the representation.
    spec fn is_zero_spec(self) -> bool;

    fn zero() -> (r: Self)
        ensures
            r == Self::zero_spec(),
    ;

    fn one() -> (r: Self)
        ensures
            r == Self::one_spec(),
            !r.is_zero_spec(),
    ;

    fn two() -> (r: Self)
        ensures
            r == Self::two_spec(),
    ;

    fn frac_pi_2() -> (r: Self)
        ensures
            r == Self::frac_pi_2_spec(),
    ;

    fn add(&self, rhs: &Self) -> (r: Self)
        ensures
            r == self.add_spec(*rhs),
    ;

    fn sub(&self, rhs: &Self) -> (r: Self)
        ensures
            r == self.sub_spec(*rhs),
    ;

    fn mul(&self, rhs: &Self) -> (r: Self)
        ensures
            r == self.mul_spec(*rhs),
    ;

    fn div(&self, rhs: &Self) -> (r: Self)
        ensures
            r == self.div_spec(*rhs),
    ;

    fn sqrt(&self) -> (r: Self)
        ensures
            r == self.sqrt_spec(),
    ;

    fn sin(&self) -> (r: Self)
        ensures
            r == self.sin_spec(),
    ;

    fn cos(&self) -> (r: Self)
        ensures
            r == self.cos_spec(),
    ;

    fn asin(&self) -> (r: Self)
        ensures
            r == self.asin_spec(),
    ;

    fn atan2(&self, x: &Self) -> (r: Self)
        ensures
            r == self.atan2_spec(*x),
    ;

    fn abs(&self) -> (r: Self)
        ensures
            r == self.abs_spec(),
    ;

    fn copysign(&self, sign: &Self) -> (r: Self)
        ensures
            r == self.copysign_spec(*sign),
    ;

    fn gt(&self, rhs: &Self) -> (r: bool)
        ensures
            r == self.gt_spec(*rhs),
    ;

    fn is_zero(&self) -> (r: bool)
        ensures
            r == self.is_zero_spec(),
    ;
}

/// The magnitude of a real number.
pub open spec fn real_abs(a: real) -> real {
    if a >= 0real {
        a
    } else {
        -a
    }
}

/// `r` is the non-negative square root of `a`.
pub open spec fn is_sqrt_of(r: real, a: real) -> bool {
    r >= 0real && r * r == a
}

/// Read through `val`, the constants, the field operations, the square root,
/// the magnitude, the sign copy and the order of `T` are those of the real
/// numbers.
///
/// Division is only constrained for a non-zero divisor, where the quotient
/// times the divisor is the dividend; the square root only for a
/// non-negative argument, the sign copy only for a non-zero sign.
pub open spec fn exact_field<T: Scalar>(val: spec_fn(T) -> real) -> bool {
    &&& val(T::zero_spec()) == 0real
    &&& val(T::one_spec()) == 1real
    &&& val(T::two_spec()) == 2real
    &&& forall|a: T, b: T| val(#[trigger] a.add_spec(b)) == val(a) + val(b)
    &&& forall|a: T, b: T| val(#[trigger] a.sub_spec(b)) == val(a) - val(b)
    &&& forall|a: T, b: T| val(#[trigger] a.mul_spec(b)) == val(a) * val(b)
    &&& forall|a: T, b: T| val(b) != 0real ==> val(#[trigger] a.div_spec(b)) * val(b) == val(a)
    &&& forall|a: T| val(a) >= 0real ==> is_sqrt_of(val(#[trigger] a.sqrt_spec()), val(a))
    &&& forall|a: T| val(#[trigger] a.abs_spec()) == real_abs(val(a))
    &&& forall|a: T, s: T|
        val(s) > 0real ==> val(#[trigger] a.copysign_spec(s)) == real_abs(val(a))
    &&& forall|a: T, s: T|
        val(s) < 0real ==> val(#[trigger] a.copysign_spec(s)) == -real_abs(val(a))
    &&& forall|a: T, b: T| #[trigger] a.gt_spec(b) <==> val(a) > val(b)
    &&& forall|a: T| #[trigger] a.is_zero_spec() <==> val(a) == 0real
}

/// Read through `val`, the cosine and the sine of every angle of `T` lie on
/// the unit circle.
pub open spec fn exact_trig<T: Scalar>(val: spec_fn(T) -> real) -> bool {
    forall|a: T|
        #![trigger a.sin_spec()]
        #![trigger a.cos_spec()]
        val(a.cos_spec()) * val(a.cos_spec()) + val(a.sin_spec()) * val(a.sin_spec()) == 1real
}

/// Read through `val`, the sine, cosine, arcsine and two-argument arctangent
/// of `T` are those of the real numbers, as far as the Euler angles of a
/// rotation draw on them: a quarter turn is positive; the sine and cosine of
/// an angle follow from those of half the angle by the double-angle formulas;
/// the cosine is positive within a quarter turn of zero; `atan2` gives back
/// the angle of a point that lies in its direction at a positive distance;
/// the arcsine gives back an angle within a quarter turn of zero from its
/// sine.
pub open spec fn exact_angles<T: Scalar>(val: spec_fn(T) -> real) -> bool {
    let quarter = val(T::frac_pi_2_spec());
    &&& quarter > 0real
    &&& forall|t: T|
        #![trigger T::one_spec().div_spec(T::two_spec()).mul_spec(t)]
        val(t.sin_spec()) == 2real * val(
            T::one_spec().div_spec(T::two_spec()).mul_spec(t).sin_spec(),
        ) * val(T::one_spec().div_spec(T::two_spec()).mul_spec(t).cos_spec()) && val(
            t.cos_spec(),
        ) == val(T::one_spec().div_spec(T::two_spec()).mul_spec(t).cos_spec()) * val(
            T::one_spec().div_spec(T::two_spec()).mul_spec(t).cos_spec(),
        ) - val(T::one_spec().div_spec(T::two_spec()).mul_spec(t).sin_spec()) * val(
            T::one_spec().div_spec(T::two_spec()).mul_spec(t).sin_spec(),
        )
    &&& forall|t: T| -quarter < val(t) < quarter ==> val(#[trigger] t.cos_spec()) > 0real
    &&& forall|t: T, y: T, x: T|
        #![trigger y.atan2_spec(x), t.cos_spec()]
        -2real * quarter < val(t) <= 2real * quarter && val(y) * val(t.cos_spec()) == val(x)
            * val(t.sin_spec()) && val(x) * val(t.cos_spec()) + val(y) * val(t.sin_spec())
            > 0real ==> val(y.atan2_spec(x)) == val(t)
    &&& forall|t: T, a: T|
        #![trigger a.asin_spec(), t.sin_spec()]
        -quarter <= val(t) <= quarter && val(a) == val(t.sin_spec()) ==> val(a.asin_spec())
            == val(t)
}

} // verus!
