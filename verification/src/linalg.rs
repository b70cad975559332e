//! Fixed-size vectors of scalars and their Euclidean normalization.
//!
//! Normalization divides every component by the Euclidean norm, the square
//! root of the sum of the squared components. The squares are summed in a
//! fixed order, spelled out by the `norm_squared` functions: pairwise for four
//! components, left to right otherwise.

use crate::scalar::Scalar;
use vstd::prelude::*;

verus! {

/// The two components `(w, x)` of a complex number `w + xi`.
#[derive(Clone, Copy, Debug, PartialEq)]
pub struct Complex<T> {
    pub w: T,
    pub x: T,
}

/// The four components `(w, x, y, z)` of a quaternion `w + xi + yj + zk`.
#[derive(Clone, Copy, Debug, PartialEq)]
pub struct Quat<T> {
    pub w: T,
    pub x: T,
    pub y: T,
    pub z: T,
}

/// A vector of three-dimensional space.
#[derive(Clone, Copy, Debug, PartialEq)]
pub struct Vector3<T> {
    pub x: T,
    pub y: T,
    pub z: T,
}

/// A 2×2 matrix; `m21` is the entry of the second row and the first column.
#[derive(Clone, Copy, Debug, PartialEq)]
pub struct Matrix2<T> {
    pub m11: T,
    pub m12: T,
    pub m21: T,
    pub m22: T,
}

impl<T: Scalar> Complex<T> {
    /// The real numbers that the components stand for under the reading `val`.
    pub open spec fn val(self, val: spec_fn(T) -> real) -> Complex<real> {
        Complex { w: val(self.w), x: val(self.x) }
    }

    /// Under the reading `val` the number has norm 1.
    pub open spec fn is_unit(self, val: spec_fn(T) -> real) -> bool {
        self.val(val).norm_sq() == 1real
    }

    /// Both components are zero.
    pub open spec fn is_zero_spec(self) -> bool {
        self.w.is_zero_spec() && self.x.is_zero_spec()
    }

    /// `w² + x²`.
    pub open spec fn norm_squared(self) -> T {
        self.w.mul_spec(self.w).add_spec(self.x.mul_spec(self.x))
    }

    /// The Euclidean norm.
    pub open spec fn norm(self) -> T {
        self.norm_squared().sqrt_spec()
    }

    /// Each component divided by the norm.
    pub open spec fn normalized(self) -> Complex<T> {
        Complex { w: self.w.div_spec(self.norm()), x: self.x.div_spec(self.norm()) }
    }

    /// Tells whether both components are zero.
    pub fn is_zero(&self) -> (r: bool)
        ensures
            r == self.is_zero_spec(),
    {
        self.w.is_zero() && self.x.is_zero()
    }

    /// Scales the number to unit norm.
    pub fn normalize(&self) -> (r: Complex<T>)
        ensures
            r == self.normalized(),
    {
        let n = self.w.mul(&self.w).add(&self.x.mul(&self.x)).sqrt();
        Complex { w: self.w.div(&n), x: self.x.div(&n) }
    }
}

impl<T: Scalar> Vector3<T> {
    /// The real numbers that the components stand for under the reading `val`.
    pub open spec fn val(self, val: spec_fn(T) -> real) -> Vector3<real> {
        Vector3 { x: val(self.x), y: val(self.y), z: val(self.z) }
    }

    /// All three components are zero.
    pub open spec fn is_zero_spec(self) -> bool {
        self.x.is_zero_spec() && self.y.is_zero_spec() && self.z.is_zero_spec()
    }

    /// `(x² + y²) + z²`.
    pub open spec fn norm_squared(self) -> T {
        self.x.mul_spec(self.x).add_spec(self.y.mul_spec(self.y)).add_spec(
            self.z.mul_spec(self.z),
        )
    }

    /// The Euclidean norm.
    pub open spec fn norm(self) -> T {
        self.norm_squared().sqrt_spec()
    }

    /// Each component divided by the norm.
    pub open spec fn normalized(self) -> Vector3<T> {
        Vector3 {
            x: self.x.div_spec(self.norm()),
            y: self.y.div_spec(self.norm()),
            z: self.z.div_spec(self.norm()),
        }
    }

    /// Tells whether all three components are zero.
    pub fn is_zero(&self) -> (r: bool)
        ensures
            r == self.is_zero_spec(),
    {
        self.x.is_zero() && self.y.is_zero() && self.z.is_zero()
    }

    /// Scales the vector to unit length.
    pub fn normalize(&self) -> (r: Vector3<T>)
        ensures
            r == self.normalized(),
    {
        let n = self.x.mul(&self.x).add(&self.y.mul(&self.y)).add(&self.z.mul(&self.z)).sqrt();
        Vector3 { x: self.x.div(&n), y: self.y.div(&n), z: self.z.div(&n) }
    }
}

impl<T: Scalar> Quat<T> {
    /// The real numbers that the components stand for under the reading `val`.
    pub open spec fn val(self, val: spec_fn(T) -> real) -> Quat<real> {
        Quat { w: val(self.w), x: val(self.x), y: val(self.y), z: val(self.z) }
    }

    /// Under the reading `val` the quaternion has norm 1.
    pub open spec fn is_unit(self, val: spec_fn(T) -> real) -> bool {
        self.val(val).norm_sq() == 1real
    }

    /// `(w² + y²) + (x² + z²)`.
    pub open spec fn norm_squared(self) -> T {
        self.w.mul_spec(self.w).add_spec(self.y.mul_spec(self.y)).add_spec(
            self.x.mul_spec(self.x).add_spec(self.z.mul_spec(self.z)),
        )
    }

    /// The Euclidean norm.
    pub open spec fn norm(self) -> T {
        self.norm_squared().sqrt_spec()
    }

    /// Each component divided by the norm.
    pub open spec fn normalized(self) -> Quat<T> {
        Quat {
            w: self.w.div_spec(self.norm()),
            x: self.x.div_spec(self.norm()),
            y: self.y.div_spec(self.norm()),
            z: self.z.div_spec(self.norm()),
        }
    }

    /// Scales the quaternion to unit norm.
    pub fn normalize(&self) -> (r: Quat<T>)
        ensures
            r == self.normalized(),
    {
        let wy = self.w.mul(&self.w).add(&self.y.mul(&self.y));
        let xz = self.x.mul(&self.x).add(&self.z.mul(&self.z));
        let n = wy.add(&xz).sqrt();
        Quat { w: self.w.div(&n), x: self.x.div(&n), y: self.y.div(&n), z: self.z.div(&n) }
    }
}

} // verus!
