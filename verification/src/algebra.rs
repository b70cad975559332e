//! Complex numbers, quaternions and vectors over the real numbers: the exact
//! arithmetic that the rotation types approximate.
//!
//! The polynomial identities of this module are proved by expanding both
//! sides into monomials: each helper lemma states one small step
//! (a distribution, a regrouping of factors), and the linear arithmetic over
//! the resulting products does the rest.

use crate::linalg::{Complex, Quat, Vector3};
use vstd::prelude::*;

verus! {

impl Complex<real> {
    /// The complex number `1`.
    pub open spec fn one() -> Complex<real> {
        Complex { w: 1real, x: 0real }
    }

    /// The complex product.
    pub open spec fn times(self, q: Complex<real>) -> Complex<real> {
        Complex { w: self.w * q.w - self.x * q.x, x: self.w * q.x + self.x * q.w }
    }

    /// `w² + x²`.
    pub open spec fn norm_sq(self) -> real {
        self.w * self.w + self.x * self.x
    }

    /// `self` is `q` divided by `n`: each component of `self` times `n` is
    /// the component of `q`.
    pub open spec fn is_scaled(self, q: Complex<real>, n: real) -> bool {
        self.w * n == q.w && self.x * n == q.x
    }
}

impl Vector3<real> {
    /// `x² + y² + z²`.
    pub open spec fn norm_sq(self) -> real {
        self.x * self.x + self.y * self.y + self.z * self.z
    }

    /// `self` is `v` divided by `n`.
    pub open spec fn is_scaled(self, v: Vector3<real>, n: real) -> bool {
        self.x * n == v.x && self.y * n == v.y && self.z * n == v.z
    }
}

impl Quat<real> {
    /// The quaternion `1`.
    pub open spec fn one() -> Quat<real> {
        Quat { w: 1real, x: 0real, y: 0real, z: 0real }
    }

    /// `w² + x² + y² + z²`.
    pub open spec fn norm_sq(self) -> real {
        self.w * self.w + self.x * self.x + self.y * self.y + self.z * self.z
    }

    /// `self` is `q` divided by `n`.
    pub open spec fn is_scaled(self, q: Quat<real>, n: real) -> bool {
        self.w * n == q.w && self.x * n == q.x && self.y * n == q.y && self.z * n == q.z
    }

    /// The Hamilton product.
    pub open spec fn times(self, q: Quat<real>) -> Quat<real> {
        Quat {
            w: self.w * q.w - self.x * q.x - self.y * q.y - self.z * q.z,
            x: self.w * q.x + self.x * q.w + self.y * q.z - self.z * q.y,
            y: self.w * q.y - self.x * q.z + self.y * q.w + self.z * q.x,
            z: self.w * q.z + self.x * q.y - self.y * q.x + self.z * q.w,
        }
    }

    /// The vector part lies along `v`: their cross product vanishes.
    pub open spec fn is_along(self, v: Vector3<real>) -> bool {
        self.x * v.y == self.y * v.x && self.x * v.z == self.z * v.x && self.y * v.z == self.z
            * v.y
    }

    /// The image of `v` under the rotation matrix of the quaternion,
    ///
    /// ```text
    /// 1 - 2yy - 2zz     2xy - 2wz       2(xz + wy)
    ///   2(xy + wz)    1 - 2(xx + zz)    2(yz - wx)
    ///   2(xz - wy)      2(yz + wx)    1 - 2(xx + yy)
    /// ```
    pub open spec fn rotate(self, v: Vector3<real>) -> Vector3<real> {
        let Quat { w, x, y, z } = self;
        Vector3 {
            x: (1real - y * y * 2real - z * z * 2real) * v.x + (x * y * 2real - w * z * 2real)
                * v.y + (x * z + w * y) * 2real * v.z,
            y: (x * y + w * z) * 2real * v.x + (1real - (x * x + z * z) * 2real) * v.y + (y * z
                - w * x) * 2real * v.z,
            z: (x * z - w * y) * 2real * v.x + (y * z + w * x) * 2real * v.y + (1real - (x * x
                + y * y) * 2real) * v.z,
        }
    }
}

/// Multiplication of real numbers is associative.
pub proof fn lemma_mul_assoc(a: real, b: real, c: real)
    by (nonlinear_arith)
    ensures
        (a * b) * c == a * (b * c),
{
}

/// A signed sum of four terms times `c`, term by term.
proof fn lemma_dist_right_pppp(p: real, q: real, r: real, s: real, c: real)
    by (nonlinear_arith)
    ensures
        (p + q + r + s) * c == p * c + q * c + r * c + s * c,
{
}

/// `c` times a signed sum of four terms, term by term.
proof fn lemma_dist_left_pppp(c: real, p: real, q: real, r: real, s: real)
    by (nonlinear_arith)
    ensures
        c * (p + q + r + s) == c * p + c * q + c * r + c * s,
{
}

/// A signed sum of four terms times `c`, term by term.
proof fn lemma_dist_right_pmmm(p: real, q: real, r: real, s: real, c: real)
    by (nonlinear_arith)
    ensures
        (p - q - r - s) * c == p * c - q * c - r * c - s * c,
{
}

/// `c` times a signed sum of four terms, term by term.
proof fn lemma_dist_left_pmmm(c: real, p: real, q: real, r: real, s: real)
    by (nonlinear_arith)
    ensures
        c * (p - q - r - s) == c * p - c * q - c * r - c * s,
{
}

/// The square of a signed sum of four terms.
proof fn lemma_square_pmmm(p: real, q: real, r: real, s: real)
    by (nonlinear_arith)
    ensures
        (p - q - r - s) * (p - q - r - s) == p * p + q * q + r * r + s * s - 2real * (p * q) - 2real
            * (p * r) - 2real * (p * s) + 2real * (q * r) + 2real * (q * s) + 2real * (r * s),
{
}

/// A signed sum of four terms times `c`, term by term.
proof fn lemma_dist_right_pppm(p: real, q: real, r: real, s: real, c: real)
    by (nonlinear_arith)
    ensures
        (p + q + r - s) * c == p * c + q * c + r * c - s * c,
{
}

/// `c` times a signed sum of four terms, term by term.
proof fn lemma_dist_left_pppm(c: real, p: real, q: real, r: real, s: real)
    by (nonlinear_arith)
    ensures
        c * (p + q + r - s) == c * p + c * q + c * r - c * s,
{
}

/// The square of a signed sum of four terms.
proof fn lemma_square_pppm(p: real, q: real, r: real, s: real)
    by (nonlinear_arith)
    ensures
        (p + q + r - s) * (p + q + r - s) == p * p + q * q + r * r + s * s + 2real * (p * q) + 2real
            * (p * r) - 2real * (p * s) + 2real * (q * r) - 2real * (q * s) - 2real * (r * s),
{
}

/// A signed sum of four terms times `c`, term by term.
proof fn lemma_dist_right_pmpp(p: real, q: real, r: real, s: real, c: real)
    by (nonlinear_arith)
    ensures
        (p - q + r + s) * c == p * c - q * c + r * c + s * c,
{
}

/// `c` times a signed sum of four terms, term by term.
proof fn lemma_dist_left_pmpp(c: real, p: real, q: real, r: real, s: real)
    by (nonlinear_arith)
    ensures
        c * (p - q + r + s) == c * p - c * q + c * r + c * s,
{
}

/// The square of a signed sum of four terms.
proof fn lemma_square_pmpp(p: real, q: real, r: real, s: real)
    by (nonlinear_arith)
    ensures
        (p - q + r + s) * (p - q + r + s) == p * p + q * q + r * r + s * s - 2real * (p * q) + 2real
            * (p * r) + 2real * (p * s) - 2real * (q * r) - 2real * (q * s) + 2real * (r * s),
{
}

/// A signed sum of four terms times `c`, term by term.
proof fn lemma_dist_right_ppmp(p: real, q: real, r: real, s: real, c: real)
    by (nonlinear_arith)
    ensures
        (p + q - r + s) * c == p * c + q * c - r * c + s * c,
{
}

/// `c` times a signed sum of four terms, term by term.
proof fn lemma_dist_left_ppmp(c: real, p: real, q: real, r: real, s: real)
    by (nonlinear_arith)
    ensures
        c * (p + q - r + s) == c * p + c * q - c * r + c * s,
{
}

/// The square of a signed sum of four terms.
proof fn lemma_square_ppmp(p: real, q: real, r: real, s: real)
    by (nonlinear_arith)
    ensures
        (p + q - r + s) * (p + q - r + s) == p * p + q * q + r * r + s * s + 2real * (p * q) - 2real
            * (p * r) + 2real * (p * s) - 2real * (q * r) + 2real * (q * s) - 2real * (r * s),
{
}

/// A product of two products, regrouped.
proof fn lemma_regroup_ac_bd(a: real, b: real, c: real, d: real)
    by (nonlinear_arith)
    ensures
        (a * b) * (c * d) == (a * c) * (b * d),
{
}

/// A product of two products, regrouped.
proof fn lemma_regroup_ca_bd(a: real, b: real, c: real, d: real)
    by (nonlinear_arith)
    ensures
        (a * b) * (c * d) == (c * a) * (b * d),
{
}

/// A product of two products, regrouped.
proof fn lemma_regroup_ac_db(a: real, b: real, c: real, d: real)
    by (nonlinear_arith)
    ensures
        (a * b) * (c * d) == (a * c) * (d * b),
{
}

/// A product of two products, regrouped.
proof fn lemma_regroup_ca_db(a: real, b: real, c: real, d: real)
    by (nonlinear_arith)
    ensures
        (a * b) * (c * d) == (c * a) * (d * b),
{
}

/// The `w` component of the two ways to bracket a product of three
/// quaternions.
proof fn lemma_assoc_w(a0: real, a1: real, a2: real, a3: real, b0: real, b1: real, b2: real, b3:
    real, c0: real, c1: real, c2: real, c3: real)
    ensures
        (a0 * b0 - a1 * b1 - a2 * b2 - a3 * b3) * c0 - (a0 * b1 + a1 * b0 + a2 * b3 - a3 * b2) * c1
            - (a0 * b2 - a1 * b3 + a2 * b0 + a3 * b1) * c2 - (a0 * b3 + a1 * b2 - a2 * b1 + a3 * b0)
            * c3
            == a0 * (b0 * c0 - b1 * c1 - b2 * c2 - b3 * c3) - a1 * (b0 * c1 + b1 * c0 + b2 * c3 - b3
                * c2) - a2 * (b0 * c2 - b1 * c3 + b2 * c0 + b3 * c1) - a3 * (b0 * c3 + b1 * c2 - b2
                * c1 + b3 * c0),
{
    lemma_dist_right_pmmm(a0 * b0, a1 * b1, a2 * b2, a3 * b3, c0);
    lemma_mul_assoc(a0, b0, c0);
    lemma_mul_assoc(a1, b1, c0);
    lemma_mul_assoc(a2, b2, c0);
    lemma_mul_assoc(a3, b3, c0);
    lemma_dist_right_pppm(a0 * b1, a1 * b0, a2 * b3, a3 * b2, c1);
    lemma_mul_assoc(a0, b1, c1);
    lemma_mul_assoc(a1, b0, c1);
    lemma_mul_assoc(a2, b3, c1);
    lemma_mul_assoc(a3, b2, c1);
    lemma_dist_right_pmpp(a0 * b2, a1 * b3, a2 * b0, a3 * b1, c2);
    lemma_mul_assoc(a0, b2, c2);
    lemma_mul_assoc(a1, b3, c2);
    lemma_mul_assoc(a2, b0, c2);
    lemma_mul_assoc(a3, b1, c2);
    lemma_dist_right_ppmp(a0 * b3, a1 * b2, a2 * b1, a3 * b0, c3);
    lemma_mul_assoc(a0, b3, c3);
    lemma_mul_assoc(a1, b2, c3);
    lemma_mul_assoc(a2, b1, c3);
    lemma_mul_assoc(a3, b0, c3);
    lemma_dist_left_pmmm(a0, b0 * c0, b1 * c1, b2 * c2, b3 * c3);
    lemma_dist_left_pppm(a1, b0 * c1, b1 * c0, b2 * c3, b3 * c2);
    lemma_dist_left_pmpp(a2, b0 * c2, b1 * c3, b2 * c0, b3 * c1);
    lemma_dist_left_ppmp(a3, b0 * c3, b1 * c2, b2 * c1, b3 * c0);
}

/// The `x` component of the two ways to bracket a product of three
/// quaternions.
proof fn lemma_assoc_x(a0: real, a1: real, a2: real, a3: real, b0: real, b1: real, b2: real, b3:
    real, c0: real, c1: real, c2: real, c3: real)
    ensures
        (a0 * b0 - a1 * b1 - a2 * b2 - a3 * b3) * c1 + (a0 * b1 + a1 * b0 + a2 * b3 - a3 * b2) * c0
            + (a0 * b2 - a1 * b3 + a2 * b0 + a3 * b1) * c3 - (a0 * b3 + a1 * b2 - a2 * b1 + a3 * b0)
            * c2
            == a0 * (b0 * c1 + b1 * c0 + b2 * c3 - b3 * c2) + a1 * (b0 * c0 - b1 * c1 - b2 * c2 - b3
                * c3) + a2 * (b0 * c3 + b1 * c2 - b2 * c1 + b3 * c0) - a3 * (b0 * c2 - b1 * c3 + b2
                * c0 + b3 * c1),
{
    lemma_dist_right_pmmm(a0 * b0, a1 * b1, a2 * b2, a3 * b3, c1);
    lemma_mul_assoc(a0, b0, c1);
    lemma_mul_assoc(a1, b1, c1);
    lemma_mul_assoc(a2, b2, c1);
    lemma_mul_assoc(a3, b3, c1);
    lemma_dist_right_pppm(a0 * b1, a1 * b0, a2 * b3, a3 * b2, c0);
    lemma_mul_assoc(a0, b1, c0);
    lemma_mul_assoc(a1, b0, c0);
    lemma_mul_assoc(a2, b3, c0);
    lemma_mul_assoc(a3, b2, c0);
    lemma_dist_right_pmpp(a0 * b2, a1 * b3, a2 * b0, a3 * b1, c3);
    lemma_mul_assoc(a0, b2, c3);
    lemma_mul_assoc(a1, b3, c3);
    lemma_mul_assoc(a2, b0, c3);
    lemma_mul_assoc(a3, b1, c3);
    lemma_dist_right_ppmp(a0 * b3, a1 * b2, a2 * b1, a3 * b0, c2);
    lemma_mul_assoc(a0, b3, c2);
    lemma_mul_assoc(a1, b2, c2);
    lemma_mul_assoc(a2, b1, c2);
    lemma_mul_assoc(a3, b0, c2);
    lemma_dist_left_pppm(a0, b0 * c1, b1 * c0, b2 * c3, b3 * c2);
    lemma_dist_left_pmmm(a1, b0 * c0, b1 * c1, b2 * c2, b3 * c3);
    lemma_dist_left_ppmp(a2, b0 * c3, b1 * c2, b2 * c1, b3 * c0);
    lemma_dist_left_pmpp(a3, b0 * c2, b1 * c3, b2 * c0, b3 * c1);
}

/// The `y` component of the two ways to bracket a product of three
/// quaternions.
proof fn lemma_assoc_y(a0: real, a1: real, a2: real, a3: real, b0: real, b1: real, b2: real, b3:
    real, c0: real, c1: real, c2: real, c3: real)
    ensures
        (a0 * b0 - a1 * b1 - a2 * b2 - a3 * b3) * c2 - (a0 * b1 + a1 * b0 + a2 * b3 - a3 * b2) * c3
            + (a0 * b2 - a1 * b3 + a2 * b0 + a3 * b1) * c0 + (a0 * b3 + a1 * b2 - a2 * b1 + a3 * b0)
            * c1
            == a0 * (b0 * c2 - b1 * c3 + b2 * c0 + b3 * c1) - a1 * (b0 * c3 + b1 * c2 - b2 * c1 + b3
                * c0) + a2 * (b0 * c0 - b1 * c1 - b2 * c2 - b3 * c3) + a3 * (b0 * c1 + b1 * c0 + b2
                * c3 - b3 * c2),
{
    lemma_dist_right_pmmm(a0 * b0, a1 * b1, a2 * b2, a3 * b3, c2);
    lemma_mul_assoc(a0, b0, c2);
    lemma_mul_assoc(a1, b1, c2);
    lemma_mul_assoc(a2, b2, c2);
    lemma_mul_assoc(a3, b3, c2);
    lemma_dist_right_pppm(a0 * b1, a1 * b0, a2 * b3, a3 * b2, c3);
    lemma_mul_assoc(a0, b1, c3);
    lemma_mul_assoc(a1, b0, c3);
    lemma_mul_assoc(a2, b3, c3);
    lemma_mul_assoc(a3, b2, c3);
    lemma_dist_right_pmpp(a0 * b2, a1 * b3, a2 * b0, a3 * b1, c0);
    lemma_mul_assoc(a0, b2, c0);
    lemma_mul_assoc(a1, b3, c0);
    lemma_mul_assoc(a2, b0, c0);
    lemma_mul_assoc(a3, b1, c0);
    lemma_dist_right_ppmp(a0 * b3, a1 * b2, a2 * b1, a3 * b0, c1);
    lemma_mul_assoc(a0, b3, c1);
    lemma_mul_assoc(a1, b2, c1);
    lemma_mul_assoc(a2, b1, c1);
    lemma_mul_assoc(a3, b0, c1);
    lemma_dist_left_pmpp(a0, b0 * c2, b1 * c3, b2 * c0, b3 * c1);
    lemma_dist_left_ppmp(a1, b0 * c3, b1 * c2, b2 * c1, b3 * c0);
    lemma_dist_left_pmmm(a2, b0 * c0, b1 * c1, b2 * c2, b3 * c3);
    lemma_dist_left_pppm(a3, b0 * c1, b1 * c0, b2 * c3, b3 * c2);
}

/// The `z` component of the two ways to bracket a product of three
/// quaternions.
proof fn lemma_assoc_z(a0: real, a1: real, a2: real, a3: real, b0: real, b1: real, b2: real, b3:
    real, c0: real, c1: real, c2: real, c3: real)
    ensures
        (a0 * b0 - a1 * b1 - a2 * b2 - a3 * b3) * c3 + (a0 * b1 + a1 * b0 + a2 * b3 - a3 * b2) * c2
            - (a0 * b2 - a1 * b3 + a2 * b0 + a3 * b1) * c1 + (a0 * b3 + a1 * b2 - a2 * b1 + a3 * b0)
            * c0
            == a0 * (b0 * c3 + b1 * c2 - b2 * c1 + b3 * c0) + a1 * (b0 * c2 - b1 * c3 + b2 * c0 + b3
                * c1) - a2 * (b0 * c1 + b1 * c0 + b2 * c3 - b3 * c2) + a3 * (b0 * c0 - b1 * c1 - b2
                * c2 - b3 * c3),
{
    lemma_dist_right_pmmm(a0 * b0, a1 * b1, a2 * b2, a3 * b3, c3);
    lemma_mul_assoc(a0, b0, c3);
    lemma_mul_assoc(a1, b1, c3);
    lemma_mul_assoc(a2, b2, c3);
    lemma_mul_assoc(a3, b3, c3);
    lemma_dist_right_pppm(a0 * b1, a1 * b0, a2 * b3, a3 * b2, c2);
    lemma_mul_assoc(a0, b1, c2);
    lemma_mul_assoc(a1, b0, c2);
    lemma_mul_assoc(a2, b3, c2);
    lemma_mul_assoc(a3, b2, c2);
    lemma_dist_right_pmpp(a0 * b2, a1 * b3, a2 * b0, a3 * b1, c1);
    lemma_mul_assoc(a0, b2, c1);
    lemma_mul_assoc(a1, b3, c1);
    lemma_mul_assoc(a2, b0, c1);
    lemma_mul_assoc(a3, b1, c1);
    lemma_dist_right_ppmp(a0 * b3, a1 * b2, a2 * b1, a3 * b0, c0);
    lemma_mul_assoc(a0, b3, c0);
    lemma_mul_assoc(a1, b2, c0);
    lemma_mul_assoc(a2, b1, c0);
    lemma_mul_assoc(a3, b0, c0);
    lemma_dist_left_ppmp(a0, b0 * c3, b1 * c2, b2 * c1, b3 * c0);
    lemma_dist_left_pmpp(a1, b0 * c2, b1 * c3, b2 * c0, b3 * c1);
    lemma_dist_left_pppm(a2, b0 * c1, b1 * c0, b2 * c3, b3 * c2);
    lemma_dist_left_pmmm(a3, b0 * c0, b1 * c1, b2 * c2, b3 * c3);
}

/// Euler's four-square identity: the squared components of a Hamilton
/// product sum to the product of the two sums of squares.
proof fn lemma_four_square(a0: real, a1: real, a2: real, a3: real, b0: real, b1: real, b2: real, b3:
    real)
    ensures
        (a0 * b0 - a1 * b1 - a2 * b2 - a3 * b3) * (a0 * b0 - a1 * b1 - a2 * b2 - a3 * b3) + (a0 * b1
            + a1 * b0 + a2 * b3 - a3 * b2) * (a0 * b1 + a1 * b0 + a2 * b3 - a3 * b2) + (a0 * b2 - a1
            * b3 + a2 * b0 + a3 * b1) * (a0 * b2 - a1 * b3 + a2 * b0 + a3 * b1) + (a0 * b3 + a1 * b2
            - a2 * b1 + a3 * b0) * (a0 * b3 + a1 * b2 - a2 * b1 + a3 * b0)
            == (a0 * a0 + a1 * a1 + a2 * a2 + a3 * a3) * (b0 * b0 + b1 * b1 + b2 * b2 + b3 * b3),
{
    lemma_square_pmmm(a0 * b0, a1 * b1, a2 * b2, a3 * b3);
    lemma_regroup_ac_bd(a0, b0, a0, b0);
    lemma_regroup_ac_bd(a0, b0, a1, b1);
    lemma_regroup_ac_bd(a0, b0, a2, b2);
    lemma_regroup_ac_bd(a0, b0, a3, b3);
    lemma_regroup_ac_bd(a1, b1, a1, b1);
    lemma_regroup_ac_bd(a1, b1, a2, b2);
    lemma_regroup_ac_bd(a1, b1, a3, b3);
    lemma_regroup_ac_bd(a2, b2, a2, b2);
    lemma_regroup_ac_bd(a2, b2, a3, b3);
    lemma_regroup_ac_bd(a3, b3, a3, b3);
    lemma_square_pppm(a0 * b1, a1 * b0, a2 * b3, a3 * b2);
    lemma_regroup_ac_bd(a0, b1, a0, b1);
    lemma_regroup_ac_db(a0, b1, a1, b0);
    lemma_regroup_ac_bd(a0, b1, a2, b3);
    lemma_regroup_ac_bd(a0, b1, a3, b2);
    lemma_regroup_ac_bd(a1, b0, a1, b0);
    lemma_regroup_ac_bd(a1, b0, a2, b3);
    lemma_regroup_ac_bd(a1, b0, a3, b2);
    lemma_regroup_ac_bd(a2, b3, a2, b3);
    lemma_regroup_ac_db(a2, b3, a3, b2);
    lemma_regroup_ac_bd(a3, b2, a3, b2);
    lemma_square_pmpp(a0 * b2, a1 * b3, a2 * b0, a3 * b1);
    lemma_regroup_ac_bd(a0, b2, a0, b2);
    lemma_regroup_ac_bd(a0, b2, a1, b3);
    lemma_regroup_ac_db(a0, b2, a2, b0);
    lemma_regroup_ac_db(a0, b2, a3, b1);
    lemma_regroup_ac_bd(a1, b3, a1, b3);
    lemma_regroup_ac_db(a1, b3, a2, b0);
    lemma_regroup_ac_db(a1, b3, a3, b1);
    lemma_regroup_ac_bd(a2, b0, a2, b0);
    lemma_regroup_ac_bd(a2, b0, a3, b1);
    lemma_regroup_ac_bd(a3, b1, a3, b1);
    lemma_square_ppmp(a0 * b3, a1 * b2, a2 * b1, a3 * b0);
    lemma_regroup_ac_bd(a0, b3, a0, b3);
    lemma_regroup_ac_db(a0, b3, a1, b2);
    lemma_regroup_ac_db(a0, b3, a2, b1);
    lemma_regroup_ac_db(a0, b3, a3, b0);
    lemma_regroup_ac_bd(a1, b2, a1, b2);
    lemma_regroup_ac_db(a1, b2, a2, b1);
    lemma_regroup_ac_db(a1, b2, a3, b0);
    lemma_regroup_ac_bd(a2, b1, a2, b1);
    lemma_regroup_ac_db(a2, b1, a3, b0);
    lemma_regroup_ac_bd(a3, b0, a3, b0);
    lemma_dist_right_pppp(a0 * a0, a1 * a1, a2 * a2, a3 * a3, b0 * b0 + b1 * b1 + b2 * b2 + b3 *
        b3);
    lemma_dist_left_pppp(a0 * a0, b0 * b0, b1 * b1, b2 * b2, b3 * b3);
    lemma_dist_left_pppp(a1 * a1, b0 * b0, b1 * b1, b2 * b2, b3 * b3);
    lemma_dist_left_pppp(a2 * a2, b0 * b0, b1 * b1, b2 * b2, b3 * b3);
    lemma_dist_left_pppp(a3 * a3, b0 * b0, b1 * b1, b2 * b2, b3 * b3);
}

/// The Hamilton product is associative.
pub proof fn lemma_times_assoc(a: Quat<real>, b: Quat<real>, c: Quat<real>)
    ensures
        a.times(b).times(c) == a.times(b.times(c)),
{
    lemma_assoc_w(a.w, a.x, a.y, a.z, b.w, b.x, b.y, b.z, c.w, c.x, c.y, c.z);
    lemma_assoc_x(a.w, a.x, a.y, a.z, b.w, b.x, b.y, b.z, c.w, c.x, c.y, c.z);
    lemma_assoc_y(a.w, a.x, a.y, a.z, b.w, b.x, b.y, b.z, c.w, c.x, c.y, c.z);
    lemma_assoc_z(a.w, a.x, a.y, a.z, b.w, b.x, b.y, b.z, c.w, c.x, c.y, c.z);
}

/// The norm of a Hamilton product is the product of the norms.
pub proof fn lemma_times_norm(a: Quat<real>, b: Quat<real>)
    ensures
        a.times(b).norm_sq() == a.norm_sq() * b.norm_sq(),
{
    lemma_four_square(a.w, a.x, a.y, a.z, b.w, b.x, b.y, b.z);
}

/// The complex product is associative.
pub proof fn lemma_complex_times_assoc(a: Complex<real>, b: Complex<real>, c: Complex<real>)
    ensures
        a.times(b).times(c) == a.times(b.times(c)),
{
    lemma_assoc_w(a.w, a.x, 0real, 0real, b.w, b.x, 0real, 0real, c.w, c.x, 0real, 0real);
    lemma_assoc_x(a.w, a.x, 0real, 0real, b.w, b.x, 0real, 0real, c.w, c.x, 0real, 0real);
}

/// The norm of a complex product is the product of the norms.
pub proof fn lemma_complex_times_norm(a: Complex<real>, b: Complex<real>)
    ensures
        a.times(b).norm_sq() == a.norm_sq() * b.norm_sq(),
{
    lemma_four_square(a.w, a.x, 0real, 0real, b.w, b.x, 0real, 0real);
}

/// The complex number `1` is neutral for the complex product.
pub proof fn lemma_complex_times_one(c: Complex<real>)
    ensures
        Complex::<real>::one().times(c) == c,
        c.times(Complex::<real>::one()) == c,
        Complex::<real>::one().norm_sq() == 1real,
{
}

/// A complex number of norm 1 divided by the non-negative square root of its
/// squared norm is itself.
pub proof fn lemma_complex_scaled_is_self(s: Complex<real>, c: Complex<real>, n: real)
    requires
        s.is_scaled(c, n),
        n >= 0real,
        n * n == c.norm_sq(),
        c.norm_sq() == 1real,
    ensures
        s == c,
{
    lemma_sqrt_one(n);
}

/// The quaternion `1` is neutral for the Hamilton product.
pub proof fn lemma_times_one(q: Quat<real>)
    ensures
        Quat::<real>::one().times(q) == q,
        q.times(Quat::<real>::one()) == q,
        Quat::<real>::one().norm_sq() == 1real,
{
}

/// A number times 1 is the number.
pub proof fn lemma_times_unit(t: real, u: real)
    by (nonlinear_arith)
    requires
        u == 1real,
    ensures
        t * u == t,
        u * t == t,
{
}

/// A number times -1 is its negative.
pub proof fn lemma_times_minus_unit(t: real, u: real)
    by (nonlinear_arith)
    requires
        u == -1real,
    ensures
        t * u == -t,
        u * t == -t,
{
}

/// A number times 0 is 0.
pub proof fn lemma_times_zero(t: real, u: real)
    by (nonlinear_arith)
    requires
        u == 0real,
    ensures
        t * u == 0real,
        u * t == 0real,
{
}

/// Equal factors give equal products.
pub proof fn lemma_same_product(a: real, b: real, c: real, d: real)
    by (nonlinear_arith)
    requires
        a == c,
        b == d,
    ensures
        a * b == c * d,
{
}

/// `(s·k)·c = (c·k)·s`.
pub proof fn lemma_cross_swap(s: real, c: real, k: real)
    by (nonlinear_arith)
    ensures
        (s * k) * c == (c * k) * s,
{
}

/// `(c·k)·c + (s·k)·s = k·(c·c + s·s)`.
pub proof fn lemma_dot_factor(s: real, c: real, k: real)
    by (nonlinear_arith)
    ensures
        (c * k) * c + (s * k) * s == k * (c * c + s * s),
{
}

/// A coordinate of a point of the unit circle lies between -1 and 1.
pub proof fn lemma_circle_bound(c: real, s: real)
    by (nonlinear_arith)
    requires
        c * c + s * s == 1real,
    ensures
        -1real <= s <= 1real,
{
}

/// `(s·p)·(q·n) = (s·q)·(p·n)`.
pub proof fn lemma_cross_scaled(s: real, p: real, q: real, n: real)
    by (nonlinear_arith)
    ensures
        (s * p) * (q * n) == (s * q) * (p * n),
{
}

/// `(s·p)·(s·p) = (s·s)·(p·p)`.
pub proof fn lemma_square_of_product(s: real, p: real)
    by (nonlinear_arith)
    ensures
        (s * p) * (s * p) == (s * s) * (p * p),
{
}

/// `s·a + s·b + s·c = s·(a + b + c)`.
pub proof fn lemma_factor_three(s: real, a: real, b: real, c: real)
    by (nonlinear_arith)
    ensures
        s * a + s * b + s * c == s * (a + b + c),
{
}

/// The squares of real numbers are not negative, and positive away from 0.
pub proof fn lemma_square_positive(a: real)
    by (nonlinear_arith)
    ensures
        a * a >= 0real,
        a != 0real ==> a * a > 0real,
{
}

/// A factor that multiplies a non-zero number onto itself is 1.
proof fn lemma_cancel(s: real, n: real)
    by (nonlinear_arith)
    requires
        s * n == n,
        n != 0real,
    ensures
        s == 1real,
{
}

/// The only non-negative square root of 1 is 1.
pub proof fn lemma_sqrt_one(r: real)
    by (nonlinear_arith)
    requires
        r >= 0real,
        r * r == 1real,
    ensures
        r == 1real,
{
    assert((r - 1real) * (r + 1real) == 0real);
}

/// A square root of a positive number is not zero.
pub proof fn lemma_root_nonzero(r: real, a: real)
    by (nonlinear_arith)
    requires
        r * r == a,
        a > 0real,
    ensures
        r != 0real,
{
}

/// A complex number with a non-zero component has a positive squared norm.
pub proof fn lemma_complex_norm_positive(c: Complex<real>)
    requires
        c.w != 0real || c.x != 0real,
    ensures
        c.norm_sq() > 0real,
{
    lemma_square_positive(c.w);
    lemma_square_positive(c.x);
}

/// A vector with a non-zero component has a positive squared length.
pub proof fn lemma_vector_norm_positive(v: Vector3<real>)
    requires
        v.x != 0real || v.y != 0real || v.z != 0real,
    ensures
        v.norm_sq() > 0real,
{
    lemma_square_positive(v.x);
    lemma_square_positive(v.y);
    lemma_square_positive(v.z);
}

/// A complex number divided by a square root of its positive squared norm
/// has norm 1.
pub proof fn lemma_complex_scaled_unit(s: Complex<real>, c: Complex<real>, n: real)
    requires
        s.is_scaled(c, n),
        n * n == c.norm_sq(),
        c.norm_sq() > 0real,
    ensures
        s.norm_sq() == 1real,
{
    let m = n * n;
    lemma_regroup_ac_bd(s.w, n, s.w, n);
    lemma_regroup_ac_bd(s.x, n, s.x, n);
    lemma_dist_right_pppp(s.w * s.w, s.x * s.x, 0real, 0real, m);
    assert(0real * m == 0real);
    lemma_cancel(s.w * s.w + s.x * s.x + 0real + 0real, m);
}

/// A vector divided by a square root of its positive squared length has
/// length 1.
pub proof fn lemma_vector_scaled_unit(s: Vector3<real>, v: Vector3<real>, n: real)
    requires
        s.is_scaled(v, n),
        n * n == v.norm_sq(),
        v.norm_sq() > 0real,
    ensures
        s.norm_sq() == 1real,
{
    let m = n * n;
    lemma_regroup_ac_bd(s.x, n, s.x, n);
    lemma_regroup_ac_bd(s.y, n, s.y, n);
    lemma_regroup_ac_bd(s.z, n, s.z, n);
    lemma_dist_right_pppp(s.x * s.x, s.y * s.y, s.z * s.z, 0real, m);
    assert(0real * m == 0real);
    lemma_cancel(s.x * s.x + s.y * s.y + s.z * s.z + 0real, m);
}

/// A quaternion divided by a square root of its positive squared norm has
/// norm 1.
pub proof fn lemma_quat_scaled_unit(s: Quat<real>, q: Quat<real>, n: real)
    requires
        s.is_scaled(q, n),
        n * n == q.norm_sq(),
        q.norm_sq() > 0real,
    ensures
        s.norm_sq() == 1real,
{
    let m = n * n;
    lemma_regroup_ac_bd(s.w, n, s.w, n);
    lemma_regroup_ac_bd(s.x, n, s.x, n);
    lemma_regroup_ac_bd(s.y, n, s.y, n);
    lemma_regroup_ac_bd(s.z, n, s.z, n);
    lemma_dist_right_pppp(s.w * s.w, s.x * s.x, s.y * s.y, s.z * s.z, m);
    lemma_cancel(s.w * s.w + s.x * s.x + s.y * s.y + s.z * s.z, m);
}

/// A quaternion of norm 1 divided by the non-negative square root of its
/// squared norm is itself.
pub proof fn lemma_quat_scaled_is_self(s: Quat<real>, q: Quat<real>, n: real)
    requires
        s.is_scaled(q, n),
        n >= 0real,
        n * n == q.norm_sq(),
        q.norm_sq() == 1real,
    ensures
        s == q,
{
    lemma_sqrt_one(n);
}

/// `(1 - p·2 - q·2)·a`, term by term.
proof fn lemma_row_diag_split(p: real, q: real, a: real)
    by (nonlinear_arith)
    ensures
        (1real - p * 2real - q * 2real) * a == a - 2real * (p * a) - 2real * (q * a),
{
}

/// `(1 - (p + q)·2)·a`, term by term.
proof fn lemma_row_diag_joint(p: real, q: real, a: real)
    by (nonlinear_arith)
    ensures
        (1real - (p + q) * 2real) * a == a - 2real * (p * a) - 2real * (q * a),
{
}

/// `(p·2 - q·2)·a`, term by term.
proof fn lemma_row_split_minus(p: real, q: real, a: real)
    by (nonlinear_arith)
    ensures
        (p * 2real - q * 2real) * a == 2real * (p * a) - 2real * (q * a),
{
}

/// `(p + q)·2·a`, term by term.
proof fn lemma_row_plus(p: real, q: real, a: real)
    by (nonlinear_arith)
    ensures
        (p + q) * 2real * a == 2real * (p * a) + 2real * (q * a),
{
}

/// `(p - q)·2·a`, term by term.
proof fn lemma_row_minus(p: real, q: real, a: real)
    by (nonlinear_arith)
    ensures
        (p - q) * 2real * a == 2real * (p * a) - 2real * (q * a),
{
}

/// From `p·u = q·v`: `(p·q)·u = (q·q)·v`.
proof fn lemma_along_second(p: real, q: real, u: real, v: real)
    by (nonlinear_arith)
    requires
        p * u == q * v,
    ensures
        (p * q) * u == (q * q) * v,
{
    assert((p * q) * u == q * (p * u));
    assert((q * q) * v == q * (q * v));
}

/// From `q·v = p·u`: `(p·q)·v = (p·p)·u`.
proof fn lemma_along_first(p: real, q: real, u: real, v: real)
    by (nonlinear_arith)
    requires
        q * v == p * u,
    ensures
        (p * q) * v == (p * p) * u,
{
    assert((p * q) * v == p * (q * v));
    assert((p * p) * u == p * (p * u));
}

/// From `p·u = q·v`: `(w·q)·v = (w·p)·u`.
proof fn lemma_along_scalar(w: real, p: real, q: real, u: real, v: real)
    by (nonlinear_arith)
    requires
        p * u == q * v,
    ensures
        (w * q) * v == (w * p) * u,
{
    assert((w * q) * v == w * (q * v));
    assert((w * p) * u == w * (p * u));
}

/// A rotation fixes every vector along its axis: a quaternion whose vector
/// part lies along `v` maps `v` to itself.
pub proof fn lemma_rotate_fixes_axis(q: Quat<real>, v: Vector3<real>)
    requires
        q.is_along(v),
    ensures
        q.rotate(v) == v,
{
    let Quat { w, x, y, z } = q;
    let Vector3 { x: a, y: b, z: c } = v;
    lemma_row_diag_split(y * y, z * z, a);
    lemma_row_split_minus(x * y, w * z, b);
    lemma_row_plus(x * z, w * y, c);
    lemma_along_second(x, y, b, a);
    lemma_along_second(x, z, c, a);
    lemma_along_scalar(w, y, z, c, b);
    assert(q.rotate(v).x == a);
    lemma_row_plus(x * y, w * z, a);
    lemma_row_diag_joint(x * x, z * z, b);
    lemma_row_minus(y * z, w * x, c);
    lemma_along_first(x, y, b, a);
    lemma_along_second(y, z, c, b);
    lemma_along_scalar(w, x, z, c, a);
    assert(q.rotate(v).y == b);
    lemma_row_minus(x * z, w * y, a);
    lemma_row_plus(y * z, w * x, b);
    lemma_row_diag_joint(x * x, y * y, c);
    lemma_along_first(x, z, c, a);
    lemma_along_first(y, z, c, b);
    lemma_along_scalar(w, x, y, b, a);
    assert(q.rotate(v).z == c);
}

} // verus!
