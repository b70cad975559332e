//! The polynomial identities behind the Euler angles of a rotation.
//!
//! A rotation with Euler angles is a product of three quaternions, one about
//! each coordinate axis. Written in the cosines and sines of the three half
//! angles, the expressions that its roll, pitch and yaw are read from reduce
//! to the cosines and sines of the whole angles. The identities are proved by
//! expanding both sides into monomials, one small step at a time.

use crate::linalg::Quat;
use vstd::prelude::*;

verus! {

/// The product `q_yaw · q_pitch · q_roll` of the rotations about z, y and x,
/// in the cosines `c*` and sines `s*` of the half angles.
pub open spec fn euler_quat(cr: real, sr: real, cp: real, sp: real, cy: real, sy: real) -> Quat<
    real,
> {
    Quat {
        w: cy * cp * cr + sy * sp * sr,
        x: cy * cp * sr - sy * sp * cr,
        y: cy * sp * cr + sy * cp * sr,
        z: sy * cp * cr - cy * sp * sr,
    }
}

/// `e` times a sum, term by term.
proof fn lemma_expand_1(e: real, f: real, n0: real, n1: real)
    by (nonlinear_arith)
    requires
        f == n0 - n1,
    ensures
        e * f == e * n0 - (e * n1),
{
}

/// A sum times `n`, term by term.
proof fn lemma_expand_2(e: real, n: real, m0: real, m1: real)
    by (nonlinear_arith)
    requires
        e == m0 + m1,
    ensures
        e * n == m0 * n + (m1 * n),
{
}

/// The factors of a product, in order.
proof fn lemma_reorder_1(v0: real, v1: real, v2: real)
    by (nonlinear_arith)
    ensures
        (v0 * v1) * (v0 * v2) == v0 * v0 * v1 * v2,
{
}

/// The factors of a product, in order.
proof fn lemma_reorder_2(v0: real, v1: real, v2: real)
    by (nonlinear_arith)
    ensures
        (v0 * v1) * (v2 * v1) == v2 * v0 * v1 * v1,
{
}

/// The factors of a product, in order.
proof fn lemma_reorder_3(v0: real, v1: real, v2: real)
    by (nonlinear_arith)
    ensures
        (v0 * v1) * (v2 * v1) == v0 * v2 * v1 * v1,
{
}

/// The factors of a product, in order.
proof fn lemma_reorder_4(v0: real, v1: real, v2: real)
    by (nonlinear_arith)
    ensures
        (v0 * v1) * (v0 * v2) == v0 * v0 * v2 * v1,
{
}

/// The factors of a product, in order.
proof fn lemma_reorder_5(v0: real, v1: real)
    by (nonlinear_arith)
    ensures
        (v0) * (v1) == v1 * v0,
{
}

/// `e` times a sum, term by term.
proof fn lemma_expand_3(e: real, f: real, n0: real, n1: real)
    by (nonlinear_arith)
    requires
        f == -n0 + n1,
    ensures
        e * f == -(e * n0) + (e * n1),
{
}

/// The factors of a product, in order.
proof fn lemma_reorder_6(v0: real, v1: real, v2: real)
    by (nonlinear_arith)
    ensures
        (v0 * v1) * (v1 * v2) == v0 * v1 * v1 * v2,
{
}

/// The factors of a product, in order.
proof fn lemma_reorder_7(v0: real, v1: real, v2: real)
    by (nonlinear_arith)
    ensures
        (v0 * v1) * (v2 * v0) == v2 * v0 * v0 * v1,
{
}

/// `e` times a sum, term by term.
proof fn lemma_expand_4(e: real, f: real, n0: real, n1: real, n2: real, n3: real)
    by (nonlinear_arith)
    requires
        f == n0 - n1 - n2 + n3,
    ensures
        e * f == e * n0 - (e * n1) - (e * n2) + (e * n3),
{
}

/// The factors of a product, in order.
proof fn lemma_reorder_8(v0: real, v1: real, v2: real)
    by (nonlinear_arith)
    ensures
        (v0 * v1) * (v2 * v2) == v2 * v2 * v0 * v1,
{
}

/// The factors of a product, in order.
proof fn lemma_reorder_9(v0: real, v1: real, v2: real)
    by (nonlinear_arith)
    ensures
        (v0 * v1) * (v2 * v2) == v0 * v2 * v2 * v1,
{
}

/// A sum times `n`, term by term.
proof fn lemma_expand_5(e: real, n: real, m0: real, m1: real)
    by (nonlinear_arith)
    requires
        e == -m0 + m1,
    ensures
        e * n == -(m0 * n) + (m1 * n),
{
}

/// The factors of a product, in order.
proof fn lemma_reorder_10(v0: real, v1: real, v2: real)
    by (nonlinear_arith)
    ensures
        (v0 * v1) * (v2 * v2) == v0 * v1 * v2 * v2,
{
}

/// A sum times `n`, term by term.
proof fn lemma_expand_6(e: real, n: real, m0: real, m1: real)
    by (nonlinear_arith)
    requires
        e == m0 - m1,
    ensures
        e * n == m0 * n - (m1 * n),
{
}

/// The factors of a product, in order.
proof fn lemma_reorder_11(v0: real, v1: real)
    by (nonlinear_arith)
    ensures
        (v0 * v1) * (v0 * v1) == v0 * v0 * v1 * v1,
{
}

/// The factors of a product, in order.
proof fn lemma_reorder_12(v0: real, v1: real, v2: real, v3: real)
    by (nonlinear_arith)
    ensures
        (v0 * v1) * (v2 * v3) == v2 * v0 * v1 * v3,
{
}

/// The factors of a product, in order.
proof fn lemma_reorder_13(v0: real, v1: real, v2: real, v3: real)
    by (nonlinear_arith)
    ensures
        (v0 * v1) * (v2 * v3) == v0 * v2 * v3 * v1,
{
}

/// `e` times a sum, term by term.
proof fn lemma_expand_7(e: real, f: real, n0: real, n1: real)
    by (nonlinear_arith)
    requires
        f == n0 + n1,
    ensures
        e * f == e * n0 + (e * n1),
{
}

/// The factors of a product, in order.
proof fn lemma_reorder_14(v0: real, v1: real, v2: real, v3: real)
    by (nonlinear_arith)
    ensures
        (v0 * v1) * (v2 * v3) == v2 * v3 * v0 * v1,
{
}

/// The factors of a product, in order.
proof fn lemma_reorder_15(v0: real, v1: real, v2: real, v3: real)
    by (nonlinear_arith)
    ensures
        (v0 * v1) * (v2 * v3) == v0 * v1 * v2 * v3,
{
}

/// The factors of a product, in order.
proof fn lemma_reorder_16(v0: real, v1: real)
    by (nonlinear_arith)
    ensures
        (v0 * v0) * (v1 * v1) == v1 * v1 * v0 * v0,
{
}

/// The factors of a product, in order.
proof fn lemma_reorder_17(v0: real, v1: real, v2: real, v3: real)
    by (nonlinear_arith)
    ensures
        (v0 * v1) * (v2 * v3) == v2 * v0 * v3 * v1,
{
}

/// The factors of a product, in order.
proof fn lemma_reorder_18(v0: real, v1: real, v2: real, v3: real)
    by (nonlinear_arith)
    ensures
        (v0 * v1) * (v2 * v3) == v0 * v2 * v1 * v3,
{
}

/// The factors of a product, in order.
proof fn lemma_reorder_19(v0: real, v1: real)
    by (nonlinear_arith)
    ensures
        (v0 * v0) * (v1 * v1) == v0 * v0 * v1 * v1,
{
}

/// `e` times a sum, term by term.
proof fn lemma_expand_8(e: real, f: real, n0: real)
    by (nonlinear_arith)
    requires
        f == n0,
    ensures
        e * f == e * n0,
{
}

/// A sum times `n`, term by term.
proof fn lemma_expand_9(e: real, n: real, m0: real)
    by (nonlinear_arith)
    requires
        e == m0,
    ensures
        e * n == m0 * n,
{
}

/// `wx + yz` of the last of three factors, expanded.
pub proof fn lemma_roll_sine(a: real, b: real, c: real, d: real, cr: real, sr: real, w: real, x:
    real, y: real, z: real)
    requires
        w == a * cr + b * sr,
        x == a * sr - b * cr,
        y == c * cr + d * sr,
        z == d * cr - c * sr,
    ensures
        w * x + y * z == cr * sr * (a * a + d * d - (b * b + c * c)) + (c * d - a * b) * (cr * cr -
            sr * sr),
{
    lemma_expand_1(w, x, a * sr, b * cr);
    lemma_expand_2(w, a * sr, a * cr, b * sr);
    lemma_reorder_1(a, cr, sr);
    lemma_reorder_2(b, sr, a);
    lemma_expand_2(w, b * cr, a * cr, b * sr);
    lemma_reorder_3(a, cr, b);
    lemma_reorder_4(b, sr, cr);
    lemma_reorder_5(d, cr);
    lemma_expand_3(y, z, c * sr, cr * d);
    lemma_expand_2(y, c * sr, c * cr, d * sr);
    lemma_reorder_1(c, cr, sr);
    lemma_reorder_2(d, sr, c);
    lemma_expand_2(y, cr * d, c * cr, d * sr);
    lemma_reorder_6(c, cr, d);
    lemma_reorder_7(d, sr, cr);
    lemma_expand_4(cr * sr, a * a + d * d - (b * b + c * c), a * a, b * b, c * c, d * d);
    lemma_reorder_8(cr, sr, a);
    lemma_reorder_8(cr, sr, b);
    lemma_reorder_8(cr, sr, c);
    lemma_reorder_9(cr, sr, d);
    lemma_expand_1(c * d - a * b, cr * cr - sr * sr, cr * cr, sr * sr);
    lemma_expand_5(c * d - a * b, cr * cr, a * b, c * d);
    lemma_reorder_10(a, b, cr);
    lemma_reorder_9(c, d, cr);
    lemma_expand_5(c * d - a * b, sr * sr, a * b, c * d);
    lemma_reorder_10(a, b, sr);
    lemma_reorder_10(c, d, sr);
}

/// `xx + yy` of the last of three factors, expanded.
pub proof fn lemma_roll_cosine(a: real, b: real, c: real, d: real, cr: real, sr: real, w: real, x:
    real, y: real, z: real)
    requires
        w == a * cr + b * sr,
        x == a * sr - b * cr,
        y == c * cr + d * sr,
        z == d * cr - c * sr,
    ensures
        x * x + y * y == sr * sr * (a * a + d * d) + cr * cr * (b * b + c * c) + 2real * (cr * sr *
            (c * d - a * b)),
{
    lemma_expand_1(x, x, a * sr, b * cr);
    lemma_expand_6(x, a * sr, a * sr, b * cr);
    lemma_reorder_11(a, sr);
    lemma_reorder_12(b, cr, a, sr);
    lemma_expand_6(x, b * cr, a * sr, b * cr);
    lemma_reorder_13(a, sr, b, cr);
    lemma_reorder_11(b, cr);
    lemma_expand_7(y, y, c * cr, d * sr);
    lemma_expand_2(y, c * cr, c * cr, d * sr);
    lemma_reorder_11(c, cr);
    lemma_reorder_14(d, sr, c, cr);
    lemma_expand_2(y, d * sr, c * cr, d * sr);
    lemma_reorder_15(c, cr, d, sr);
    lemma_reorder_11(d, sr);
    lemma_expand_7(sr * sr, a * a + d * d, a * a, d * d);
    lemma_reorder_16(sr, a);
    lemma_reorder_16(sr, d);
    lemma_expand_7(cr * cr, b * b + c * c, b * b, c * c);
    lemma_reorder_16(cr, b);
    lemma_reorder_16(cr, c);
    lemma_expand_3(cr * sr, c * d - a * b, a * b, c * d);
    lemma_reorder_14(cr, sr, a, b);
    lemma_reorder_17(cr, sr, c, d);
}

/// `wy - xz` of the last of three factors, expanded.
pub proof fn lemma_pitch_sine(a: real, b: real, c: real, d: real, cr: real, sr: real, w: real, x:
    real, y: real, z: real)
    requires
        w == a * cr + b * sr,
        x == a * sr - b * cr,
        y == c * cr + d * sr,
        z == d * cr - c * sr,
    ensures
        w * y - x * z == (a * c + b * d) * (cr * cr + sr * sr),
{
    lemma_expand_7(w, y, c * cr, d * sr);
    lemma_expand_2(w, c * cr, a * cr, b * sr);
    lemma_reorder_3(a, cr, c);
    lemma_reorder_13(b, sr, c, cr);
    lemma_expand_2(w, d * sr, a * cr, b * sr);
    lemma_reorder_15(a, cr, d, sr);
    lemma_reorder_3(b, sr, d);
    lemma_reorder_5(d, cr);
    lemma_expand_3(x, z, c * sr, cr * d);
    lemma_expand_6(x, c * sr, a * sr, b * cr);
    lemma_reorder_3(a, sr, c);
    lemma_reorder_18(b, cr, c, sr);
    lemma_expand_6(x, cr * d, a * sr, b * cr);
    lemma_reorder_13(a, sr, cr, d);
    lemma_reorder_6(b, cr, d);
    lemma_expand_7(a * c + b * d, cr * cr + sr * sr, cr * cr, sr * sr);
    lemma_expand_2(a * c + b * d, cr * cr, a * c, b * d);
    lemma_reorder_10(a, c, cr);
    lemma_reorder_9(b, d, cr);
    lemma_expand_2(a * c + b * d, sr * sr, a * c, b * d);
    lemma_reorder_10(a, c, sr);
    lemma_reorder_10(b, d, sr);
}

/// `wz + xy` of the last of three factors, expanded.
pub proof fn lemma_yaw_sine(a: real, b: real, c: real, d: real, cr: real, sr: real, w: real, x:
    real, y: real, z: real)
    requires
        w == a * cr + b * sr,
        x == a * sr - b * cr,
        y == c * cr + d * sr,
        z == d * cr - c * sr,
    ensures
        w * z + x * y == (a * d - b * c) * (cr * cr + sr * sr),
{
    lemma_reorder_5(d, cr);
    lemma_expand_3(w, z, c * sr, cr * d);
    lemma_expand_2(w, c * sr, a * cr, b * sr);
    lemma_reorder_18(a, cr, c, sr);
    lemma_reorder_3(b, sr, c);
    lemma_expand_2(w, cr * d, a * cr, b * sr);
    lemma_reorder_6(a, cr, d);
    lemma_reorder_13(b, sr, cr, d);
    lemma_expand_7(x, y, c * cr, d * sr);
    lemma_expand_6(x, c * cr, a * sr, b * cr);
    lemma_reorder_13(a, sr, c, cr);
    lemma_reorder_3(b, cr, c);
    lemma_expand_6(x, d * sr, a * sr, b * cr);
    lemma_reorder_3(a, sr, d);
    lemma_reorder_15(b, cr, d, sr);
    lemma_expand_7(a * d - b * c, cr * cr + sr * sr, cr * cr, sr * sr);
    lemma_expand_6(a * d - b * c, cr * cr, a * d, b * c);
    lemma_reorder_9(a, d, cr);
    lemma_reorder_10(b, c, cr);
    lemma_expand_6(a * d - b * c, sr * sr, a * d, b * c);
    lemma_reorder_10(a, d, sr);
    lemma_reorder_10(b, c, sr);
}

/// `yy + zz` of the last of three factors, expanded.
pub proof fn lemma_yaw_cosine(a: real, b: real, c: real, d: real, cr: real, sr: real, w: real, x:
    real, y: real, z: real)
    requires
        w == a * cr + b * sr,
        x == a * sr - b * cr,
        y == c * cr + d * sr,
        z == d * cr - c * sr,
    ensures
        y * y + z * z == (c * c + d * d) * (cr * cr + sr * sr),
{
    lemma_expand_7(y, y, c * cr, d * sr);
    lemma_expand_2(y, c * cr, c * cr, d * sr);
    lemma_reorder_11(c, cr);
    lemma_reorder_14(d, sr, c, cr);
    lemma_expand_2(y, d * sr, c * cr, d * sr);
    lemma_reorder_15(c, cr, d, sr);
    lemma_reorder_11(d, sr);
    lemma_reorder_5(d, cr);
    lemma_expand_3(z, z, c * sr, cr * d);
    lemma_expand_5(z, c * sr, c * sr, cr * d);
    lemma_reorder_11(c, sr);
    lemma_reorder_12(cr, d, c, sr);
    lemma_expand_5(z, cr * d, c * sr, cr * d);
    lemma_reorder_13(c, sr, cr, d);
    lemma_reorder_11(cr, d);
    lemma_expand_7(c * c + d * d, cr * cr + sr * sr, cr * cr, sr * sr);
    lemma_expand_2(c * c + d * d, cr * cr, c * c, d * d);
    lemma_reorder_19(c, cr);
    lemma_reorder_16(d, cr);
    lemma_expand_2(c * c + d * d, sr * sr, c * c, d * d);
    lemma_reorder_19(c, sr);
    lemma_reorder_19(d, sr);
}

/// The two cross products of the first two factors agree.
pub proof fn lemma_first_cross(cp: real, sp: real, cy: real, sy: real, a: real, b: real, c: real, d:
    real)
    requires
        a == cy * cp,
        b == sy * sp,
        c == cy * sp,
        d == sy * cp,
    ensures
        a * b == c * d,
{
    lemma_reorder_5(cy, cp);
    lemma_reorder_5(sy, sp);
    lemma_expand_8(a, b, sp * sy);
    lemma_expand_9(a, sp * sy, cp * cy);
    lemma_reorder_15(cp, cy, sp, sy);
    lemma_reorder_5(sy, cp);
    lemma_expand_8(c, d, cp * sy);
    lemma_expand_9(c, cp * sy, cy * sp);
    lemma_reorder_12(cy, sp, cp, sy);
}

/// `aa + dd` of the first two factors.
pub proof fn lemma_first_ad(cp: real, sp: real, cy: real, sy: real, a: real, b: real, c: real, d:
    real)
    requires
        a == cy * cp,
        b == sy * sp,
        c == cy * sp,
        d == sy * cp,
    ensures
        a * a + d * d == cp * cp * (cy * cy + sy * sy),
{
    lemma_reorder_5(cy, cp);
    lemma_expand_8(a, a, cp * cy);
    lemma_expand_9(a, cp * cy, cp * cy);
    lemma_reorder_11(cp, cy);
    lemma_reorder_5(sy, cp);
    lemma_expand_8(d, d, cp * sy);
    lemma_expand_9(d, cp * sy, cp * sy);
    lemma_reorder_11(cp, sy);
    lemma_expand_7(cp * cp, cy * cy + sy * sy, cy * cy, sy * sy);
    lemma_reorder_19(cp, cy);
    lemma_reorder_19(cp, sy);
}

/// `bb + cc` of the first two factors.
pub proof fn lemma_first_bc(cp: real, sp: real, cy: real, sy: real, a: real, b: real, c: real, d:
    real)
    requires
        a == cy * cp,
        b == sy * sp,
        c == cy * sp,
        d == sy * cp,
    ensures
        b * b + c * c == sp * sp * (cy * cy + sy * sy),
{
    lemma_reorder_5(sy, sp);
    lemma_expand_8(b, b, sp * sy);
    lemma_expand_9(b, sp * sy, sp * sy);
    lemma_reorder_11(sp, sy);
    lemma_expand_8(c, c, cy * sp);
    lemma_expand_9(c, cy * sp, cy * sp);
    lemma_reorder_11(cy, sp);
    lemma_expand_7(sp * sp, cy * cy + sy * sy, cy * cy, sy * sy);
    lemma_reorder_16(sp, cy);
    lemma_reorder_19(sp, sy);
}

/// `ac + bd` of the first two factors.
pub proof fn lemma_first_ac(cp: real, sp: real, cy: real, sy: real, a: real, b: real, c: real, d:
    real)
    requires
        a == cy * cp,
        b == sy * sp,
        c == cy * sp,
        d == sy * cp,
    ensures
        a * c + b * d == cp * sp * (cy * cy + sy * sy),
{
    lemma_reorder_5(cy, cp);
    lemma_expand_8(a, c, cy * sp);
    lemma_expand_9(a, cy * sp, cp * cy);
    lemma_reorder_6(cp, cy, sp);
    lemma_reorder_5(sy, sp);
    lemma_reorder_5(sy, cp);
    lemma_expand_8(b, d, cp * sy);
    lemma_expand_9(b, cp * sy, sp * sy);
    lemma_reorder_2(sp, sy, cp);
    lemma_expand_7(cp * sp, cy * cy + sy * sy, cy * cy, sy * sy);
    lemma_reorder_9(cp, sp, cy);
    lemma_reorder_10(cp, sp, sy);
}

/// `ad - bc` of the first two factors.
pub proof fn lemma_first_da(cp: real, sp: real, cy: real, sy: real, a: real, b: real, c: real, d:
    real)
    requires
        a == cy * cp,
        b == sy * sp,
        c == cy * sp,
        d == sy * cp,
    ensures
        a * d - b * c == cy * sy * (cp * cp - sp * sp),
{
    lemma_reorder_5(cy, cp);
    lemma_reorder_5(sy, cp);
    lemma_expand_8(a, d, cp * sy);
    lemma_expand_9(a, cp * sy, cp * cy);
    lemma_reorder_1(cp, cy, sy);
    lemma_reorder_5(sy, sp);
    lemma_expand_8(b, c, cy * sp);
    lemma_expand_9(b, cy * sp, sp * sy);
    lemma_reorder_7(sp, sy, cy);
    lemma_expand_1(cy * sy, cp * cp - sp * sp, cp * cp, sp * sp);
    lemma_reorder_8(cy, sy, cp);
    lemma_reorder_9(cy, sy, sp);
}

/// `cc + dd` of the first two factors.
pub proof fn lemma_first_cd(cp: real, sp: real, cy: real, sy: real, a: real, b: real, c: real, d:
    real)
    requires
        a == cy * cp,
        b == sy * sp,
        c == cy * sp,
        d == sy * cp,
    ensures
        c * c + d * d == cy * cy * (sp * sp) + sy * sy * (cp * cp),
{
    lemma_expand_8(c, c, cy * sp);
    lemma_expand_9(c, cy * sp, cy * sp);
    lemma_reorder_11(cy, sp);
    lemma_reorder_5(sy, cp);
    lemma_expand_8(d, d, cp * sy);
    lemma_expand_9(d, cp * sy, cp * sy);
    lemma_reorder_11(cp, sy);
    lemma_reorder_19(cy, sp);
    lemma_reorder_16(sy, cp);
}

/// The product of two double-angle cosines.
pub proof fn lemma_double_cosines(c1: real, s1: real, c2: real, s2: real)
    ensures
        (c1 * c1 - s1 * s1) * (c2 * c2 - s2 * s2) == (c1 * c1 + s1 * s1) * (c2 * c2 + s2 * s2) -
            2real * (c1 * c1 * (s2 * s2) + s1 * s1 * (c2 * c2)),
{
    lemma_expand_1(c1 * c1 - s1 * s1, c2 * c2 - s2 * s2, c2 * c2, s2 * s2);
    lemma_expand_6(c1 * c1 - s1 * s1, c2 * c2, c1 * c1, s1 * s1);
    lemma_reorder_19(c1, c2);
    lemma_reorder_16(s1, c2);
    lemma_expand_6(c1 * c1 - s1 * s1, s2 * s2, c1 * c1, s1 * s1);
    lemma_reorder_19(c1, s2);
    lemma_reorder_19(s1, s2);
    lemma_expand_7(c1 * c1 + s1 * s1, c2 * c2 + s2 * s2, c2 * c2, s2 * s2);
    lemma_expand_2(c1 * c1 + s1 * s1, c2 * c2, c1 * c1, s1 * s1);
    lemma_expand_2(c1 * c1 + s1 * s1, s2 * s2, c1 * c1, s1 * s1);
}

/// A negated factor negates the product.
proof fn lemma_neg_times(t: real, s: real)
    by (nonlinear_arith)
    ensures
        (-t) * s == -(t * s),
{
}

/// Twice a product of sine, cosine and `k`, from the double-angle sine.
proof fn lemma_double_sine_times(s: real, si: real, co: real, k: real)
    by (nonlinear_arith)
    requires
        s == 2real * si * co,
    ensures
        s * k == 2real * ((co * si) * k),
        s == 2real * (co * si),
{
}

/// The three rotations about the coordinate axes multiply to
/// [`euler_quat`].
pub proof fn lemma_euler_product(cr: real, sr: real, cp: real, sp: real, cy: real, sy: real)
    ensures
        (Quat { w: cy, x: 0real, y: 0real, z: sy }).times(
            Quat { w: cp, x: 0real, y: sp, z: 0real },
        ).times(Quat { w: cr, x: sr, y: 0real, z: 0real }) == euler_quat(cr, sr, cp, sp, cy, sy),
{
    lemma_neg_times(sy * sp, sr);
    lemma_neg_times(sy * sp, cr);
    lemma_neg_times(cy * sp, sr);
}

/// The expressions that the Euler angles of [`euler_quat`] are read from, in
/// the sines `s_*` and cosines `c_*` of the whole angles.
pub proof fn lemma_euler_angles(
    cr: real,
    sr: real,
    cp: real,
    sp: real,
    cy: real,
    sy: real,
    s_r: real,
    c_r: real,
    s_p: real,
    c_p: real,
    s_y: real,
    c_y: real,
)
    requires
        cr * cr + sr * sr == 1real,
        cp * cp + sp * sp == 1real,
        cy * cy + sy * sy == 1real,
        s_r == 2real * sr * cr,
        c_r == cr * cr - sr * sr,
        s_p == 2real * sp * cp,
        c_p == cp * cp - sp * sp,
        s_y == 2real * sy * cy,
        c_y == cy * cy - sy * sy,
    ensures
        ({
            let q = euler_quat(cr, sr, cp, sp, cy, sy);
            &&& (q.w * q.x + q.y * q.z) * 2real == s_r * c_p
            &&& 1real - (q.x * q.x + q.y * q.y) * 2real == c_r * c_p
            &&& (q.w * q.y - q.x * q.z) * 2real == s_p
            &&& (q.w * q.z + q.x * q.y) * 2real == s_y * c_p
            &&& 1real - (q.y * q.y + q.z * q.z) * 2real == c_y * c_p
        }),
{
    let q = euler_quat(cr, sr, cp, sp, cy, sy);
    let (a, b, c, d) = (cy * cp, sy * sp, cy * sp, sy * cp);
    let ur = cr * cr + sr * sr;
    let up = cp * cp + sp * sp;
    let uy = cy * cy + sy * sy;
    lemma_first_cross(cp, sp, cy, sy, a, b, c, d);
    lemma_first_ad(cp, sp, cy, sy, a, b, c, d);
    lemma_first_bc(cp, sp, cy, sy, a, b, c, d);
    lemma_first_ac(cp, sp, cy, sy, a, b, c, d);
    lemma_first_da(cp, sp, cy, sy, a, b, c, d);
    lemma_first_cd(cp, sp, cy, sy, a, b, c, d);
    crate::algebra::lemma_times_unit(cp * cp, uy);
    crate::algebra::lemma_times_unit(sp * sp, uy);
    crate::algebra::lemma_times_unit(cp * sp, uy);
    let e = a * a + d * d - (b * b + c * c);
    let f = c * d - a * b;
    assert(e == c_p);
    assert(f == 0real);
    lemma_roll_sine(a, b, c, d, cr, sr, q.w, q.x, q.y, q.z);
    crate::algebra::lemma_times_zero(cr * cr - sr * sr, f);
    crate::algebra::lemma_same_product(cr * sr, e, cr * sr, c_p);
    lemma_double_sine_times(s_r, sr, cr, c_p);
    assert((q.w * q.x + q.y * q.z) * 2real == s_r * c_p);
    lemma_roll_cosine(a, b, c, d, cr, sr, q.w, q.x, q.y, q.z);
    crate::algebra::lemma_times_zero(cr * sr, f);
    crate::algebra::lemma_same_product(sr * sr, a * a + d * d, sr * sr, cp * cp);
    crate::algebra::lemma_same_product(cr * cr, b * b + c * c, cr * cr, sp * sp);
    lemma_double_cosines(cr, sr, cp, sp);
    crate::algebra::lemma_times_unit(ur, up);
    crate::algebra::lemma_same_product(c_r, c_p, cr * cr - sr * sr, cp * cp - sp * sp);
    assert(1real - (q.x * q.x + q.y * q.y) * 2real == c_r * c_p);
    lemma_pitch_sine(a, b, c, d, cr, sr, q.w, q.x, q.y, q.z);
    crate::algebra::lemma_times_unit(a * c + b * d, ur);
    lemma_double_sine_times(s_p, sp, cp, 1real);
    assert((q.w * q.y - q.x * q.z) * 2real == s_p);
    lemma_yaw_sine(a, b, c, d, cr, sr, q.w, q.x, q.y, q.z);
    crate::algebra::lemma_times_unit(a * d - b * c, ur);
    crate::algebra::lemma_same_product(cy * sy, cp * cp - sp * sp, cy * sy, c_p);
    lemma_double_sine_times(s_y, sy, cy, c_p);
    assert((q.w * q.z + q.x * q.y) * 2real == s_y * c_p);
    lemma_yaw_cosine(a, b, c, d, cr, sr, q.w, q.x, q.y, q.z);
    crate::algebra::lemma_times_unit(c * c + d * d, ur);
    lemma_double_cosines(cy, sy, cp, sp);
    crate::algebra::lemma_times_unit(uy, up);
    crate::algebra::lemma_same_product(c_y, c_p, cy * cy - sy * sy, cp * cp - sp * sp);
    assert(1real - (q.y * q.y + q.z * q.z) * 2real == c_y * c_p);
}

} // verus!
