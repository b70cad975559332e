//! What the rotation types compute, read as arithmetic of the real numbers.
//!
//! Every law takes a reading `val` of the scalars as real numbers under which
//! the operations of the scalar type are exact, and speaks of the real
//! numbers that the computed scalars stand for.

use crate::linalg::{Complex, Quat, Vector3};
use crate::scalar::Scalar;
use vstd::prelude::*;

verus! {
/// The components of a Hamilton product are those of the product of the
/// real quaternions.
pub proof fn lemma_hamilton_val<T: Scalar>(val: spec_fn(T) -> real, a: Quat<T>, b: Quat<T>)
    requires
        crate::scalar::exact_field::<T>(val),
    ensures
        a.hamilton(b).val(val) == a.val(val).times(b.val(val)),
{
}

/// Normalizing a quaternion that is not zero divides it by the square root
/// of its squared norm and leaves a quaternion of norm 1.
pub proof fn lemma_quat_normalized<T: Scalar>(val: spec_fn(T) -> real, q: Quat<T>)
    requires
        crate::scalar::exact_field::<T>(val),
        q.val(val).norm_sq() > 0real,
    ensures
        val(q.norm()) > 0real,
        val(q.norm()) * val(q.norm()) == q.val(val).norm_sq(),
        q.normalized().val(val).is_scaled(q.val(val), val(q.norm())),
        q.normalized().val(val).norm_sq() == 1real,
{
    let n = val(q.norm());
    assert(val(q.norm_squared()) == q.val(val).norm_sq());
    assert(crate::scalar::is_sqrt_of(n, val(q.norm_squared())));
    crate::algebra::lemma_root_nonzero(n, q.val(val).norm_sq());
    crate::algebra::lemma_quat_scaled_unit(q.normalized().val(val), q.val(val), n);
}

/// Normalizing a quaternion of norm 1 changes nothing.
pub proof fn lemma_quat_normalized_unit<T: Scalar>(val: spec_fn(T) -> real, q: Quat<T>)
    requires
        crate::scalar::exact_field::<T>(val),
        q.val(val).norm_sq() == 1real,
    ensures
        q.normalized().val(val) == q.val(val),
{
    lemma_quat_normalized(val, q);
    crate::algebra::lemma_quat_scaled_is_self(
        q.normalized().val(val),
        q.val(val),
        val(q.norm()),
    );
}

/// Normalizing a vector that is not zero divides it by its length and leaves
/// a vector of length 1.
pub proof fn lemma_vector_normalized<T: Scalar>(val: spec_fn(T) -> real, v: Vector3<T>)
    requires
        crate::scalar::exact_field::<T>(val),
        !v.is_zero_spec(),
    ensures
        val(v.norm()) > 0real,
        val(v.norm()) * val(v.norm()) == v.val(val).norm_sq(),
        v.normalized().val(val).is_scaled(v.val(val), val(v.norm())),
        v.normalized().val(val).norm_sq() == 1real,
{
    let n = val(v.norm());
    crate::algebra::lemma_vector_norm_positive(v.val(val));
    assert(val(v.norm_squared()) == v.val(val).norm_sq());
    assert(crate::scalar::is_sqrt_of(n, val(v.norm_squared())));
    crate::algebra::lemma_root_nonzero(n, v.val(val).norm_sq());
    crate::algebra::lemma_vector_scaled_unit(v.normalized().val(val), v.val(val), n);
}

/// The identity quaternion stands for the real quaternion `1`.
pub proof fn lemma_identity_val<T: Scalar>(val: spec_fn(T) -> real)
    requires
        crate::scalar::exact_field::<T>(val),
    ensures
        Quat::<T>::identity().val(val) == Quat::<real>::one(),
        Quat::<T>::identity().val(val).norm_sq() == 1real,
{
    crate::algebra::lemma_times_one(Quat::<real>::one());
}

/// The composition of two rotations of norm 1 is their Hamilton product, and
/// has norm 1.
pub proof fn lemma_otimes_val<T: Scalar>(val: spec_fn(T) -> real, a: Quat<T>, b: Quat<T>)
    requires
        crate::scalar::exact_field::<T>(val),
        a.val(val).norm_sq() == 1real,
        b.val(val).norm_sq() == 1real,
    ensures
        a.otimes(b).val(val) == a.val(val).times(b.val(val)),
        a.otimes(b).val(val).norm_sq() == 1real,
{
    lemma_hamilton_val(val, a, b);
    crate::algebra::lemma_times_norm(a.val(val), b.val(val));
    crate::algebra::lemma_times_unit(a.val(val).norm_sq(), b.val(val).norm_sq());
    lemma_quat_normalized_unit(val, a.hamilton(b));
}

/// Composing with the identity, on either side, gives the same rotation
/// back.
pub proof fn lemma_otimes_identity<T: Scalar>(val: spec_fn(T) -> real, q: Quat<T>)
    requires
        crate::scalar::exact_field::<T>(val),
        q.val(val).norm_sq() == 1real,
    ensures
        Quat::<T>::identity().otimes(q).val(val) == q.val(val),
        q.otimes(Quat::<T>::identity()).val(val) == q.val(val),
{
    lemma_identity_val::<T>(val);
    lemma_otimes_val(val, Quat::<T>::identity(), q);
    lemma_otimes_val(val, q, Quat::<T>::identity());
    crate::algebra::lemma_times_one(q.val(val));
}

/// Composition is associative: the two ways to compose three rotations give
/// the same rotation.
pub proof fn lemma_otimes_assoc<T: Scalar>(
    val: spec_fn(T) -> real,
    a: Quat<T>,
    b: Quat<T>,
    c: Quat<T>,
)
    requires
        crate::scalar::exact_field::<T>(val),
        a.val(val).norm_sq() == 1real,
        b.val(val).norm_sq() == 1real,
        c.val(val).norm_sq() == 1real,
    ensures
        a.otimes(b).otimes(c).val(val) == a.otimes(b.otimes(c)).val(val),
{
    lemma_otimes_val(val, a, b);
    lemma_otimes_val(val, b, c);
    lemma_otimes_val(val, a.otimes(b), c);
    lemma_otimes_val(val, a, b.otimes(c));
    crate::algebra::lemma_times_assoc(a.val(val), b.val(val), c.val(val));
}

/// The vector that a rotation maps `v` to is the image of `v` under the
/// rotation matrix of the real quaternion.
pub proof fn lemma_rotate_val<T: Scalar>(val: spec_fn(T) -> real, q: Quat<T>, v: Vector3<T>)
    requires
        crate::scalar::exact_field::<T>(val),
    ensures
        q.rotate(v).val(val) == q.val(val).rotate(v.val(val)),
{
}

/// The rotation about an axis that is not zero has norm 1, and its vector
/// part lies along the axis.
pub proof fn lemma_axis_angle_val<T: Scalar>(val: spec_fn(T) -> real, axis: Vector3<T>, angle: T)
    requires
        crate::scalar::exact_field::<T>(val),
        crate::scalar::exact_trig::<T>(val),
        !axis.is_zero_spec(),
    ensures
        Quat::from_axis_angle(axis, angle).val(val).norm_sq() == 1real,
        Quat::from_axis_angle(axis, angle).val(val).is_along(axis.val(val)),
        ({
            let h = T::one_spec().div_spec(T::two_spec()).mul_spec(angle);
            let u = axis.normalized().val(val);
            Quat::from_axis_angle(axis, angle).val(val) == Quat {
                w: val(h.cos_spec()),
                x: val(h.sin_spec()) * u.x,
                y: val(h.sin_spec()) * u.y,
                z: val(h.sin_spec()) * u.z,
            }
        }),
{
    let h = T::one_spec().div_spec(T::two_spec()).mul_spec(angle);
    let u = axis.normalized();
    let s = h.sin_spec();
    let q0 = Quat { w: h.cos_spec(), x: s.mul_spec(u.x), y: s.mul_spec(u.y), z: s.mul_spec(u.z) };
    let n = val(axis.norm());
    let a = axis.val(val);
    let ur = u.val(val);
    let sr = val(s);
    let cr = val(h.cos_spec());
    lemma_vector_normalized(val, axis);
    assert(cr * cr + sr * sr == 1real);
    crate::algebra::lemma_square_of_product(sr, ur.x);
    crate::algebra::lemma_square_of_product(sr, ur.y);
    crate::algebra::lemma_square_of_product(sr, ur.z);
    crate::algebra::lemma_factor_three(sr * sr, ur.x * ur.x, ur.y * ur.y, ur.z * ur.z);
    crate::algebra::lemma_times_unit(sr * sr, ur.norm_sq());
    assert(q0.val(val).norm_sq() == 1real);
    lemma_quat_normalized_unit(val, q0);
    assert(Quat::from_axis_angle(axis, angle) == q0.normalized());
    crate::algebra::lemma_cross_scaled(sr, ur.x, ur.y, n);
    crate::algebra::lemma_cross_scaled(sr, ur.x, ur.z, n);
    crate::algebra::lemma_cross_scaled(sr, ur.y, ur.z, n);
}

/// A rotation about an axis leaves the axis where it is.
pub proof fn lemma_axis_is_fixed<T: Scalar>(val: spec_fn(T) -> real, axis: Vector3<T>, angle: T)
    requires
        crate::scalar::exact_field::<T>(val),
        crate::scalar::exact_trig::<T>(val),
        !axis.is_zero_spec(),
    ensures
        Quat::from_axis_angle(axis, angle).rotate(axis).val(val) == axis.val(val),
{
    let q = Quat::from_axis_angle(axis, angle);
    lemma_axis_angle_val(val, axis, angle);
    lemma_rotate_val(val, q, axis);
    crate::algebra::lemma_rotate_fixes_axis(q.val(val), axis.val(val));
}

/// The rotation with given Euler angles has norm 1.
pub proof fn lemma_from_euler_unit<T: Scalar>(val: spec_fn(T) -> real, roll: T, pitch: T, yaw: T)
    requires
        crate::scalar::exact_field::<T>(val),
        crate::scalar::exact_trig::<T>(val),
    ensures
        Quat::from_euler(roll, pitch, yaw).val(val).norm_sq() == 1real,
{
    let ex = Vector3 { x: T::one_spec(), y: T::zero_spec(), z: T::zero_spec() };
    let ey = Vector3 { x: T::zero_spec(), y: T::one_spec(), z: T::zero_spec() };
    let ez = Vector3 { x: T::zero_spec(), y: T::zero_spec(), z: T::one_spec() };
    lemma_axis_angle_val(val, ex, roll);
    lemma_axis_angle_val(val, ey, pitch);
    lemma_axis_angle_val(val, ez, yaw);
    lemma_otimes_val(val, Quat::about_z(yaw), Quat::about_y(pitch));
    lemma_otimes_val(val, Quat::about_z(yaw).otimes(Quat::about_y(pitch)), Quat::about_x(roll));
}

/// Where the sine of the pitch angle lies beyond ±1, the pitch is a quarter
/// turn of the same sign.
pub proof fn lemma_pitch_clamp<T: Scalar>(val: spec_fn(T) -> real, q: Quat<T>)
    requires
        crate::scalar::exact_field::<T>(val),
    ensures
        val(q.pitch_sine()) > 1real ==> val(q.pitch()) == val(T::frac_pi_2_spec()),
        val(q.pitch_sine()) < -1real ==> val(q.pitch()) == -val(T::frac_pi_2_spec()),
        -1real <= val(q.pitch_sine()) <= 1real ==> q.pitch() == q.pitch_sine().asin_spec(),
{
    let v = q.pitch_sine();
    let one = T::one_spec();
    if val(v) > 1real {
        crate::algebra::lemma_times_unit(val(T::frac_pi_2_spec()), val(one.copysign_spec(v)));
    }
    if val(v) < -1real {
        crate::algebra::lemma_times_minus_unit(
            val(T::frac_pi_2_spec()),
            val(one.copysign_spec(v)),
        );
    }
}

/// The components of a complex product are those of the product of the real
/// complex numbers.
pub proof fn lemma_product_val<T: Scalar>(val: spec_fn(T) -> real, a: Complex<T>, b: Complex<T>)
    requires
        crate::scalar::exact_field::<T>(val),
    ensures
        a.product(b).val(val) == a.val(val).times(b.val(val)),
{
}

/// Normalizing a complex number that is not zero divides it by the square
/// root of its squared norm and leaves a number of norm 1.
pub proof fn lemma_complex_normalized<T: Scalar>(val: spec_fn(T) -> real, c: Complex<T>)
    requires
        crate::scalar::exact_field::<T>(val),
        !c.is_zero_spec(),
    ensures
        val(c.norm()) > 0real,
        c.normalized().val(val).is_scaled(c.val(val), val(c.norm())),
        c.normalized().val(val).norm_sq() == 1real,
{
    let n = val(c.norm());
    crate::algebra::lemma_complex_norm_positive(c.val(val));
    assert(val(c.norm_squared()) == c.val(val).norm_sq());
    assert(crate::scalar::is_sqrt_of(n, val(c.norm_squared())));
    crate::algebra::lemma_root_nonzero(n, c.val(val).norm_sq());
    crate::algebra::lemma_complex_scaled_unit(c.normalized().val(val), c.val(val), n);
}

/// Normalizing a complex number of norm 1 changes nothing.
pub proof fn lemma_complex_normalized_unit<T: Scalar>(val: spec_fn(T) -> real, c: Complex<T>)
    requires
        crate::scalar::exact_field::<T>(val),
        c.val(val).norm_sq() == 1real,
    ensures
        c.normalized().val(val) == c.val(val),
{
    crate::algebra::lemma_square_positive(val(c.w));
    crate::algebra::lemma_square_positive(val(c.x));
    lemma_complex_normalized(val, c);
    assert(val(c.norm_squared()) == c.val(val).norm_sq());
    crate::algebra::lemma_complex_scaled_is_self(
        c.normalized().val(val),
        c.val(val),
        val(c.norm()),
    );
}

/// The identity of the plane stands for the complex number `1`.
pub proof fn lemma_complex_identity_val<T: Scalar>(val: spec_fn(T) -> real)
    requires
        crate::scalar::exact_field::<T>(val),
    ensures
        Complex::<T>::identity().val(val) == Complex::<real>::one(),
        Complex::<T>::identity().val(val).norm_sq() == 1real,
{
    crate::algebra::lemma_complex_times_one(Complex::<real>::one());
}

/// The rotation by an angle has norm 1.
pub proof fn lemma_from_angle_unit<T: Scalar>(val: spec_fn(T) -> real, angle: T)
    requires
        crate::scalar::exact_trig::<T>(val),
    ensures
        Complex::from_angle(angle).val(val).norm_sq() == 1real,
{
}

/// The rotation read from a matrix whose first column is not zero has norm
/// 1.
pub proof fn lemma_from_matrix_unit<T: Scalar>(
    val: spec_fn(T) -> real,
    m: crate::linalg::Matrix2<T>,
)
    requires
        crate::scalar::exact_field::<T>(val),
        !(m.m11.is_zero_spec() && m.m21.is_zero_spec()),
    ensures
        Complex::from_matrix(m).val(val).norm_sq() == 1real,
{
    lemma_complex_normalized(val, Complex { w: m.m11, x: m.m21 });
}

/// The composition of two planar rotations of norm 1 is their complex
/// product, and has norm 1.
pub proof fn lemma_complex_otimes_val<T: Scalar>(
    val: spec_fn(T) -> real,
    a: Complex<T>,
    b: Complex<T>,
)
    requires
        crate::scalar::exact_field::<T>(val),
        a.val(val).norm_sq() == 1real,
        b.val(val).norm_sq() == 1real,
    ensures
        a.otimes(b).val(val) == a.val(val).times(b.val(val)),
        a.otimes(b).val(val).norm_sq() == 1real,
{
    lemma_product_val(val, a, b);
    crate::algebra::lemma_complex_times_norm(a.val(val), b.val(val));
    crate::algebra::lemma_times_unit(a.val(val).norm_sq(), b.val(val).norm_sq());
    lemma_complex_normalized_unit(val, a.product(b));
}

/// Composing a planar rotation with the identity, on either side, gives the
/// same rotation back.
pub proof fn lemma_complex_otimes_identity<T: Scalar>(val: spec_fn(T) -> real, c: Complex<T>)
    requires
        crate::scalar::exact_field::<T>(val),
        c.val(val).norm_sq() == 1real,
    ensures
        Complex::<T>::identity().otimes(c).val(val) == c.val(val),
        c.otimes(Complex::<T>::identity()).val(val) == c.val(val),
{
    lemma_complex_identity_val::<T>(val);
    lemma_complex_otimes_val(val, Complex::<T>::identity(), c);
    lemma_complex_otimes_val(val, c, Complex::<T>::identity());
    crate::algebra::lemma_complex_times_one(c.val(val));
}

/// Composition of planar rotations is associative.
pub proof fn lemma_complex_otimes_assoc<T: Scalar>(
    val: spec_fn(T) -> real,
    a: Complex<T>,
    b: Complex<T>,
    c: Complex<T>,
)
    requires
        crate::scalar::exact_field::<T>(val),
        a.val(val).norm_sq() == 1real,
        b.val(val).norm_sq() == 1real,
        c.val(val).norm_sq() == 1real,
    ensures
        a.otimes(b).otimes(c).val(val) == a.otimes(b.otimes(c)).val(val),
{
    lemma_complex_otimes_val(val, a, b);
    lemma_complex_otimes_val(val, b, c);
    lemma_complex_otimes_val(val, a.otimes(b), c);
    lemma_complex_otimes_val(val, a, b.otimes(c));
    crate::algebra::lemma_complex_times_assoc(a.val(val), b.val(val), c.val(val));
}

/// The rotation about a coordinate axis: the cosine of half the angle, and
/// its sine in the place of the axis.
pub proof fn lemma_coordinate_axis_val<T: Scalar>(
    val: spec_fn(T) -> real,
    axis: Vector3<T>,
    angle: T,
)
    requires
        crate::scalar::exact_field::<T>(val),
        crate::scalar::exact_trig::<T>(val),
        axis.x == T::one_spec() || axis.x == T::zero_spec(),
        axis.y == T::one_spec() || axis.y == T::zero_spec(),
        axis.z == T::one_spec() || axis.z == T::zero_spec(),
        val(axis.x) + val(axis.y) + val(axis.z) == 1real,
    ensures
        ({
            let h = T::one_spec().div_spec(T::two_spec()).mul_spec(angle);
            Quat::from_axis_angle(axis, angle).val(val) == Quat {
                w: val(h.cos_spec()),
                x: if axis.x == T::one_spec() {
                    val(h.sin_spec())
                } else {
                    0real
                },
                y: if axis.y == T::one_spec() {
                    val(h.sin_spec())
                } else {
                    0real
                },
                z: if axis.z == T::one_spec() {
                    val(h.sin_spec())
                } else {
                    0real
                },
            }
        }),
        Quat::from_axis_angle(axis, angle).val(val).norm_sq() == 1real,
{
    let h = T::one_spec().div_spec(T::two_spec()).mul_spec(angle);
    let s = val(h.sin_spec());
    let a = axis.val(val);
    let u = axis.normalized().val(val);
    let n = val(axis.norm());
    lemma_axis_angle_val(val, axis, angle);
    lemma_vector_normalized(val, axis);
    if a.x == 1real {
        crate::algebra::lemma_times_unit(a.x, a.x);
    } else {
        crate::algebra::lemma_times_zero(a.x, a.x);
    }
    if a.y == 1real {
        crate::algebra::lemma_times_unit(a.y, a.y);
    } else {
        crate::algebra::lemma_times_zero(a.y, a.y);
    }
    if a.z == 1real {
        crate::algebra::lemma_times_unit(a.z, a.z);
    } else {
        crate::algebra::lemma_times_zero(a.z, a.z);
    }
    assert(a.norm_sq() == 1real);
    crate::algebra::lemma_sqrt_one(n);
    crate::algebra::lemma_times_unit(u.x, n);
    crate::algebra::lemma_times_unit(u.y, n);
    crate::algebra::lemma_times_unit(u.z, n);
    if a.x == 1real {
        crate::algebra::lemma_times_unit(s, u.x);
    } else {
        crate::algebra::lemma_times_zero(s, u.x);
    }
    if a.y == 1real {
        crate::algebra::lemma_times_unit(s, u.y);
    } else {
        crate::algebra::lemma_times_zero(s, u.y);
    }
    if a.z == 1real {
        crate::algebra::lemma_times_unit(s, u.z);
    } else {
        crate::algebra::lemma_times_zero(s, u.z);
    }
}

/// The rotation with given Euler angles is the product of the rotations
/// about z, y and x, written in the cosines and sines of the half angles.
pub proof fn lemma_from_euler_val<T: Scalar>(val: spec_fn(T) -> real, roll: T, pitch: T, yaw: T)
    requires
        crate::scalar::exact_field::<T>(val),
        crate::scalar::exact_trig::<T>(val),
    ensures
        Quat::from_euler(roll, pitch, yaw).val(val) == crate::euler::euler_quat(
            val(T::one_spec().div_spec(T::two_spec()).mul_spec(roll).cos_spec()),
            val(T::one_spec().div_spec(T::two_spec()).mul_spec(roll).sin_spec()),
            val(T::one_spec().div_spec(T::two_spec()).mul_spec(pitch).cos_spec()),
            val(T::one_spec().div_spec(T::two_spec()).mul_spec(pitch).sin_spec()),
            val(T::one_spec().div_spec(T::two_spec()).mul_spec(yaw).cos_spec()),
            val(T::one_spec().div_spec(T::two_spec()).mul_spec(yaw).sin_spec()),
        ),
{
    let ex = Vector3 { x: T::one_spec(), y: T::zero_spec(), z: T::zero_spec() };
    let ey = Vector3 { x: T::zero_spec(), y: T::one_spec(), z: T::zero_spec() };
    let ez = Vector3 { x: T::zero_spec(), y: T::zero_spec(), z: T::one_spec() };
    let hr = T::one_spec().div_spec(T::two_spec()).mul_spec(roll);
    let hp = T::one_spec().div_spec(T::two_spec()).mul_spec(pitch);
    let hy = T::one_spec().div_spec(T::two_spec()).mul_spec(yaw);
    lemma_coordinate_axis_val(val, ex, roll);
    lemma_coordinate_axis_val(val, ey, pitch);
    lemma_coordinate_axis_val(val, ez, yaw);
    let qx = Quat::about_x(roll);
    let qy = Quat::about_y(pitch);
    let qz = Quat::about_z(yaw);
    lemma_otimes_val(val, qz, qy);
    lemma_otimes_val(val, qz.otimes(qy), qx);
    crate::euler::lemma_euler_product(
        val(hr.cos_spec()),
        val(hr.sin_spec()),
        val(hp.cos_spec()),
        val(hp.sin_spec()),
        val(hy.cos_spec()),
        val(hy.sin_spec()),
    );
}

/// Euler angles within a quarter turn of zero are read back from the
/// rotation that was made from them.
pub proof fn lemma_euler_round_trip<T: Scalar>(
    val: spec_fn(T) -> real,
    roll: T,
    pitch: T,
    yaw: T,
)
    requires
        crate::scalar::exact_field::<T>(val),
        crate::scalar::exact_trig::<T>(val),
        crate::scalar::exact_angles::<T>(val),
        -val(T::frac_pi_2_spec()) < val(roll) < val(T::frac_pi_2_spec()),
        -val(T::frac_pi_2_spec()) < val(pitch) < val(T::frac_pi_2_spec()),
        -val(T::frac_pi_2_spec()) < val(yaw) < val(T::frac_pi_2_spec()),
    ensures
        val(Quat::from_euler(roll, pitch, yaw).roll()) == val(roll),
        val(Quat::from_euler(roll, pitch, yaw).pitch()) == val(pitch),
        val(Quat::from_euler(roll, pitch, yaw).yaw()) == val(yaw),
{
    let q = Quat::from_euler(roll, pitch, yaw);
    let hr = T::one_spec().div_spec(T::two_spec()).mul_spec(roll);
    let hp = T::one_spec().div_spec(T::two_spec()).mul_spec(pitch);
    let hy = T::one_spec().div_spec(T::two_spec()).mul_spec(yaw);
    let (cr, sr) = (val(hr.cos_spec()), val(hr.sin_spec()));
    let (cp, sp) = (val(hp.cos_spec()), val(hp.sin_spec()));
    let (cy, sy) = (val(hy.cos_spec()), val(hy.sin_spec()));
    let (s_r, c_r) = (val(roll.sin_spec()), val(roll.cos_spec()));
    let (s_p, c_p) = (val(pitch.sin_spec()), val(pitch.cos_spec()));
    let (s_y, c_y) = (val(yaw.sin_spec()), val(yaw.cos_spec()));
    lemma_from_euler_val(val, roll, pitch, yaw);
    assert(cr * cr + sr * sr == 1real);
    assert(cp * cp + sp * sp == 1real);
    assert(cy * cy + sy * sy == 1real);
    crate::euler::lemma_euler_angles(cr, sr, cp, sp, cy, sy, s_r, c_r, s_p, c_p, s_y, c_y);
    assert(c_r * c_r + s_r * s_r == 1real);
    assert(c_p * c_p + s_p * s_p == 1real);
    assert(c_y * c_y + s_y * s_y == 1real);
    assert(c_p > 0real);

    crate::algebra::lemma_cross_swap(s_r, c_r, c_p);
    crate::algebra::lemma_dot_factor(s_r, c_r, c_p);
    crate::algebra::lemma_times_unit(c_p, c_r * c_r + s_r * s_r);
    assert(val(q.roll()) == val(roll));

    crate::algebra::lemma_circle_bound(c_p, s_p);
    assert(val(q.pitch_sine()) == s_p);
    assert(q.pitch() == q.pitch_sine().asin_spec());
    assert(val(q.pitch()) == val(pitch));

    crate::algebra::lemma_cross_swap(s_y, c_y, c_p);
    crate::algebra::lemma_dot_factor(s_y, c_y, c_p);
    crate::algebra::lemma_times_unit(c_p, c_y * c_y + s_y * s_y);
    assert(val(q.yaw()) == val(yaw));
}

} // verus!
