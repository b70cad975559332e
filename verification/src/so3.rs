//! Rotations of three-dimensional space as unit quaternions.

use crate::linalg::{Quat, Vector3};
use crate::scalar::Scalar;
use vstd::prelude::*;

verus! {

impl<T: Scalar> Quat<T> {
    /// The quaternion `1`.
    pub open spec fn identity() -> Quat<T> {
        Quat { w: T::one_spec(), x: T::zero_spec(), y: T::zero_spec(), z: T::zero_spec() }
    }

    /// The Hamilton product `self · q`, each component summed left to right.
    pub open spec fn hamilton(self, q: Quat<T>) -> Quat<T> {
        Quat {
            w: self.w.mul_spec(q.w).sub_spec(self.x.mul_spec(q.x)).sub_spec(
                self.y.mul_spec(q.y),
            ).sub_spec(self.z.mul_spec(q.z)),
            x: self.w.mul_spec(q.x).add_spec(self.x.mul_spec(q.w)).add_spec(
                self.y.mul_spec(q.z),
            ).sub_spec(self.z.mul_spec(q.y)),
            y: self.w.mul_spec(q.y).sub_spec(self.x.mul_spec(q.z)).add_spec(
                self.y.mul_spec(q.w),
            ).add_spec(self.z.mul_spec(q.x)),
            z: self.w.mul_spec(q.z).add_spec(self.x.mul_spec(q.y)).sub_spec(
                self.y.mul_spec(q.x),
            ).add_spec(self.z.mul_spec(q.w)),
        }
    }

    /// The composition of two rotations: their Hamilton product, scaled back
    /// to unit norm.
    pub open spec fn otimes(self, q: Quat<T>) -> Quat<T> {
        self.hamilton(q).normalized()
    }

    /// The image of `v` under the rotation matrix of `self`,
    ///
    /// ```text
    /// 1 - 2yy - 2zz     2xy - 2wz       2(xz + wy)
    ///   2(xy + wz)    1 - 2(xx + zz)    2(yz - wx)
    ///   2(xz - wy)      2(yz + wx)    1 - 2(xx + yy)
    /// ```
    ///
    /// each row summed left to right.
    pub open spec fn rotate(self, v: Vector3<T>) -> Vector3<T> {
        let one = T::one_spec();
        let two = T::two_spec();
        let qxx = self.x.mul_spec(self.x);
        let qxy = self.x.mul_spec(self.y);
        let qxz = self.x.mul_spec(self.z);
        let qyy = self.y.mul_spec(self.y);
        let qyz = self.y.mul_spec(self.z);
        let qzz = self.z.mul_spec(self.z);
        let qwx = self.w.mul_spec(self.x);
        let qwy = self.w.mul_spec(self.y);
        let qwz = self.w.mul_spec(self.z);
        Vector3 {
            x: one.sub_spec(qyy.mul_spec(two)).sub_spec(qzz.mul_spec(two)).mul_spec(v.x).add_spec(
                qxy.mul_spec(two).sub_spec(qwz.mul_spec(two)).mul_spec(v.y),
            ).add_spec(qxz.add_spec(qwy).mul_spec(two).mul_spec(v.z)),
            y: qxy.add_spec(qwz).mul_spec(two).mul_spec(v.x).add_spec(
                one.sub_spec(qxx.add_spec(qzz).mul_spec(two)).mul_spec(v.y),
            ).add_spec(qyz.sub_spec(qwx).mul_spec(two).mul_spec(v.z)),
            z: qxz.sub_spec(qwy).mul_spec(two).mul_spec(v.x).add_spec(
                qyz.add_spec(qwx).mul_spec(two).mul_spec(v.y),
            ).add_spec(one.sub_spec(qxx.add_spec(qyy).mul_spec(two)).mul_spec(v.z)),
        }
    }

    /// The rotation by `angle` about `axis`: with `u` the normalized axis and
    /// `h` half the angle, the quaternion `(cos h, sin h · u)`, scaled to unit
    /// norm.
    pub open spec fn from_axis_angle(axis: Vector3<T>, angle: T) -> Quat<T> {
        let h = T::one_spec().div_spec(T::two_spec()).mul_spec(angle);
        let u = axis.normalized();
        let s = h.sin_spec();
        (Quat { w: h.cos_spec(), x: s.mul_spec(u.x), y: s.mul_spec(u.y), z: s.mul_spec(u.z) })
            .normalized()
    }

    /// The rotation by `angle` about the first coordinate axis.
    pub open spec fn about_x(angle: T) -> Quat<T> {
        Self::from_axis_angle(
            Vector3 { x: T::one_spec(), y: T::zero_spec(), z: T::zero_spec() },
            angle,
        )
    }

    /// The rotation by `angle` about the second coordinate axis.
    pub open spec fn about_y(angle: T) -> Quat<T> {
        Self::from_axis_angle(
            Vector3 { x: T::zero_spec(), y: T::one_spec(), z: T::zero_spec() },
            angle,
        )
    }

    /// The rotation by `angle` about the third coordinate axis.
    pub open spec fn about_z(angle: T) -> Quat<T> {
        Self::from_axis_angle(
            Vector3 { x: T::zero_spec(), y: T::zero_spec(), z: T::one_spec() },
            angle,
        )
    }

    /// Roll about x, then pitch about y, then yaw about z:
    /// `(yaw ⊗ pitch) ⊗ roll`.
    pub open spec fn from_euler(roll: T, pitch: T, yaw: T) -> Quat<T> {
        Self::about_z(yaw).otimes(Self::about_y(pitch)).otimes(Self::about_x(roll))
    }

    /// `atan2((wx + yz)·2, 1 - (xx + yy)·2)`.
    pub open spec fn roll(self) -> T {
        self.w.mul_spec(self.x).add_spec(self.y.mul_spec(self.z)).mul_spec(
            T::two_spec(),
        ).atan2_spec(
            T::one_spec().sub_spec(
                self.x.mul_spec(self.x).add_spec(self.y.mul_spec(self.y)).mul_spec(T::two_spec()),
            ),
        )
    }

    /// The sine of the pitch angle as the components give it, `(wy - xz)·2`.
    pub open spec fn pitch_sine(self) -> T {
        self.w.mul_spec(self.y).sub_spec(self.x.mul_spec(self.z)).mul_spec(T::two_spec())
    }

    /// The arcsine of [`Quat::pitch_sine`]; where the magnitude of that sine
    /// exceeds 1, a quarter turn with its sign.
    pub open spec fn pitch(self) -> T {
        let val = self.pitch_sine();
        if val.abs_spec().gt_spec(T::one_spec()) {
            T::one_spec().copysign_spec(val).mul_spec(T::frac_pi_2_spec())
        } else {
            val.asin_spec()
        }
    }

    /// `atan2((wz + xy)·2, 1 - (yy + zz)·2)`.
    pub open spec fn yaw(self) -> T {
        self.w.mul_spec(self.z).add_spec(self.x.mul_spec(self.y)).mul_spec(
            T::two_spec(),
        ).atan2_spec(
            T::one_spec().sub_spec(
                self.y.mul_spec(self.y).add_spec(self.z.mul_spec(self.z)).mul_spec(T::two_spec()),
            ),
        )
    }
}

/// A rotation of three-dimensional space, held as a quaternion `(w, x, y, z)`
/// of unit norm. A quaternion and its negative stand for the same rotation;
/// no sign is preferred.
#[derive(Clone, Copy, Debug, PartialEq)]
pub struct SO3<T: Scalar> {
    arr: Quat<T>,
}

impl<T: Scalar> View for SO3<T> {
    type V = Quat<T>;

    /// The four components.
    closed spec fn view(&self) -> Quat<T> {
        self.arr
    }
}

impl<T: Scalar> Default for SO3<T> {
    /// The identity rotation.
    fn default() -> (r: SO3<T>)
        ensures
            r@ == Quat::<T>::identity(),
    {
        SO3::identity()
    }
}

impl<T: Scalar> SO3<T> {
    /// Takes `q` as the components of a rotation. The caller answers for its
    /// unit norm: the components are stored as they are.
    pub fn new(q: Quat<T>) -> (r: SO3<T>)
        ensures
            r@ == q,
    {
        SO3 { arr: q }
    }

    /// The rotation that moves nothing, `(1, 0, 0, 0)`.
    pub fn identity() -> (r: SO3<T>)
        ensures
            r@ == Quat::<T>::identity(),
            forall|val: spec_fn(T) -> real|
                #[trigger] crate::scalar::exact_field::<T>(val) ==> r@.is_unit(val),
    {
        proof {
            assert forall|val: spec_fn(T) -> real| #[trigger] crate::scalar::exact_field::<T>(val)
                implies Quat::<T>::identity().is_unit(val) by {
                crate::laws::lemma_identity_val::<T>(val);
            }
        }
        SO3 { arr: Quat { w: T::one(), x: T::zero(), y: T::zero(), z: T::zero() } }
    }

    /// The scalar part.
    pub fn w(&self) -> (r: &T)
        ensures
            *r == self@.w,
    {
        &self.arr.w
    }

    /// The first component of the vector part.
    pub fn x(&self) -> (r: &T)
        ensures
            *r == self@.x,
    {
        &self.arr.x
    }

    /// The second component of the vector part.
    pub fn y(&self) -> (r: &T)
        ensures
            *r == self@.y,
    {
        &self.arr.y
    }

    /// The third component of the vector part.
    pub fn z(&self) -> (r: &T)
        ensures
            *r == self@.z,
    {
        &self.arr.z
    }

    /// The rotation by `angle` radians about `axis`, which need not have unit
    /// length but must not be the zero vector.
    pub fn from_axis_angle(axis: &Vector3<T>, angle: &T) -> (r: SO3<T>)
        requires
            !axis.is_zero_spec(),
        ensures
            r@ == Quat::from_axis_angle(*axis, *angle),
            forall|val: spec_fn(T) -> real|
                #[trigger] crate::scalar::exact_field::<T>(val) &&
                    crate::scalar::exact_trig::<T>(val) ==> r@.is_unit(val) &&
                    r@.val(val).is_along(axis.val(val)),
    {
        proof {
            assert forall|val: spec_fn(T) -> real| #[trigger] crate::scalar::exact_field::<T>(val)
                && crate::scalar::exact_trig::<T>(val) implies Quat::from_axis_angle(*axis,
                *angle).is_unit(val) && Quat::from_axis_angle(
                *axis,
                *angle,
            ).val(val).is_along(axis.val(val)) by {
                crate::laws::lemma_axis_angle_val(val, *axis, *angle);
            }
        }
        let angle_scale = T::one().div(&T::two());
        let th2 = angle_scale.mul(angle);
        let axis_normalized = axis.normalize();
        let scale = th2.sin();
        let q = Quat {
            w: th2.cos(),
            x: scale.mul(&axis_normalized.x),
            y: scale.mul(&axis_normalized.y),
            z: scale.mul(&axis_normalized.z),
        };
        SO3 { arr: q.normalize() }
    }

    /// The rotation with the given Euler angles in the intrinsic
    /// roll-pitch-yaw convention: yaw about z after pitch about y after roll
    /// about x.
    pub fn from_euler(roll: &T, pitch: &T, yaw: &T) -> (r: SO3<T>)
        ensures
            r@ == Quat::from_euler(*roll, *pitch, *yaw),
            forall|val: spec_fn(T) -> real|
                #[trigger] crate::scalar::exact_field::<T>(val) &&
                    crate::scalar::exact_trig::<T>(val) ==> r@.is_unit(val),
    {
        proof {
            assert forall|val: spec_fn(T) -> real| #[trigger] crate::scalar::exact_field::<T>(val)
                && crate::scalar::exact_trig::<T>(val) implies Quat::from_euler(*roll, *pitch,
                *yaw).is_unit(val) by {
                crate::laws::lemma_from_euler_unit(val, *roll, *pitch, *yaw);
            }
        }
        let q_roll = SO3::from_axis_angle(&Vector3 { x: T::one(), y: T::zero(), z: T::zero() },
            roll);
        let q_pitch = SO3::from_axis_angle(
            &Vector3 { x: T::zero(), y: T::one(), z: T::zero() },
            pitch,
        );
        let q_yaw = SO3::from_axis_angle(&Vector3 { x: T::zero(), y: T::zero(), z: T::one() }, yaw);
        q_yaw.otimes(q_pitch).otimes(q_roll)
    }

    /// The roll angle of the rotation.
    pub fn roll(&self) -> (r: T)
        ensures
            r == self@.roll(),
    {
        let x = &self.arr.x;
        let y = &self.arr.y;
        let z = &self.arr.z;
        let w = &self.arr.w;
        w.mul(x).add(&y.mul(z)).mul(&T::two()).atan2(
            &T::one().sub(&x.mul(x).add(&y.mul(y)).mul(&T::two())),
        )
    }

    /// The pitch angle of the rotation. Where rounding has pushed its sine
    /// beyond ±1, the answer is held at a quarter turn of that sign.
    pub fn pitch(&self) -> (r: T)
        ensures
            r == self@.pitch(),
            forall|val: spec_fn(T) -> real|
                #[trigger] crate::scalar::exact_field::<T>(val) && val(self@.pitch_sine()) > 1real
                    ==> val(r) == val(T::frac_pi_2_spec()),
            forall|val: spec_fn(T) -> real|
                #[trigger] crate::scalar::exact_field::<T>(val) && val(self@.pitch_sine()) < -1real
                    ==> val(r) == -val(T::frac_pi_2_spec()),
    {
        proof {
            assert forall|val: spec_fn(T) -> real| #[trigger]
                crate::scalar::exact_field::<T>(val) implies (val(self@.pitch_sine()) > 1real
                ==> val(self@.pitch()) == val(T::frac_pi_2_spec())) && (val(self@.pitch_sine())
                < -1real ==> val(self@.pitch()) == -val(T::frac_pi_2_spec())) by {
                crate::laws::lemma_pitch_clamp(val, self@);
            }
        }
        let x = &self.arr.x;
        let y = &self.arr.y;
        let z = &self.arr.z;
        let w = &self.arr.w;
        let val = w.mul(y).sub(&x.mul(z)).mul(&T::two());
        if val.abs().gt(&T::one()) {
            T::one().copysign(&val).mul(&T::frac_pi_2())
        } else {
            val.asin()
        }
    }

    /// The yaw angle of the rotation.
    pub fn yaw(&self) -> (r: T)
        ensures
            r == self@.yaw(),
    {
        let x = &self.arr.x;
        let y = &self.arr.y;
        let z = &self.arr.z;
        let w = &self.arr.w;
        w.mul(z).add(&x.mul(y)).mul(&T::two()).atan2(
            &T::one().sub(&y.mul(y).add(&z.mul(z)).mul(&T::two())),
        )
    }

    /// The composition `self ⊗ q`: the rotation that applies `q` first and
    /// `self` second.
    pub fn otimes(&self, q: SO3<T>) -> (r: SO3<T>)
        ensures
            r@ == self@.otimes(q@),
            forall|val: spec_fn(T) -> real|
                #[trigger] crate::scalar::exact_field::<T>(val) && self@.is_unit(val) && q@.is_unit(
                    val,
                ) ==> r@.is_unit(val) && r@.val(val) == self@.val(val).times(q@.val(val)),
    {
        proof {
            assert forall|val: spec_fn(T) -> real| #[trigger]
                crate::scalar::exact_field::<T>(val) && self@.is_unit(val) && q@.is_unit(
                    val,
                ) implies self@.otimes(q@).is_unit(val) && self@.otimes(q@).val(val)
                == self@.val(val).times(q@.val(val)) by {
                crate::laws::lemma_otimes_val(val, self@, q@);
            }
        }
        let self_x = &self.arr.x;
        let self_y = &self.arr.y;
        let self_z = &self.arr.z;
        let self_w = &self.arr.w;
        let q_x = &q.arr.x;
        let q_y = &q.arr.y;
        let q_z = &q.arr.z;
        let q_w = &q.arr.w;
        let product = Quat {
            w: self_w.mul(q_w).sub(&self_x.mul(q_x)).sub(&self_y.mul(q_y)).sub(&self_z.mul(q_z)),
            x: self_w.mul(q_x).add(&self_x.mul(q_w)).add(&self_y.mul(q_z)).sub(&self_z.mul(q_y)),
            y: self_w.mul(q_y).sub(&self_x.mul(q_z)).add(&self_y.mul(q_w)).add(&self_z.mul(q_x)),
            z: self_w.mul(q_z).add(&self_x.mul(q_y)).sub(&self_y.mul(q_x)).add(&self_z.mul(q_w)),
        };
        SO3 { arr: product.normalize() }
    }

    /// The image of the vector `v` under the rotation. The result is not
    /// rescaled.
    pub fn rotate(&self, v: &Vector3<T>) -> (r: Vector3<T>)
        ensures
            r == self@.rotate(*v),
            forall|val: spec_fn(T) -> real|
                #[trigger] crate::scalar::exact_field::<T>(val) ==> r.val(val) ==
                    self@.val(val).rotate(v.val(val)),
    {
        proof {
            assert forall|val: spec_fn(T) -> real| #[trigger] crate::scalar::exact_field::<T>(val)
                implies self@.rotate(*v).val(val) == self@.val(val).rotate(v.val(val)) by {
                crate::laws::lemma_rotate_val(val, self@, *v);
            }
        }
        let one = T::one();
        let two = T::two();
        let qxx = self.arr.x.mul(&self.arr.x);
        let qxy = self.arr.x.mul(&self.arr.y);
        let qxz = self.arr.x.mul(&self.arr.z);
        let qyy = self.arr.y.mul(&self.arr.y);
        let qyz = self.arr.y.mul(&self.arr.z);
        let qzz = self.arr.z.mul(&self.arr.z);
        let qwx = self.arr.w.mul(&self.arr.x);
        let qwy = self.arr.w.mul(&self.arr.y);
        let qwz = self.arr.w.mul(&self.arr.z);
        Vector3 {
            x: one.sub(&qyy.mul(&two)).sub(&qzz.mul(&two)).mul(&v.x).add(
                &qxy.mul(&two).sub(&qwz.mul(&two)).mul(&v.y),
            ).add(&qxz.add(&qwy).mul(&two).mul(&v.z)),
            y: qxy.add(&qwz).mul(&two).mul(&v.x).add(
                &one.sub(&qxx.add(&qzz).mul(&two)).mul(&v.y),
            ).add(&qyz.sub(&qwx).mul(&two).mul(&v.z)),
            z: qxz.sub(&qwy).mul(&two).mul(&v.x).add(&qyz.add(&qwx).mul(&two).mul(&v.y)).add(
                &one.sub(&qxx.add(&qyy).mul(&two)).mul(&v.z),
            ),
        }
    }
}

impl<T: Scalar> core::ops::Mul<SO3<T>> for SO3<T> {
    type Output = SO3<T>;

    /// `self ⊗ rhs`.
    fn mul(self, rhs: SO3<T>) -> (r: SO3<T>)
        ensures
            r@ == self@.otimes(rhs@),
    {
        self.otimes(rhs)
    }
}

impl<T: Scalar> vstd::std_specs::ops::MulSpecImpl<SO3<T>> for SO3<T> {
    open spec fn obeys_mul_spec() -> bool {
        true
    }

    open spec fn mul_req(self, rhs: SO3<T>) -> bool {
        true
    }

    closed spec fn mul_spec(self, rhs: SO3<T>) -> SO3<T> {
        SO3 { arr: self.arr.otimes(rhs.arr) }
    }
}

impl<T: Scalar> core::ops::Mul<Vector3<T>> for SO3<T> {
    type Output = Vector3<T>;

    /// The image of `rhs` under the rotation.
    fn mul(self, rhs: Vector3<T>) -> (r: Vector3<T>)
        ensures
            r == self@.rotate(rhs),
    {
        self.rotate(&rhs)
    }
}

impl<T: Scalar> vstd::std_specs::ops::MulSpecImpl<Vector3<T>> for SO3<T> {
    open spec fn obeys_mul_spec() -> bool {
        true
    }

    open spec fn mul_req(self, rhs: Vector3<T>) -> bool {
        true
    }

    open spec fn mul_spec(self, rhs: Vector3<T>) -> Vector3<T> {
        self@.rotate(rhs)
    }
}

} // verus!
