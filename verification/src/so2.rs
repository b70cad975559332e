//! Rotations of the plane as unit complex numbers.

use crate::linalg::{Complex, Matrix2};
use crate::scalar::Scalar;
use vstd::prelude::*;

verus! {

impl<T: Scalar> Complex<T> {
    /// The complex number `1`.
    pub open spec fn identity() -> Complex<T> {
        Complex { w: T::one_spec(), x: T::zero_spec() }
    }

    /// The point of the unit circle at `angle`: `(cos angle, sin angle)`.
    pub open spec fn from_angle(angle: T) -> Complex<T> {
        Complex { w: angle.cos_spec(), x: angle.sin_spec() }
    }

    /// The first column of `m`, scaled to unit norm.
    pub open spec fn from_matrix(m: Matrix2<T>) -> Complex<T> {
        (Complex { w: m.m11, x: m.m21 }).normalized()
    }

    /// The complex product `self · q`.
    pub open spec fn product(self, q: Complex<T>) -> Complex<T> {
        Complex {
            w: self.w.mul_spec(q.w).sub_spec(self.x.mul_spec(q.x)),
            x: self.w.mul_spec(q.x).add_spec(self.x.mul_spec(q.w)),
        }
    }

    /// The composition of two rotations: their product, scaled back to unit
    /// norm.
    pub open spec fn otimes(self, q: Complex<T>) -> Complex<T> {
        self.product(q).normalized()
    }

    /// `atan2(x, w)`.
    pub open spec fn angle(self) -> T {
        self.x.atan2_spec(self.w)
    }
}

/// A rotation of the plane, held as a complex number `(w, x)` of unit norm:
/// the cosine and the sine of the rotation angle.
#[derive(Clone, Copy, Debug, PartialEq)]
pub struct SO2<T: Scalar> {
    arr: Complex<T>,
}

impl<T: Scalar> View for SO2<T> {
    type V = Complex<T>;

    /// The two components.
    closed spec fn view(&self) -> Complex<T> {
        self.arr
    }
}

impl<T: Scalar> Default for SO2<T> {
    /// The identity rotation.
    fn default() -> (r: SO2<T>)
        ensures
            r@ == Complex::<T>::identity(),
    {
        SO2::identity()
    }
}

impl<T: Scalar> SO2<T> {
    /// Takes `q` as the components of a rotation. The caller answers for its
    /// unit norm: the components are stored as they are.
    pub fn new(q: Complex<T>) -> (r: SO2<T>)
        ensures
            r@ == q,
    {
        SO2 { arr: q }
    }

    /// The rotation that moves nothing, `(1, 0)`.
    pub fn identity() -> (r: SO2<T>)
        ensures
            r@ == Complex::<T>::identity(),
            forall|val: spec_fn(T) -> real|
                #[trigger] crate::scalar::exact_field::<T>(val) ==> r@.is_unit(val),
    {
        proof {
            assert forall|val: spec_fn(T) -> real| #[trigger] crate::scalar::exact_field::<T>(val)
                implies Complex::<T>::identity().is_unit(val) by {
                crate::laws::lemma_complex_identity_val::<T>(val);
            }
        }
        SO2 { arr: Complex { w: T::one(), x: T::zero() } }
    }

    /// The rotation by `angle` radians. Its components are the cosine and the
    /// sine as computed; they are not rescaled.
    #[allow(non_snake_case)]
    pub fn fromAngle(angle: T) -> (r: SO2<T>)
        ensures
            r@ == Complex::from_angle(angle),
            forall|val: spec_fn(T) -> real|
                #[trigger] crate::scalar::exact_trig::<T>(val) ==> r@.is_unit(val),
    {
        proof {
            assert forall|val: spec_fn(T) -> real| #[trigger] crate::scalar::exact_trig::<T>(val)
                implies Complex::from_angle(angle).is_unit(val) by {
                crate::laws::lemma_from_angle_unit(val, angle);
            }
        }
        let c = angle.cos();
        let s = angle.sin();
        SO2 { arr: Complex { w: c, x: s } }
    }

    /// The rotation whose matrix is `m`, read from the first column of `m`,
    /// which must not be zero.
    #[allow(non_snake_case)]
    pub fn fromR(m: Matrix2<T>) -> (r: SO2<T>)
        requires
            !(m.m11.is_zero_spec() && m.m21.is_zero_spec()),
        ensures
            r@ == Complex::from_matrix(m),
            forall|val: spec_fn(T) -> real|
                #[trigger] crate::scalar::exact_field::<T>(val) ==> r@.is_unit(val),
    {
        proof {
            assert forall|val: spec_fn(T) -> real| #[trigger] crate::scalar::exact_field::<T>(val)
                implies Complex::from_matrix(m).is_unit(val) by {
                crate::laws::lemma_from_matrix_unit(val, m);
            }
        }
        let column = Complex { w: m.m11, x: m.m21 };
        SO2 { arr: column.normalize() }
    }

    /// The rotation along the complex number `qw + qx·i`, which must not be
    /// zero.
    #[allow(non_snake_case)]
    pub fn fromComplex(qw: T, qx: T) -> (r: SO2<T>)
        requires
            !(qw.is_zero_spec() && qx.is_zero_spec()),
        ensures
            r@ == (Complex { w: qw, x: qx }).normalized(),
            forall|val: spec_fn(T) -> real|
                #[trigger] crate::scalar::exact_field::<T>(val) ==> r@.is_unit(val),
    {
        proof {
            assert forall|val: spec_fn(T) -> real| #[trigger] crate::scalar::exact_field::<T>(val)
                implies (Complex { w: qw, x: qx }).normalized().is_unit(val) by {
                crate::laws::lemma_complex_normalized(val, Complex { w: qw, x: qx });
            }
        }
        let q = Complex { w: qw, x: qx };
        SO2 { arr: q.normalize() }
    }

    /// The real part, the cosine of the rotation angle.
    pub fn w(&self) -> (r: &T)
        ensures
            *r == self@.w,
    {
        &self.arr.w
    }

    /// The imaginary part, the sine of the rotation angle.
    pub fn x(&self) -> (r: &T)
        ensures
            *r == self@.x,
    {
        &self.arr.x
    }

    /// The rotation angle, in `(-π, π]`.
    pub fn angle(&self) -> (r: T)
        ensures
            r == self@.angle(),
    {
        self.arr.x.atan2(&self.arr.w)
    }

    /// The composition `self ⊗ q`: the rotation by the sum of the two angles.
    pub fn otimes(&self, q: SO2<T>) -> (r: SO2<T>)
        ensures
            r@ == self@.otimes(q@),
            forall|val: spec_fn(T) -> real|
                #[trigger] crate::scalar::exact_field::<T>(val) && self@.is_unit(val) && q@.is_unit(
                    val,
                ) ==> r@.is_unit(val) && r@.val(val) == self@.val(val).times(q@.val(val)),
    {
        proof {
            assert forall|val: spec_fn(T) -> real| #[trigger]
                crate::scalar::exact_field::<T>(val) && self@.is_unit(val) && q@.is_unit(
                    val,
                ) implies self@.otimes(q@).is_unit(val) && self@.otimes(q@).val(val)
                == self@.val(val).times(q@.val(val)) by {
                crate::laws::lemma_complex_otimes_val(val, self@, q@);
            }
        }
        let product = Complex {
            w: self.arr.w.mul(&q.arr.w).sub(&self.arr.x.mul(&q.arr.x)),
            x: self.arr.w.mul(&q.arr.x).add(&self.arr.x.mul(&q.arr.w)),
        };
        SO2 { arr: product.normalize() }
    }
}

} // verus!
