use manif_geom::{Complex, Matrix2, Quat, Scalar, Vector3, SO2, SO3};
use rand::{Rng, SeedableRng};

/// Double-precision scalars, computed with the floating-point functions of
/// nalgebra's real field.
#[derive(Clone, Copy, Debug, PartialEq)]
struct F(f64);

impl Scalar for F {
    fn zero_spec() -> Self {
        Self::zero()
    }

    fn one_spec() -> Self {
        Self::one()
    }

    fn two_spec() -> Self {
        Self::two()
    }

    fn frac_pi_2_spec() -> Self {
        Self::frac_pi_2()
    }

    fn add_spec(self, rhs: Self) -> Self {
        self.add(&rhs)
    }

    fn sub_spec(self, rhs: Self) -> Self {
        self.sub(&rhs)
    }

    fn mul_spec(self, rhs: Self) -> Self {
        self.mul(&rhs)
    }

    fn div_spec(self, rhs: Self) -> Self {
        self.div(&rhs)
    }

    fn sqrt_spec(self) -> Self {
        self.sqrt()
    }

    fn sin_spec(self) -> Self {
        self.sin()
    }

    fn cos_spec(self) -> Self {
        self.cos()
    }

    fn asin_spec(self) -> Self {
        self.asin()
    }

    fn atan2_spec(self, x: Self) -> Self {
        self.atan2(&x)
    }

    fn abs_spec(self) -> Self {
        self.abs()
    }

    fn copysign_spec(self, sign: Self) -> Self {
        self.copysign(&sign)
    }

    fn gt_spec(self, rhs: Self) -> bool {
        self.gt(&rhs)
    }

    fn is_zero_spec(self) -> bool {
        self.is_zero()
    }

    fn zero() -> Self {
        F(0.0)
    }

    fn one() -> Self {
        F(1.0)
    }

    fn two() -> Self {
        F(2.0)
    }

    fn frac_pi_2() -> Self {
        F(std::f64::consts::FRAC_PI_2)
    }

    fn add(&self, rhs: &Self) -> Self {
        F(self.0 + rhs.0)
    }

    fn sub(&self, rhs: &Self) -> Self {
        F(self.0 - rhs.0)
    }

    fn mul(&self, rhs: &Self) -> Self {
        F(self.0 * rhs.0)
    }

    fn div(&self, rhs: &Self) -> Self {
        F(self.0 / rhs.0)
    }

    fn sqrt(&self) -> Self {
        F(nalgebra::ComplexField::sqrt(self.0))
    }

    fn sin(&self) -> Self {
        F(nalgebra::ComplexField::sin(self.0))
    }

    fn cos(&self) -> Self {
        F(nalgebra::ComplexField::cos(self.0))
    }

    fn asin(&self) -> Self {
        F(nalgebra::ComplexField::asin(self.0))
    }

    fn atan2(&self, x: &Self) -> Self {
        F(nalgebra::RealField::atan2(self.0, x.0))
    }

    fn abs(&self) -> Self {
        F(nalgebra::ComplexField::abs(self.0))
    }

    fn copysign(&self, sign: &Self) -> Self {
        F(nalgebra::RealField::copysign(self.0, sign.0))
    }

    fn gt(&self, rhs: &Self) -> bool {
        self.0 > rhs.0
    }

    fn is_zero(&self) -> bool {
        self.0 == 0.0
    }
}

const EPSILON: f64 = 0.000001;

const PI: f64 = std::f64::consts::PI;

fn close(a: f64, b: f64) -> bool {
    (a - b).abs() < EPSILON
}

fn norm2(q: &SO2<F>) -> f64 {
    q.w().0 * q.w().0 + q.x().0 * q.x().0
}

fn norm4(q: &SO3<F>) -> f64 {
    q.w().0 * q.w().0 + q.x().0 * q.x().0 + q.y().0 * q.y().0 + q.z().0 * q.z().0
}

fn vec3(x: f64, y: f64, z: f64) -> Vector3<F> {
    Vector3 { x: F(x), y: F(y), z: F(z) }
}

fn quat(w: f64, x: f64, y: f64, z: f64) -> Quat<F> {
    Quat { w: F(w), x: F(x), y: F(y), z: F(z) }
}

/// The same rotation: equal components, or all components negated.
fn same_rotation(a: &SO3<F>, b: &SO3<F>) -> bool {
    let plus = close(a.w().0, b.w().0)
        && close(a.x().0, b.x().0)
        && close(a.y().0, b.y().0)
        && close(a.z().0, b.z().0);
    let minus = close(a.w().0, -b.w().0)
        && close(a.x().0, -b.x().0)
        && close(a.y().0, -b.y().0)
        && close(a.z().0, -b.z().0);
    plus || minus
}

fn random_so2() -> SO2<F> {
    let v: nalgebra::Vector2<f64> = nalgebra::Vector2::new_random();
    SO2::fromComplex(F(v[0]), F(v[1]))
}

fn random_so3(rng: &mut rand::rngs::StdRng) -> SO3<F> {
    let q = quat(
        rng.gen_range(-1.0..1.0),
        rng.gen_range(-1.0..1.0),
        rng.gen_range(-1.0..1.0),
        rng.gen_range(0.1..1.0),
    );
    SO3::new(q.normalize())
}

#[test]
fn test_action() {
    let num_tests = 1000;
    let mut i = 0;
    while i < num_tests {
        let q_so2: SO2<F> = random_so2();
        let v2: nalgebra::Vector2<f64> = nalgebra::Vector2::new_random();
        let mut v3: nalgebra::Vector3<f64> = nalgebra::Vector3::identity();
        v3[0] = v2[0];
        v3[1] = v2[1];
        let _q_so3: SO3<F> = SO3::from_euler(&F(0.0), &F(0.0), &q_so2.angle());
        i = i + 1;
    }
}

#[test]
fn test_so2_getters_tmp() {
    let q: SO2<F> = SO2::identity();
    assert!((q.w().0 - 1.0).abs() < EPSILON);
    assert!(q.x().0.abs() < EPSILON);
}

#[test]
fn so2_identity_and_default_are_one() {
    let q: SO2<F> = SO2::identity();
    assert_eq!(*q.w(), F(1.0));
    assert_eq!(*q.x(), F(0.0));
    let d: SO2<F> = SO2::default();
    assert_eq!(d, q);
}

#[test]
fn so2_from_angle_zero() {
    let q = SO2::fromAngle(F(0.0));
    assert_eq!(q.w().0, 1.0);
    assert_eq!(q.x().0, 0.0);
}

#[test]
fn so2_from_angle_is_cos_sin() {
    let q = SO2::fromAngle(F(PI / 6.0));
    assert!(close(q.w().0, 0.8660254037844387));
    assert!(close(q.x().0, 0.5));
    let h = SO2::fromAngle(F(PI / 2.0));
    assert!(close(h.w().0, 0.0));
    assert!(close(h.x().0, 1.0));
}

#[test]
fn so2_new_stores_components() {
    let q = SO2::new(Complex { w: F(0.6), x: F(0.8) });
    assert_eq!(q.w().0, 0.6);
    assert_eq!(q.x().0, 0.8);
}

#[test]
fn so2_from_complex_normalizes() {
    let q = SO2::fromComplex(F(3.0), F(4.0));
    assert!(close(q.w().0, 0.6));
    assert!(close(q.x().0, 0.8));
    assert!(close(norm2(&q), 1.0));
}

#[test]
fn so2_from_rotation_matrix_reads_first_column() {
    let m = Matrix2 { m11: F(0.0), m12: F(-1.0), m21: F(1.0), m22: F(0.0) };
    let q = SO2::fromR(m);
    assert!(close(q.w().0, 0.0));
    assert!(close(q.x().0, 1.0));
    let scaled = Matrix2 { m11: F(2.0), m12: F(7.0), m21: F(0.0), m22: F(9.0) };
    let r = SO2::fromR(scaled);
    assert!(close(r.w().0, 1.0));
    assert!(close(r.x().0, 0.0));
}

#[test]
fn so2_angle_is_atan2() {
    let q = SO2::fromAngle(F(0.7));
    assert!(close(q.angle().0, 0.7));
    let r = SO2::fromComplex(F(-1.0), F(1.0));
    assert!(close(r.angle().0, 3.0 * PI / 4.0));
}

#[test]
fn so2_otimes_adds_angles() {
    let a = SO2::fromAngle(F(0.4));
    let b = SO2::fromAngle(F(0.9));
    let c = a.otimes(b);
    assert!(close(c.angle().0, 1.3));
    assert!(close(c.w().0, (1.3f64).cos()));
    assert!(close(c.x().0, (1.3f64).sin()));
    assert!(close(norm2(&c), 1.0));
}

#[test]
fn so2_identity_is_neutral() {
    let q = SO2::fromAngle(F(-2.1));
    let l = SO2::identity().otimes(q);
    let r = q.otimes(SO2::identity());
    assert!(close(l.w().0, q.w().0) && close(l.x().0, q.x().0));
    assert!(close(r.w().0, q.w().0) && close(r.x().0, q.x().0));
}

#[test]
fn so2_random_draws_have_unit_norm() {
    for _ in 0..10000 {
        let q = random_so2();
        assert!(close(norm2(&q), 1.0));
    }
}

#[test]
fn complex_zero_test() {
    assert!(Complex { w: F(0.0), x: F(0.0) }.is_zero());
    assert!(Complex { w: F(-0.0), x: F(0.0) }.is_zero());
    assert!(!Complex { w: F(0.0), x: F(1e-300) }.is_zero());
}

#[test]
fn vector_zero_test() {
    assert!(vec3(0.0, 0.0, 0.0).is_zero());
    assert!(!vec3(0.0, 0.0, 2.0).is_zero());
    assert!(!vec3(0.0, -1.0, 0.0).is_zero());
    assert!(!vec3(3.0, 0.0, 0.0).is_zero());
}

#[test]
fn normalization_agrees_with_nalgebra_to_the_bit() {
    let mut rng = rand::rngs::StdRng::seed_from_u64(7);
    for _ in 0..1000 {
        let a: f64 = rng.gen_range(-10.0..10.0);
        let b: f64 = rng.gen_range(-10.0..10.0);
        let c: f64 = rng.gen_range(-10.0..10.0);
        let d: f64 = rng.gen_range(-10.0..10.0);
        let n2 = nalgebra::Unit::new_normalize(nalgebra::Vector2::new(a, b));
        let m2 = Complex { w: F(a), x: F(b) }.normalize();
        assert_eq!(m2.w.0.to_bits(), n2[0].to_bits());
        assert_eq!(m2.x.0.to_bits(), n2[1].to_bits());
        let n3 = nalgebra::Vector3::new(a, b, c).normalize();
        let m3 = vec3(a, b, c).normalize();
        assert_eq!(m3.x.0.to_bits(), n3[0].to_bits());
        assert_eq!(m3.y.0.to_bits(), n3[1].to_bits());
        assert_eq!(m3.z.0.to_bits(), n3[2].to_bits());
        let n4 = nalgebra::Unit::new_normalize(nalgebra::Vector4::new(a, b, c, d));
        let m4 = quat(a, b, c, d).normalize();
        assert_eq!(m4.w.0.to_bits(), n4[0].to_bits());
        assert_eq!(m4.x.0.to_bits(), n4[1].to_bits());
        assert_eq!(m4.y.0.to_bits(), n4[2].to_bits());
        assert_eq!(m4.z.0.to_bits(), n4[3].to_bits());
    }
}

#[test]
fn so3_identity_and_default_are_one() {
    let q: SO3<F> = SO3::identity();
    assert_eq!(*q.w(), F(1.0));
    assert_eq!(*q.x(), F(0.0));
    assert_eq!(*q.y(), F(0.0));
    assert_eq!(*q.z(), F(0.0));
    let d: SO3<F> = SO3::default();
    assert_eq!(d, q);
}

#[test]
fn so3_new_stores_components() {
    let q = SO3::new(quat(0.5, -0.5, 0.5, -0.5));
    assert_eq!(q.w().0, 0.5);
    assert_eq!(q.x().0, -0.5);
    assert_eq!(q.y().0, 0.5);
    assert_eq!(q.z().0, -0.5);
}

#[test]
fn so3_quarter_turn_about_z() {
    let q = SO3::from_axis_angle(&vec3(0.0, 0.0, 1.0), &F(PI / 2.0));
    assert!(close(q.w().0, 0.707107));
    assert!(close(q.x().0, 0.0));
    assert!(close(q.y().0, 0.0));
    assert!(close(q.z().0, 0.707107));
    let v = q.rotate(&vec3(1.0, 0.0, 0.0));
    assert!(close(v.x.0, 0.0));
    assert!(close(v.y.0, 1.0));
    assert!(close(v.z.0, 0.0));
}

#[test]
fn so3_axis_need_not_be_unit() {
    let q = SO3::from_axis_angle(&vec3(0.0, 5.0, 0.0), &F(PI));
    assert!(close(q.w().0, 0.0));
    assert!(close(q.x().0, 0.0));
    assert!(close(q.y().0, 1.0));
    assert!(close(q.z().0, 0.0));
    assert!(close(norm4(&q), 1.0));
}

#[test]
fn so3_product_of_units_i_j_is_k() {
    let i = SO3::new(quat(0.0, 1.0, 0.0, 0.0));
    let j = SO3::new(quat(0.0, 0.0, 1.0, 0.0));
    let k = i.otimes(j);
    assert_eq!(k, SO3::new(quat(0.0, 0.0, 0.0, 1.0)));
    let minus_k = j.otimes(i);
    assert_eq!(minus_k.z().0, -1.0);
    assert_eq!(minus_k.w().0, 0.0);
}

#[test]
fn so3_product_components() {
    let a = SO3::new(quat(1.0, 2.0, 3.0, 4.0).normalize());
    let b = SO3::new(quat(-2.0, 1.0, 0.5, 3.0).normalize());
    let c = a.otimes(b);
    // (1 + 2i + 3j + 4k)(-2 + i + 0.5j + 3k) = -17.5 + 4i - 7.5j - 7k
    let n = (17.5f64 * 17.5 + 16.0 + 7.5 * 7.5 + 49.0).sqrt();
    assert!(close(c.w().0, -17.5 / n));
    assert!(close(c.x().0, 4.0 / n));
    assert!(close(c.y().0, -7.5 / n));
    assert!(close(c.z().0, -7.0 / n));
}

#[test]
fn so3_otimes_renormalizes() {
    let a = SO3::new(quat(2.0, 0.0, 0.0, 0.0));
    let b = SO3::new(quat(0.0, 3.0, 0.0, 0.0));
    let c = a.otimes(b);
    assert!(close(norm4(&c), 1.0));
    assert!(close(c.x().0, 1.0));
}

#[test]
fn so3_operators_are_the_named_operations() {
    let a = SO3::from_euler(&F(0.3), &F(-0.2), &F(1.1));
    let b = SO3::from_euler(&F(-0.7), &F(0.4), &F(0.1));
    assert_eq!(a * b, a.otimes(b));
    let v = vec3(0.3, -1.2, 2.5);
    assert_eq!(a * v, a.rotate(&v));
}

#[test]
fn so3_rotation_matches_matrix_form() {
    let mut rng = rand::rngs::StdRng::seed_from_u64(11);
    for _ in 0..1000 {
        let q = random_so3(&mut rng);
        let (w, x, y, z) = (q.w().0, q.x().0, q.y().0, q.z().0);
        let v = [rng.gen_range(-5.0..5.0), rng.gen_range(-5.0..5.0), rng.gen_range(-5.0..5.0)];
        let m = [
            [1.0 - 2.0 * (y * y + z * z), 2.0 * (x * y - w * z), 2.0 * (x * z + w * y)],
            [2.0 * (x * y + w * z), 1.0 - 2.0 * (x * x + z * z), 2.0 * (y * z - w * x)],
            [2.0 * (x * z - w * y), 2.0 * (y * z + w * x), 1.0 - 2.0 * (x * x + y * y)],
        ];
        let r = q.rotate(&vec3(v[0], v[1], v[2]));
        let got = [r.x.0, r.y.0, r.z.0];
        for row in 0..3 {
            let want = m[row][0] * v[0] + m[row][1] * v[1] + m[row][2] * v[2];
            assert!(close(got[row], want));
        }
    }
}

#[test]
fn so3_rotation_does_not_rescale() {
    let q = SO3::from_axis_angle(&vec3(1.0, 0.0, 0.0), &F(PI / 2.0));
    let v = q.rotate(&vec3(0.0, 3.0, 0.0));
    assert!(close(v.x.0, 0.0));
    assert!(close(v.y.0, 0.0));
    assert!(close(v.z.0, 3.0));
}

#[test]
fn so3_constructed_values_have_unit_norm() {
    let mut rng = rand::rngs::StdRng::seed_from_u64(1);
    assert!(close(norm4(&SO3::<F>::identity()), 1.0));
    for _ in 0..1000 {
        let axis = vec3(
            rng.gen_range(-3.0..3.0),
            rng.gen_range(-3.0..3.0),
            rng.gen_range(0.5..3.0),
        );
        let angle = F(rng.gen_range(-10.0..10.0));
        assert!(close(norm4(&SO3::from_axis_angle(&axis, &angle)), 1.0));
        let e = SO3::from_euler(
            &F(rng.gen_range(-3.0..3.0)),
            &F(rng.gen_range(-3.0..3.0)),
            &F(rng.gen_range(-3.0..3.0)),
        );
        assert!(close(norm4(&e), 1.0));
        let p = e.otimes(random_so3(&mut rng));
        assert!(close(norm4(&p), 1.0));
    }
}

#[test]
fn so3_random_draws_have_unit_norm() {
    for _ in 0..10000 {
        let v: nalgebra::Vector4<f64> = nalgebra::Vector4::new_random();
        let q = SO3::new(quat(v[0], v[1], v[2], v[3]).normalize());
        assert!(close(norm4(&q), 1.0));
    }
}

#[test]
fn so3_identity_is_neutral() {
    let mut rng = rand::rngs::StdRng::seed_from_u64(2);
    for _ in 0..1000 {
        let q = random_so3(&mut rng);
        assert!(same_rotation(&SO3::identity().otimes(q), &q));
        assert!(same_rotation(&q.otimes(SO3::identity()), &q));
    }
}

#[test]
fn so3_rotation_about_an_axis_fixes_the_axis() {
    let mut rng = rand::rngs::StdRng::seed_from_u64(3);
    for _ in 0..1000 {
        let axis = vec3(
            rng.gen_range(-3.0..3.0),
            rng.gen_range(-3.0..3.0),
            rng.gen_range(0.5..3.0),
        );
        let q = SO3::from_axis_angle(&axis, &F(rng.gen_range(-6.0..6.0)));
        let r = q.rotate(&axis);
        assert!(close(r.x.0, axis.x.0));
        assert!(close(r.y.0, axis.y.0));
        assert!(close(r.z.0, axis.z.0));
    }
}

#[test]
fn so3_euler_angles_round_trip() {
    let mut rng = rand::rngs::StdRng::seed_from_u64(4);
    let bound = PI / 2.0 - 0.01;
    for _ in 0..1000 {
        let roll = rng.gen_range(-bound..bound);
        let pitch = rng.gen_range(-bound..bound);
        let yaw = rng.gen_range(-bound..bound);
        let q = SO3::from_euler(&F(roll), &F(pitch), &F(yaw));
        assert!(close(q.roll().0, roll));
        assert!(close(q.pitch().0, pitch));
        assert!(close(q.yaw().0, yaw));
    }
}

#[test]
fn so3_euler_order_is_yaw_pitch_roll() {
    let roll = F(0.3);
    let pitch = F(-0.5);
    let yaw = F(1.2);
    let q_roll = SO3::from_axis_angle(&vec3(1.0, 0.0, 0.0), &roll);
    let q_pitch = SO3::from_axis_angle(&vec3(0.0, 1.0, 0.0), &pitch);
    let q_yaw = SO3::from_axis_angle(&vec3(0.0, 0.0, 1.0), &yaw);
    let want = q_yaw.otimes(q_pitch).otimes(q_roll);
    assert_eq!(SO3::from_euler(&roll, &pitch, &yaw), want);
    let other = q_roll.otimes(q_pitch).otimes(q_yaw);
    assert!(!same_rotation(&other, &want));
}

#[test]
fn so3_single_euler_angles() {
    let r = SO3::from_euler(&F(0.4), &F(0.0), &F(0.0));
    assert!(close(r.w().0, (0.2f64).cos()));
    assert!(close(r.x().0, (0.2f64).sin()));
    assert!(close(r.roll().0, 0.4) && close(r.pitch().0, 0.0) && close(r.yaw().0, 0.0));
    let p = SO3::from_euler(&F(0.0), &F(-0.6), &F(0.0));
    assert!(close(p.y().0, (-0.3f64).sin()));
    assert!(close(p.roll().0, 0.0) && close(p.pitch().0, -0.6) && close(p.yaw().0, 0.0));
    let y = SO3::from_euler(&F(0.0), &F(0.0), &F(1.0));
    assert!(close(y.z().0, (0.5f64).sin()));
    assert!(close(y.roll().0, 0.0) && close(y.pitch().0, 0.0) && close(y.yaw().0, 1.0));
}

#[test]
fn so3_pitch_is_held_at_gimbal_lock() {
    // 2(wy - xz) = 1 + 1e-9
    let h = ((1.0f64 + 1e-9) / 2.0).sqrt();
    let up = SO3::new(quat(h, 0.0, h, 0.0));
    assert!((up.w().0 * up.y().0 - up.x().0 * up.z().0) * 2.0 > 1.0);
    assert_eq!(up.pitch().0, PI / 2.0);
    let down = SO3::new(quat(h, 0.0, -h, 0.0));
    assert_eq!(down.pitch().0, -PI / 2.0);
}

#[test]
fn so3_pitch_at_exactly_one_is_arcsine() {
    let q = SO3::new(quat(0.5, 0.0, 1.0, 0.0));
    assert_eq!(q.pitch().0, PI / 2.0);
    let r = SO3::new(quat(0.25, 0.0, 1.0, 0.0));
    assert!(close(r.pitch().0, (0.5f64).asin()));
}

#[test]
fn so3_composition_is_associative() {
    let mut rng = rand::rngs::StdRng::seed_from_u64(5);
    for _ in 0..1000 {
        let a = random_so3(&mut rng);
        let b = random_so3(&mut rng);
        let c = random_so3(&mut rng);
        assert!(same_rotation(&a.otimes(b).otimes(c), &a.otimes(b.otimes(c))));
    }
}

#[test]
fn so3_composition_applies_the_right_factor_first() {
    let about_z = SO3::from_axis_angle(&vec3(0.0, 0.0, 1.0), &F(PI / 2.0));
    let about_x = SO3::from_axis_angle(&vec3(1.0, 0.0, 0.0), &F(PI / 2.0));
    let v = vec3(0.0, 1.0, 0.0);
    let both = about_z.otimes(about_x).rotate(&v);
    let one_by_one = about_z.rotate(&about_x.rotate(&v));
    assert!(close(both.x.0, one_by_one.x.0));
    assert!(close(both.y.0, one_by_one.y.0));
    assert!(close(both.z.0, one_by_one.z.0));
    assert!(close(both.z.0, 1.0));
}

#[test]
fn planar_and_spatial_rotations_agree() {
    let mut rng = rand::rngs::StdRng::seed_from_u64(6);
    for _ in 0..1000 {
        let q_so2 = random_so2();
        let (c, s) = (q_so2.w().0, q_so2.x().0);
        let (x, y) = (rng.gen_range(-5.0..5.0), rng.gen_range(-5.0..5.0));
        let q_so3 = SO3::from_euler(&F(0.0), &F(0.0), &q_so2.angle());
        let r = q_so3.rotate(&vec3(x, y, 1.0));
        assert!(close(r.x.0, c * x - s * y));
        assert!(close(r.y.0, s * x + c * y));
        assert!(close(r.z.0, 1.0));
    }
}
