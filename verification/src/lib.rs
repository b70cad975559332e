//! Unit-norm representations of planar and spatial rotations over an abstract
//! real scalar.
//!
//! [`SO2`] holds a rotation of the plane as a unit complex number, [`SO3`] a
//! rotation of space as a unit quaternion. Both are generic over a [`Scalar`]
//! and are immutable values: every operation returns a new rotation.
//!
//! The contract of every operation names the scalar operations that it
//! performs, in their order. What these amount to over the real numbers, the
//! group laws among them, is proved in [`laws`] from the algebra of real
//! complex numbers and quaternions in [`algebra`] and [`euler`].

pub mod algebra;
pub mod euler;
pub mod laws;
pub mod linalg;
pub mod scalar;
pub mod so2;
pub mod so3;

pub use crate::linalg::{Complex, Matrix2, Quat, Vector3};
pub use crate::scalar::Scalar;
pub use crate::so2::SO2;
pub use crate::so3::SO3;
