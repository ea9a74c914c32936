//! Small stack-allocated linear-algebra primitives: fixed-arity vectors,
//! square matrices and a quaternion, generic over an abstract scalar.
//!
//! Every operation carries a contract that pins its result down to the
//! scalar operations of the [`base::Float`] capability trait.  The scalar
//! itself is abstract: a host application supplies an implementation (for
//! example a wrapper around a machine floating-point type), and everything
//! proved here holds for any scalar the host plugs in.

pub mod base;
pub mod matrix;
pub mod quaternion;
pub mod vector;

pub use base::Float;
pub use matrix::{Column, Mat2, Mat3, Mat4, MatrixOps, Row};
pub use quaternion::{rotate_on_axis, Quaternion};
pub use vector::{Vec2, Vec3, Vec4, VectorOps};
