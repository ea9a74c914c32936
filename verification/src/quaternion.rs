//! Quaternions over an abstract scalar, and axis-angle rotation.
//!
//! A [`Quaternion`] is a scalar ("real") part paired with a three-component
//! vector ("imaginary") part.  Of unit magnitude it represents a 3D
//! rotation; with a zero scalar part it embeds a plain 3-vector for the
//! duration of one rotation composition (a "pure" quaternion).
//!
//! Every operation carries a contract that pins its result down to a
//! `spec` model over the scalar operations.  Where the source of a
//! division would be a zero magnitude ([`Quaternion::normalize`] and
//! [`Quaternion::inverse`]), the value is left unchanged instead: the one
//! explicit edge-case policy of this library, applied consistently.

use vstd::prelude::*;

use crate::base::Float;
use crate::vector::{Vec3, VectorOps};

verus! {

/// A scalar part plus a three-component vector part.
#[derive(Clone, Copy, Debug, PartialEq)]
pub struct Quaternion<T: Float> {
    pub scalar: T,
    pub vector: Vec3<T>,
}

impl<T: Float> Quaternion<T> {
    /// Model of the Hamilton product: the scalar part is
    /// `s1 * s2 - v1 . v2`, the vector part is
    /// `v2 * s1 + v1 * s2 + v1 x v2`.  Not commutative.
    pub open spec fn spec_product(self, q: Self) -> Self {
        Quaternion {
            scalar: self.scalar.spec_mul(q.scalar).spec_sub(self.vector.spec_dot(q.vector)),
            vector: q.vector.spec_scale(self.scalar).spec_add(
                self.vector.spec_scale(q.scalar),
            ).spec_add(self.vector.spec_cross(q.vector)),
        }
    }

    /// Model of the magnitude: `sqrt(scalar^2 + vector . vector)`.
    pub open spec fn spec_magnitude(self) -> T {
        self.scalar.spec_mul(self.scalar).spec_add(
            self.vector.spec_dot(self.vector),
        ).spec_sqrt()
    }

    /// Model of normalization: both parts multiplied by the reciprocal of
    /// the magnitude, except that a quaternion of zero magnitude is left
    /// unchanged.
    pub open spec fn spec_normalized(self) -> Self {
        let mag = self.spec_magnitude();
        if mag == T::spec_zero() {
            self
        } else {
            let mag_value = T::spec_one().spec_div(mag);
            Quaternion {
                scalar: self.scalar.spec_mul(mag_value),
                vector: self.vector.spec_scale(mag_value),
            }
        }
    }

    /// Model of the axis-angle construction: the current scalar part is
    /// read as an angle in degrees and the vector part as a rotation axis;
    /// the result is the unit quaternion for rotation by that angle about
    /// the normalized axis, built from the half angle.
    pub open spec fn spec_unit_norm(self) -> Self {
        let half = self.scalar.spec_to_radians().spec_mul(T::spec_one_half());
        Quaternion {
            scalar: half.spec_cos(),
            vector: self.vector.spec_normalize().spec_scale(half.spec_sin()),
        }
    }

    /// Model of the conjugate: the scalar part unchanged, the vector part
    /// multiplied by negative one.
    pub open spec fn spec_conjugate(self) -> Self {
        Quaternion {
            scalar: self.scalar,
            vector: self.vector.spec_scale(T::spec_neg_one()),
        }
    }

    /// Model of the inverse: the conjugate divided by the squared
    /// magnitude, except that a quaternion of zero magnitude is left
    /// unchanged.
    pub open spec fn spec_inverse(self) -> Self {
        let mag = self.spec_magnitude();
        if mag == T::spec_zero() {
            self
        } else {
            let absolute_value = T::spec_one().spec_div(mag.spec_mul(mag));
            let conjugate_value = self.spec_conjugate();
            Quaternion {
                scalar: conjugate_value.scalar.spec_mul(absolute_value),
                vector: conjugate_value.vector.spec_scale(absolute_value),
            }
        }
    }

    /// Model of component-wise addition of the (scalar, vector) pairs.
    pub open spec fn spec_add(self, q: Self) -> Self {
        Quaternion {
            scalar: self.scalar.spec_add(q.scalar),
            vector: self.vector.spec_add(q.vector),
        }
    }

    /// Model of component-wise subtraction of the (scalar, vector) pairs.
    pub open spec fn spec_sub(self, q: Self) -> Self {
        Quaternion {
            scalar: self.scalar.spec_sub(q.scalar),
            vector: self.vector.spec_sub(q.vector),
        }
    }

    /// Model of the uniform scale of both parts by a plain scalar.
    pub open spec fn spec_scale(self, factor: T) -> Self {
        Quaternion {
            scalar: self.scalar.spec_mul(factor),
            vector: self.vector.spec_scale(factor),
        }
    }

    /// Builds a quaternion from its parts; no normalization is performed,
    /// so callers that need a unit quaternion must normalize explicitly.
    pub fn new(scalar: T, vector: Vec3<T>) -> (r: Self)
        ensures
            r == (Quaternion { scalar, vector }),
    {
        Self { scalar, vector }
    }

    /// The Hamilton product `self * q`.
    pub fn product(&self, q: &Quaternion<T>) -> (r: Self)
        ensures
            r == self.spec_product(*q),
    {
        let scalar = self.scalar.mul(q.scalar).sub(self.vector.dot(q.vector));
        let imaginary = q.vector.scale(self.scalar).add(
            self.vector.scale(q.scalar),
        ).add(self.vector.cross(q.vector));

        Self { scalar, vector: imaginary }
    }

    /// The magnitude `sqrt(scalar^2 + vector . vector)`.
    pub fn magnitude(&self) -> (r: T)
        ensures
            r == self.spec_magnitude(),
    {
        let scalar = self.scalar.mul(self.scalar);
        let imaginary = self.vector.dot(self.vector);

        scalar.add(imaginary).sqrt()
    }

    /// Scales both parts in place by the reciprocal of the magnitude; a
    /// quaternion of zero magnitude is left unchanged.
    pub fn normalize(&mut self)
        ensures
            *final(self) == old(self).spec_normalized(),
    {
        let mag = self.magnitude();
        if !mag.is_zero() {
            let mag_value = T::one().div(mag);

            self.scalar = self.scalar.mul(mag_value);
            self.vector = self.vector.scale(mag_value);
        }
    }

    /// Reads the current scalar part as an angle in degrees and the vector
    /// part as a rotation axis, and replaces `self` with the unit
    /// quaternion for rotation by that angle about the normalized axis.
    pub fn unit_norm(&mut self)
        ensures
            *final(self) == old(self).spec_unit_norm(),
    {
        let angle = self.scalar.to_radians();
        self.vector = self.vector.normalize();

        self.scalar = angle.mul(T::one_half()).cos();
        self.vector = self.vector.scale(angle.mul(T::one_half()).sin());
    }

    /// The conjugate: scalar part unchanged, vector part negated.
    pub fn conjugate(&self) -> (r: Self)
        ensures
            r == self.spec_conjugate(),
    {
        let scalar = self.scalar;
        let imaginary = self.vector.scale(T::neg_one());

        Self { scalar, vector: imaginary }
    }

    /// The inverse: the conjugate divided by the squared magnitude; a
    /// quaternion of zero magnitude is returned unchanged, consistent with
    /// [`Quaternion::normalize`].
    pub fn inverse(&self) -> (r: Self)
        ensures
            r == self.spec_inverse(),
    {
        let mag = self.magnitude();
        if mag.is_zero() {
            return *self;
        }
        let absolute_value = T::one().div(mag.mul(mag));

        let conjugate_value = self.conjugate();

        let scalar = conjugate_value.scalar.mul(absolute_value);
        let imaginary = conjugate_value.vector.scale(absolute_value);

        Self { scalar, vector: imaginary }
    }

    /// Component-wise sum of the (scalar, vector) pairs.
    pub fn add(self, rhs: Self) -> (r: Self)
        ensures
            r == self.spec_add(rhs),
    {
        Self { scalar: self.scalar.add(rhs.scalar), vector: self.vector.add(rhs.vector) }
    }

    /// Component-wise difference of the (scalar, vector) pairs.
    pub fn sub(self, rhs: Self) -> (r: Self)
        ensures
            r == self.spec_sub(rhs),
    {
        Self { scalar: self.scalar.sub(rhs.scalar), vector: self.vector.sub(rhs.vector) }
    }

    /// Both parts multiplied by a plain scalar factor.
    pub fn scale(self, factor: T) -> (r: Self)
        ensures
            r == self.spec_scale(factor),
    {
        Self { scalar: self.scalar.mul(factor), vector: self.vector.scale(factor) }
    }

    /// Replaces `self` with `self + rhs`.
    pub fn add_assign(&mut self, rhs: Self)
        ensures
            *final(self) == old(self).spec_add(rhs),
    {
        *self = (*self).add(rhs);
    }

    /// Replaces `self` with `self - rhs`.
    pub fn sub_assign(&mut self, rhs: Self)
        ensures
            *final(self) == old(self).spec_sub(rhs),
    {
        *self = (*self).sub(rhs);
    }

    /// Replaces `self` with the Hamilton product `self * rhs`.
    pub fn mul_assign(&mut self, rhs: Self)
        ensures
            *final(self) == old(self).spec_product(rhs),
    {
        *self = self.product(&rhs);
    }
}

/// Model of [`rotate_on_axis`]: the vector is embedded as a pure
/// quaternion `p`, the axis is normalized, the rotation quaternion `q` is
/// built from the angle (in degrees) and the axis by the half-angle
/// construction, and the result is the vector part of `(q * p) * q^-1`.
pub open spec fn spec_rotate_on_axis<T: Float>(
    starting_vector: Vec3<T>,
    angle: T,
    axis: Vec3<T>,
) -> Vec3<T> {
    let pure_quaternion = Quaternion { scalar: T::spec_zero(), vector: starting_vector };
    let real_quaternion = (Quaternion {
        scalar: angle,
        vector: axis.spec_normalize(),
    }).spec_unit_norm();
    real_quaternion.spec_product(pure_quaternion).spec_product(
        real_quaternion.spec_inverse(),
    ).vector
}

/// Rotates `starting_vector` by `angle` degrees about `axis`, following
/// the right-hand rule.  The product order is `(q * p) * q^-1`: the
/// Hamilton product is not associative with respect to evaluation order
/// here, so the left product is taken first.
pub fn rotate_on_axis<T: Float>(starting_vector: Vec3<T>, angle: T, axis: Vec3<T>) -> (r: Vec3<
    T,
>)
    ensures
        r == spec_rotate_on_axis(starting_vector, angle, axis),
{
    let pure_quaternion = Quaternion::new(T::zero(), starting_vector);

    let axis = axis.normalize();

    let mut real_quaternion = Quaternion::new(angle, axis);

    real_quaternion.unit_norm();

    let inverse = real_quaternion.inverse();

    let rotated_vector = real_quaternion.product(&pure_quaternion).product(&inverse);

    rotated_vector.vector
}

/// Law: taking the conjugate twice returns the original quaternion
/// exactly, for any scalar on which multiplying twice by negative one is
/// the identity.
pub proof fn lemma_quaternion_conjugate_involutive<T: Float>(q: Quaternion<T>)
    requires
        forall|a: T|
            #[trigger] a.spec_mul(T::spec_neg_one()).spec_mul(T::spec_neg_one()) == a,
    ensures
        q.spec_conjugate().spec_conjugate() == q,
{
}

/// Law: normalizing a quaternion of zero magnitude leaves it unchanged;
/// the explicit guard against a division by zero.
pub proof fn lemma_quaternion_normalize_zero_guard<T: Float>(q: Quaternion<T>)
    requires
        q.spec_magnitude() == T::spec_zero(),
    ensures
        q.spec_normalized() == q,
{
}

/// Law: inverting a quaternion of zero magnitude leaves it unchanged; the
/// same guard policy as for normalization.
pub proof fn lemma_quaternion_inverse_zero_guard<T: Float>(q: Quaternion<T>)
    requires
        q.spec_magnitude() == T::spec_zero(),
    ensures
        q.spec_inverse() == q,
{
}

} // verus!
