//! Fixed-arity vectors over an abstract scalar.
//!
//! `Vec2`, `Vec3` and `Vec4` are plain value types: an ordered tuple of
//! scalars with named components.  The shared operations live in the
//! [`VectorOps`] trait, which carries an abstract `spec` model of every
//! operation; each arity's implementation defines the model component-wise
//! and proves the executable code against it.  The free functions at the
//! top of this module are the function-style entry points over any
//! [`VectorOps`] type.

use vstd::prelude::*;

use crate::base::Float;

use vstd::std_specs::convert::FromSpec;

verus! {

/// The operations every vector arity supports.
///
/// Each executable method returns exactly the value of its `spec` model;
/// the models are defined component-wise by each implementation.
pub trait VectorOps: Sized {
    type Float;

    /// Model of the all-zero vector.
    spec fn spec_zeroed() -> Self;

    /// Model of component-wise addition.
    spec fn spec_add(self, other: Self) -> Self;

    /// Model of component-wise subtraction.
    spec fn spec_sub(self, other: Self) -> Self;

    /// Model of component-wise multiplication by a scalar.
    spec fn spec_scale(self, factor: Self::Float) -> Self;

    /// Model of component-wise negation.
    spec fn spec_negate(self) -> Self;

    /// Model of the Euclidean length: the square root of [`VectorOps::spec_sq_magnitude`].
    spec fn spec_magnitude(self) -> Self::Float;

    /// Model of the sum of the squares of the components.
    spec fn spec_sq_magnitude(self) -> Self::Float;

    /// Model of normalization: every component divided by the magnitude,
    /// except that a vector of zero magnitude is left unchanged.
    spec fn spec_normalize(self) -> Self;

    /// Model of the displacement `other - self` (a vector, not a scalar).
    spec fn spec_distance(self, other: Self) -> Self;

    /// Model of the dot product: the sum of the pairwise component products.
    spec fn spec_dot(self, other: Self) -> Self::Float;

    /// Model of the angle between two vectors, in radians:
    /// `acos(dot / (|self| * |other|))`.
    spec fn spec_angle(self, other: Self) -> Self::Float;

    /// Model of linear interpolation `self + (other - self) * t`.
    spec fn spec_lerp(self, other: Self, t: Self::Float) -> Self;

    /// Model of normalized linear interpolation: [`VectorOps::spec_lerp`],
    /// then [`VectorOps::spec_normalize`].
    spec fn spec_nlerp(self, other: Self, t: Self::Float) -> Self;

    /// Model of spherical interpolation along the great-circle arc, falling
    /// back to [`VectorOps::spec_lerp`] when `sin` of the arc is zero.
    spec fn spec_slerp(self, other: Self, t: Self::Float) -> Self;

    /// Model of the tolerance comparison: every pair of components agrees
    /// within `within`.
    spec fn spec_approx_eq(self, other: Self, within: Self::Float) -> bool;

    fn zeroed() -> (r: Self)
        ensures
            r == Self::spec_zeroed(),
    ;

    fn add(self, other: Self) -> (r: Self)
        ensures
            r == self.spec_add(other),
    ;

    fn sub(self, other: Self) -> (r: Self)
        ensures
            r == self.spec_sub(other),
    ;

    fn scale(self, factor: Self::Float) -> (r: Self)
        ensures
            r == self.spec_scale(factor),
    ;

    fn negate(self) -> (r: Self)
        ensures
            r == self.spec_negate(),
    ;

    fn magnitude(self) -> (r: Self::Float)
        ensures
            r == self.spec_magnitude(),
    ;

    fn sq_magnitude(self) -> (r: Self::Float)
        ensures
            r == self.spec_sq_magnitude(),
    ;

    fn normalize(self) -> (r: Self)
        ensures
            r == self.spec_normalize(),
    ;

    fn distance(self, other: Self) -> (r: Self)
        ensures
            r == self.spec_distance(other),
    ;

    fn dot(self, other: Self) -> (r: Self::Float)
        ensures
            r == self.spec_dot(other),
    ;

    fn angle(self, other: Self) -> (r: Self::Float)
        ensures
            r == self.spec_angle(other),
    ;

    fn lerp(self, other: Self, t: Self::Float) -> (r: Self)
        ensures
            r == self.spec_lerp(other, t),
    ;

    fn nlerp(self, other: Self, t: Self::Float) -> (r: Self)
        ensures
            r == self.spec_nlerp(other, t),
    ;

    fn slerp(self, other: Self, t: Self::Float) -> (r: Self)
        ensures
            r == self.spec_slerp(other, t),
    ;

    fn approx_eq(self, other: Self, within: Self::Float) -> (r: bool)
        ensures
            r == self.spec_approx_eq(other, within),
    ;
}

/// Component-wise sum of two vectors.
pub fn add<T: VectorOps>(vector1: T, vector2: T) -> (r: T)
    ensures
        r == vector1.spec_add(vector2),
{
    vector1.add(vector2)
}

/// Component-wise difference of two vectors.
pub fn sub<T: VectorOps>(vector1: T, vector2: T) -> (r: T)
    ensures
        r == vector1.spec_sub(vector2),
{
    vector1.sub(vector2)
}

/// A vector with every component multiplied by `scalar`.
pub fn scale<T: VectorOps>(vector: T, scalar: T::Float) -> (r: T)
    ensures
        r == vector.spec_scale(scalar),
{
    vector.scale(scalar)
}

/// The Euclidean length of a vector.
pub fn magnitude<T: VectorOps>(vector: T) -> (r: T::Float)
    ensures
        r == vector.spec_magnitude(),
{
    vector.magnitude()
}

/// The sum of the squares of the components, avoiding the square root;
/// callers that only compare lengths should prefer this.
pub fn sq_magnitude<T: VectorOps>(vector: T) -> (r: T::Float)
    ensures
        r == vector.spec_sq_magnitude(),
{
    vector.sq_magnitude()
}

/// The vector scaled to unit length; a vector of zero magnitude is
/// returned unchanged.
pub fn normalize<T: VectorOps>(vector: T) -> (r: T)
    ensures
        r == vector.spec_normalize(),
{
    vector.normalize()
}

/// The displacement from `from` to `to`: the vector `to - from`.
pub fn distance<T: VectorOps>(from: T, to: T) -> (r: T)
    ensures
        r == from.spec_distance(to),
{
    from.distance(to)
}

/// The dot product of two vectors.
pub fn dot<T: VectorOps>(vector1: T, vector2: T) -> (r: T::Float)
    ensures
        r == vector1.spec_dot(vector2),
{
    vector1.dot(vector2)
}

/// The angle between two vectors, in radians.
pub fn angle<T: VectorOps>(vector1: T, vector2: T) -> (r: T::Float)
    ensures
        r == vector1.spec_angle(vector2),
{
    vector1.angle(vector2)
}

/// Linear interpolation from `vector1` towards `vector2`; `t` is not
/// constrained to `[0, 1]`, so the result extrapolates outside it.
pub fn lerp<T: VectorOps>(vector1: T, vector2: T, t: T::Float) -> (r: T)
    ensures
        r == vector1.spec_lerp(vector2, t),
{
    vector1.lerp(vector2, t)
}

/// Linear interpolation followed by normalization.
pub fn nlerp<T: VectorOps>(vector1: T, vector2: T, t: T::Float) -> (r: T)
    ensures
        r == vector1.spec_nlerp(vector2, t),
{
    vector1.nlerp(vector2, t)
}

/// Spherical interpolation along the great-circle arc between two vectors.
pub fn slerp<T: VectorOps>(vector1: T, vector2: T, t: T::Float) -> (r: T)
    ensures
        r == vector1.spec_slerp(vector2, t),
{
    vector1.slerp(vector2, t)
}

/// A vector of two scalar components.
#[derive(Clone, Copy, Debug, PartialEq)]
pub struct Vec2<T: Float> {
    pub x: T,
    pub y: T,
}

impl<T: Float> Vec2<T> {
    /// Model of the basis vector along `x`.
    pub open spec fn spec_unit_x() -> Self {
        Vec2 { x: T::spec_one(), y: T::spec_zero() }
    }

    /// Model of the basis vector along `y`.
    pub open spec fn spec_unit_y() -> Self {
        Vec2 { x: T::spec_zero(), y: T::spec_one() }
    }

    /// Builds a vector from its two components.
    pub fn new(x: T, y: T) -> (r: Self)
        ensures
            r == (Vec2 { x, y }),
    {
        Self { x, y }
    }

    /// The canonical basis vector along `x`.
    pub fn unit_x() -> (r: Self)
        ensures
            r == Self::spec_unit_x(),
    {
        Self { x: T::one(), y: T::zero() }
    }

    /// The canonical basis vector along `y`.
    pub fn unit_y() -> (r: Self)
        ensures
            r == Self::spec_unit_y(),
    {
        Self { x: T::zero(), y: T::one() }
    }

    /// Replaces `self` with `self + rhs`.
    pub fn add_assign(&mut self, rhs: Self)
        ensures
            *final(self) == old(self).spec_add(rhs),
    {
        *self = (*self).add(rhs);
    }

    /// Replaces `self` with `self - rhs`.
    pub fn sub_assign(&mut self, rhs: Self)
        ensures
            *final(self) == old(self).spec_sub(rhs),
    {
        *self = (*self).sub(rhs);
    }

    /// Replaces `self` with `self * rhs`.
    pub fn mul_assign(&mut self, rhs: T)
        ensures
            *final(self) == old(self).spec_scale(rhs),
    {
        *self = (*self).scale(rhs);
    }
}

impl<T: Float> VectorOps for Vec2<T> {
    type Float = T;

    open spec fn spec_zeroed() -> Self {
        Vec2 { x: T::spec_zero(), y: T::spec_zero() }
    }

    open spec fn spec_add(self, other: Self) -> Self {
        Vec2 { x: self.x.spec_add(other.x), y: self.y.spec_add(other.y) }
    }

    open spec fn spec_sub(self, other: Self) -> Self {
        Vec2 { x: self.x.spec_sub(other.x), y: self.y.spec_sub(other.y) }
    }

    open spec fn spec_scale(self, factor: T) -> Self {
        Vec2 { x: self.x.spec_mul(factor), y: self.y.spec_mul(factor) }
    }

    open spec fn spec_negate(self) -> Self {
        Vec2 { x: self.x.spec_neg(), y: self.y.spec_neg() }
    }

    open spec fn spec_magnitude(self) -> T {
        self.spec_sq_magnitude().spec_sqrt()
    }

    open spec fn spec_sq_magnitude(self) -> T {
        self.x.spec_mul(self.x).spec_add(self.y.spec_mul(self.y))
    }

    open spec fn spec_normalize(self) -> Self {
        let mag = self.spec_magnitude();
        if mag == T::spec_zero() {
            self
        } else {
            Vec2 { x: self.x.spec_div(mag), y: self.y.spec_div(mag) }
        }
    }

    open spec fn spec_distance(self, other: Self) -> Self {
        other.spec_sub(self)
    }

    open spec fn spec_dot(self, other: Self) -> T {
        self.x.spec_mul(other.x).spec_add(self.y.spec_mul(other.y))
    }

    open spec fn spec_angle(self, other: Self) -> T {
        self.spec_dot(other).spec_div(
            self.spec_magnitude().spec_mul(other.spec_magnitude()),
        ).spec_acos()
    }

    open spec fn spec_lerp(self, other: Self, t: T) -> Self {
        self.spec_add(other.spec_sub(self).spec_scale(t))
    }

    open spec fn spec_nlerp(self, other: Self, t: T) -> Self {
        self.spec_lerp(other, t).spec_normalize()
    }

    open spec fn spec_slerp(self, other: Self, t: T) -> Self {
        let theta = self.spec_dot(other).spec_acos();
        let sin_theta = theta.spec_sin();
        if sin_theta == T::spec_zero() {
            self.spec_lerp(other, t)
        } else {
            let near = T::spec_one().spec_sub(t).spec_mul(theta).spec_sin();
            let far = t.spec_mul(theta).spec_sin();
            self.spec_scale(near).spec_add(other.spec_scale(far)).spec_scale(
                T::spec_one().spec_div(sin_theta),
            )
        }
    }

    open spec fn spec_approx_eq(self, other: Self, within: T) -> bool {
        self.x.spec_aprox_eq(other.x, within) && self.y.spec_aprox_eq(other.y, within)
    }

    fn zeroed() -> Self {
        Vec2 { x: T::zero(), y: T::zero() }
    }

    fn add(self, other: Self) -> Self {
        Vec2 { x: self.x.add(other.x), y: self.y.add(other.y) }
    }

    fn sub(self, other: Self) -> Self {
        Vec2 { x: self.x.sub(other.x), y: self.y.sub(other.y) }
    }

    fn scale(self, factor: T) -> Self {
        Vec2 { x: self.x.mul(factor), y: self.y.mul(factor) }
    }

    fn negate(self) -> Self {
        Vec2 { x: self.x.neg(), y: self.y.neg() }
    }

    fn magnitude(self) -> T {
        self.x.mul(self.x).add(self.y.mul(self.y)).sqrt()
    }

    fn sq_magnitude(self) -> T {
        self.x.mul(self.x).add(self.y.mul(self.y))
    }

    fn normalize(self) -> Self {
        let mag = self.magnitude();
        if mag.is_zero() {
            self
        } else {
            Vec2 { x: self.x.div(mag), y: self.y.div(mag) }
        }
    }

    fn distance(self, other: Self) -> Self {
        other.sub(self)
    }

    fn dot(self, other: Self) -> T {
        self.x.mul(other.x).add(self.y.mul(other.y))
    }

    fn angle(self, other: Self) -> T {
        self.dot(other).div(self.magnitude().mul(other.magnitude())).acos()
    }

    fn lerp(self, other: Self, t: T) -> Self {
        self.add(other.sub(self).scale(t))
    }

    fn nlerp(self, other: Self, t: T) -> Self {
        self.lerp(other, t).normalize()
    }

    fn slerp(self, other: Self, t: T) -> Self {
        let theta = self.dot(other).acos();
        let sin_theta = theta.sin();
        if sin_theta.is_zero() {
            self.lerp(other, t)
        } else {
            let near = T::one().sub(t).mul(theta).sin();
            let far = t.mul(theta).sin();
            self.scale(near).add(other.scale(far)).scale(T::one().div(sin_theta))
        }
    }

    fn approx_eq(self, other: Self, within: T) -> bool {
        self.x.aprox_eq(other.x, within) && self.y.aprox_eq(other.y, within)
    }
}

impl<T: Float> Default for Vec2<T> {
    /// The all-zero vector.
    fn default() -> (r: Self)
        ensures
            r == Self::spec_zeroed(),
    {
        Vec2 { x: T::zero(), y: T::zero() }
    }
}

/// A vector of three scalar components.
#[derive(Clone, Copy, Debug, PartialEq)]
pub struct Vec3<T: Float> {
    pub x: T,
    pub y: T,
    pub z: T,
}

impl<T: Float> Vec3<T> {
    /// Model of the basis vector along `x`.
    pub open spec fn spec_unit_x() -> Self {
        Vec3 { x: T::spec_one(), y: T::spec_zero(), z: T::spec_zero() }
    }

    /// Model of the basis vector along `y`.
    pub open spec fn spec_unit_y() -> Self {
        Vec3 { x: T::spec_zero(), y: T::spec_one(), z: T::spec_zero() }
    }

    /// Model of the basis vector along `z`.
    pub open spec fn spec_unit_z() -> Self {
        Vec3 { x: T::spec_zero(), y: T::spec_zero(), z: T::spec_one() }
    }

    /// Model of the right-handed cross product.
    pub open spec fn spec_cross(self, other: Self) -> Self {
        Vec3 {
            x: self.y.spec_mul(other.z).spec_sub(self.z.spec_mul(other.y)),
            y: self.z.spec_mul(other.x).spec_sub(self.x.spec_mul(other.z)),
            z: self.x.spec_mul(other.y).spec_sub(self.y.spec_mul(other.x)),
        }
    }

    /// Builds a vector from its 3 components.
    pub fn new(x: T, y: T, z: T) -> (r: Self)
        ensures
            r == (Vec3 { x, y, z }),
    {
        Self { x, y, z }
    }

    /// The canonical basis vector along `x`.
    pub fn unit_x() -> (r: Self)
        ensures
            r == Self::spec_unit_x(),
    {
        Self { x: T::one(), y: T::zero(), z: T::zero() }
    }

    /// The canonical basis vector along `y`.
    pub fn unit_y() -> (r: Self)
        ensures
            r == Self::spec_unit_y(),
    {
        Self { x: T::zero(), y: T::one(), z: T::zero() }
    }

    /// The canonical basis vector along `z`.
    pub fn unit_z() -> (r: Self)
        ensures
            r == Self::spec_unit_z(),
    {
        Self { x: T::zero(), y: T::zero(), z: T::one() }
    }

    /// The right-handed cross product of two vectors.
    pub fn cross(self, other: Self) -> (r: Self)
        ensures
            r == self.spec_cross(other),
    {
        Vec3 {
            x: self.y.mul(other.z).sub(self.z.mul(other.y)),
            y: self.z.mul(other.x).sub(self.x.mul(other.z)),
            z: self.x.mul(other.y).sub(self.y.mul(other.x)),
        }
    }

    /// Replaces `self` with `self + rhs`.
    pub fn add_assign(&mut self, rhs: Self)
        ensures
            *final(self) == old(self).spec_add(rhs),
    {
        *self = (*self).add(rhs);
    }

    /// Replaces `self` with `self - rhs`.
    pub fn sub_assign(&mut self, rhs: Self)
        ensures
            *final(self) == old(self).spec_sub(rhs),
    {
        *self = (*self).sub(rhs);
    }

    /// Replaces `self` with `self * rhs`.
    pub fn mul_assign(&mut self, rhs: T)
        ensures
            *final(self) == old(self).spec_scale(rhs),
    {
        *self = (*self).scale(rhs);
    }
}

impl<T: Float> VectorOps for Vec3<T> {
    type Float = T;

    open spec fn spec_zeroed() -> Self {
        Vec3 { x: T::spec_zero(), y: T::spec_zero(), z: T::spec_zero() }
    }

    open spec fn spec_add(self, other: Self) -> Self {
        Vec3 { x: self.x.spec_add(other.x), y: self.y.spec_add(other.y), z: self.z.spec_add(other.z) }
    }

    open spec fn spec_sub(self, other: Self) -> Self {
        Vec3 { x: self.x.spec_sub(other.x), y: self.y.spec_sub(other.y), z: self.z.spec_sub(other.z) }
    }

    open spec fn spec_scale(self, factor: T) -> Self {
        Vec3 { x: self.x.spec_mul(factor), y: self.y.spec_mul(factor), z: self.z.spec_mul(factor) }
    }

    open spec fn spec_negate(self) -> Self {
        Vec3 { x: self.x.spec_neg(), y: self.y.spec_neg(), z: self.z.spec_neg() }
    }

    open spec fn spec_magnitude(self) -> T {
        self.spec_sq_magnitude().spec_sqrt()
    }

    open spec fn spec_sq_magnitude(self) -> T {
        self.x.spec_mul(self.x).spec_add(self.y.spec_mul(self.y)).spec_add(self.z.spec_mul(self.z))
    }

    open spec fn spec_normalize(self) -> Self {
        let mag = self.spec_magnitude();
        if mag == T::spec_zero() {
            self
        } else {
            Vec3 { x: self.x.spec_div(mag), y: self.y.spec_div(mag), z: self.z.spec_div(mag) }
        }
    }

    open spec fn spec_distance(self, other: Self) -> Self {
        other.spec_sub(self)
    }

    open spec fn spec_dot(self, other: Self) -> T {
        self.x.spec_mul(other.x).spec_add(self.y.spec_mul(other.y)).spec_add(self.z.spec_mul(other.z))
    }

    open spec fn spec_angle(self, other: Self) -> T {
        self.spec_dot(other).spec_div(
            self.spec_magnitude().spec_mul(other.spec_magnitude()),
        ).spec_acos()
    }

    open spec fn spec_lerp(self, other: Self, t: T) -> Self {
        self.spec_add(other.spec_sub(self).spec_scale(t))
    }

    open spec fn spec_nlerp(self, other: Self, t: T) -> Self {
        self.spec_lerp(other, t).spec_normalize()
    }

    open spec fn spec_slerp(self, other: Self, t: T) -> Self {
        let theta = self.spec_dot(other).spec_acos();
        let sin_theta = theta.spec_sin();
        if sin_theta == T::spec_zero() {
            self.spec_lerp(other, t)
        } else {
            let near = T::spec_one().spec_sub(t).spec_mul(theta).spec_sin();
            let far = t.spec_mul(theta).spec_sin();
            self.spec_scale(near).spec_add(other.spec_scale(far)).spec_scale(
                T::spec_one().spec_div(sin_theta),
            )
        }
    }

    open spec fn spec_approx_eq(self, other: Self, within: T) -> bool {
        self.x.spec_aprox_eq(other.x, within) && self.y.spec_aprox_eq(other.y, within) && self.z.spec_aprox_eq(other.z, within)
    }

    fn zeroed() -> Self {
        Vec3 { x: T::zero(), y: T::zero(), z: T::zero() }
    }

    fn add(self, other: Self) -> Self {
        Vec3 { x: self.x.add(other.x), y: self.y.add(other.y), z: self.z.add(other.z) }
    }

    fn sub(self, other: Self) -> Self {
        Vec3 { x: self.x.sub(other.x), y: self.y.sub(other.y), z: self.z.sub(other.z) }
    }

    fn scale(self, factor: T) -> Self {
        Vec3 { x: self.x.mul(factor), y: self.y.mul(factor), z: self.z.mul(factor) }
    }

    fn negate(self) -> Self {
        Vec3 { x: self.x.neg(), y: self.y.neg(), z: self.z.neg() }
    }

    fn magnitude(self) -> T {
        self.x.mul(self.x).add(self.y.mul(self.y)).add(self.z.mul(self.z)).sqrt()
    }

    fn sq_magnitude(self) -> T {
        self.x.mul(self.x).add(self.y.mul(self.y)).add(self.z.mul(self.z))
    }

    fn normalize(self) -> Self {
        let mag = self.magnitude();
        if mag.is_zero() {
            self
        } else {
            Vec3 { x: self.x.div(mag), y: self.y.div(mag), z: self.z.div(mag) }
        }
    }

    fn distance(self, other: Self) -> Self {
        other.sub(self)
    }

    fn dot(self, other: Self) -> T {
        self.x.mul(other.x).add(self.y.mul(other.y)).add(self.z.mul(other.z))
    }

    fn angle(self, other: Self) -> T {
        self.dot(other).div(self.magnitude().mul(other.magnitude())).acos()
    }

    fn lerp(self, other: Self, t: T) -> Self {
        self.add(other.sub(self).scale(t))
    }

    fn nlerp(self, other: Self, t: T) -> Self {
        self.lerp(other, t).normalize()
    }

    fn slerp(self, other: Self, t: T) -> Self {
        let theta = self.dot(other).acos();
        let sin_theta = theta.sin();
        if sin_theta.is_zero() {
            self.lerp(other, t)
        } else {
            let near = T::one().sub(t).mul(theta).sin();
            let far = t.mul(theta).sin();
            self.scale(near).add(other.scale(far)).scale(T::one().div(sin_theta))
        }
    }

    fn approx_eq(self, other: Self, within: T) -> bool {
        self.x.aprox_eq(other.x, within) && self.y.aprox_eq(other.y, within) && self.z.aprox_eq(other.z, within)
    }
}

impl<T: Float> Default for Vec3<T> {
    /// The all-zero vector.
    fn default() -> (r: Self)
        ensures
            r == Self::spec_zeroed(),
    {
        Vec3 { x: T::zero(), y: T::zero(), z: T::zero() }
    }
}

/// A vector of four scalar components.
#[derive(Clone, Copy, Debug, PartialEq)]
pub struct Vec4<T: Float> {
    pub x: T,
    pub y: T,
    pub z: T,
    pub w: T,
}

impl<T: Float> Vec4<T> {
    /// Model of the basis vector along `x`.
    pub open spec fn spec_unit_x() -> Self {
        Vec4 { x: T::spec_one(), y: T::spec_zero(), z: T::spec_zero(), w: T::spec_zero() }
    }

    /// Model of the basis vector along `y`.
    pub open spec fn spec_unit_y() -> Self {
        Vec4 { x: T::spec_zero(), y: T::spec_one(), z: T::spec_zero(), w: T::spec_zero() }
    }

    /// Model of the basis vector along `z`.
    pub open spec fn spec_unit_z() -> Self {
        Vec4 { x: T::spec_zero(), y: T::spec_zero(), z: T::spec_one(), w: T::spec_zero() }
    }

    /// Model of the basis vector along `w`.
    pub open spec fn spec_unit_w() -> Self {
        Vec4 { x: T::spec_zero(), y: T::spec_zero(), z: T::spec_zero(), w: T::spec_one() }
    }

    /// Builds a vector from its 4 components.
    pub fn new(x: T, y: T, z: T, w: T) -> (r: Self)
        ensures
            r == (Vec4 { x, y, z, w }),
    {
        Self { x, y, z, w }
    }

    /// The canonical basis vector along `x`.
    pub fn unit_x() -> (r: Self)
        ensures
            r == Self::spec_unit_x(),
    {
        Self { x: T::one(), y: T::zero(), z: T::zero(), w: T::zero() }
    }

    /// The canonical basis vector along `y`.
    pub fn unit_y() -> (r: Self)
        ensures
            r == Self::spec_unit_y(),
    {
        Self { x: T::zero(), y: T::one(), z: T::zero(), w: T::zero() }
    }

    /// The canonical basis vector along `z`.
    pub fn unit_z() -> (r: Self)
        ensures
            r == Self::spec_unit_z(),
    {
        Self { x: T::zero(), y: T::zero(), z: T::one(), w: T::zero() }
    }

    /// The canonical basis vector along `w`.
    pub fn unit_w() -> (r: Self)
        ensures
            r == Self::spec_unit_w(),
    {
        Self { x: T::zero(), y: T::zero(), z: T::zero(), w: T::one() }
    }

    /// Replaces `self` with `self + rhs`.
    pub fn add_assign(&mut self, rhs: Self)
        ensures
            *final(self) == old(self).spec_add(rhs),
    {
        *self = (*self).add(rhs);
    }

    /// Replaces `self` with `self - rhs`.
    pub fn sub_assign(&mut self, rhs: Self)
        ensures
            *final(self) == old(self).spec_sub(rhs),
    {
        *self = (*self).sub(rhs);
    }

    /// Replaces `self` with `self * rhs`.
    pub fn mul_assign(&mut self, rhs: T)
        ensures
            *final(self) == old(self).spec_scale(rhs),
    {
        *self = (*self).scale(rhs);
    }
}

impl<T: Float> VectorOps for Vec4<T> {
    type Float = T;

    open spec fn spec_zeroed() -> Self {
        Vec4 { x: T::spec_zero(), y: T::spec_zero(), z: T::spec_zero(), w: T::spec_zero() }
    }

    open spec fn spec_add(self, other: Self) -> Self {
        Vec4 { x: self.x.spec_add(other.x), y: self.y.spec_add(other.y), z: self.z.spec_add(other.z), w: self.w.spec_add(other.w) }
    }

    open spec fn spec_sub(self, other: Self) -> Self {
        Vec4 { x: self.x.spec_sub(other.x), y: self.y.spec_sub(other.y), z: self.z.spec_sub(other.z), w: self.w.spec_sub(other.w) }
    }

    open spec fn spec_scale(self, factor: T) -> Self {
        Vec4 { x: self.x.spec_mul(factor), y: self.y.spec_mul(factor), z: self.z.spec_mul(factor), w: self.w.spec_mul(factor) }
    }

    open spec fn spec_negate(self) -> Self {
        Vec4 { x: self.x.spec_neg(), y: self.y.spec_neg(), z: self.z.spec_neg(), w: self.w.spec_neg() }
    }

    open spec fn spec_magnitude(self) -> T {
        self.spec_sq_magnitude().spec_sqrt()
    }

    open spec fn spec_sq_magnitude(self) -> T {
        self.x.spec_mul(self.x).spec_add(self.y.spec_mul(self.y)).spec_add(self.z.spec_mul(self.z)).spec_add(self.w.spec_mul(self.w))
    }

    open spec fn spec_normalize(self) -> Self {
        let mag = self.spec_magnitude();
        if mag == T::spec_zero() {
            self
        } else {
            Vec4 { x: self.x.spec_div(mag), y: self.y.spec_div(mag), z: self.z.spec_div(mag), w: self.w.spec_div(mag) }
        }
    }

    open spec fn spec_distance(self, other: Self) -> Self {
        other.spec_sub(self)
    }

    open spec fn spec_dot(self, other: Self) -> T {
        self.x.spec_mul(other.x).spec_add(self.y.spec_mul(other.y)).spec_add(self.z.spec_mul(other.z)).spec_add(self.w.spec_mul(other.w))
    }

    open spec fn spec_angle(self, other: Self) -> T {
        self.spec_dot(other).spec_div(
            self.spec_magnitude().spec_mul(other.spec_magnitude()),
        ).spec_acos()
    }

    open spec fn spec_lerp(self, other: Self, t: T) -> Self {
        self.spec_add(other.spec_sub(self).spec_scale(t))
    }

    open spec fn spec_nlerp(self, other: Self, t: T) -> Self {
        self.spec_lerp(other, t).spec_normalize()
    }

    open spec fn spec_slerp(self, other: Self, t: T) -> Self {
        let theta = self.spec_dot(other).spec_acos();
        let sin_theta = theta.spec_sin();
        if sin_theta == T::spec_zero() {
            self.spec_lerp(other, t)
        } else {
            let near = T::spec_one().spec_sub(t).spec_mul(theta).spec_sin();
            let far = t.spec_mul(theta).spec_sin();
            self.spec_scale(near).spec_add(other.spec_scale(far)).spec_scale(
                T::spec_one().spec_div(sin_theta),
            )
        }
    }

    open spec fn spec_approx_eq(self, other: Self, within: T) -> bool {
        self.x.spec_aprox_eq(other.x, within) && self.y.spec_aprox_eq(other.y, within) && self.z.spec_aprox_eq(other.z, within) && self.w.spec_aprox_eq(other.w, within)
    }

    fn zeroed() -> Self {
        Vec4 { x: T::zero(), y: T::zero(), z: T::zero(), w: T::zero() }
    }

    fn add(self, other: Self) -> Self {
        Vec4 { x: self.x.add(other.x), y: self.y.add(other.y), z: self.z.add(other.z), w: self.w.add(other.w) }
    }

    fn sub(self, other: Self) -> Self {
        Vec4 { x: self.x.sub(other.x), y: self.y.sub(other.y), z: self.z.sub(other.z), w: self.w.sub(other.w) }
    }

    fn scale(self, factor: T) -> Self {
        Vec4 { x: self.x.mul(factor), y: self.y.mul(factor), z: self.z.mul(factor), w: self.w.mul(factor) }
    }

    fn negate(self) -> Self {
        Vec4 { x: self.x.neg(), y: self.y.neg(), z: self.z.neg(), w: self.w.neg() }
    }

    fn magnitude(self) -> T {
        self.x.mul(self.x).add(self.y.mul(self.y)).add(self.z.mul(self.z)).add(self.w.mul(self.w)).sqrt()
    }

    fn sq_magnitude(self) -> T {
        self.x.mul(self.x).add(self.y.mul(self.y)).add(self.z.mul(self.z)).add(self.w.mul(self.w))
    }

    fn normalize(self) -> Self {
        let mag = self.magnitude();
        if mag.is_zero() {
            self
        } else {
            Vec4 { x: self.x.div(mag), y: self.y.div(mag), z: self.z.div(mag), w: self.w.div(mag) }
        }
    }

    fn distance(self, other: Self) -> Self {
        other.sub(self)
    }

    fn dot(self, other: Self) -> T {
        self.x.mul(other.x).add(self.y.mul(other.y)).add(self.z.mul(other.z)).add(self.w.mul(other.w))
    }

    fn angle(self, other: Self) -> T {
        self.dot(other).div(self.magnitude().mul(other.magnitude())).acos()
    }

    fn lerp(self, other: Self, t: T) -> Self {
        self.add(other.sub(self).scale(t))
    }

    fn nlerp(self, other: Self, t: T) -> Self {
        self.lerp(other, t).normalize()
    }

    fn slerp(self, other: Self, t: T) -> Self {
        let theta = self.dot(other).acos();
        let sin_theta = theta.sin();
        if sin_theta.is_zero() {
            self.lerp(other, t)
        } else {
            let near = T::one().sub(t).mul(theta).sin();
            let far = t.mul(theta).sin();
            self.scale(near).add(other.scale(far)).scale(T::one().div(sin_theta))
        }
    }

    fn approx_eq(self, other: Self, within: T) -> bool {
        self.x.aprox_eq(other.x, within) && self.y.aprox_eq(other.y, within) && self.z.aprox_eq(other.z, within) && self.w.aprox_eq(other.w, within)
    }
}

impl<T: Float> Default for Vec4<T> {
    /// The all-zero vector.
    fn default() -> (r: Self)
        ensures
            r == Self::spec_zeroed(),
    {
        Vec4 { x: T::zero(), y: T::zero(), z: T::zero(), w: T::zero() }
    }
}


impl<T: Float> From<[T; 2]> for Vec2<T> {
    /// Reads the components in order from a two-element array.
    fn from(value: [T; 2]) -> Self {
        Vec2 { x: value[0], y: value[1] }
    }
}

impl<T: Float> vstd::std_specs::convert::FromSpecImpl<[T; 2]> for Vec2<T> {
    open spec fn obeys_from_spec() -> bool {
        true
    }

    open spec fn from_spec(value: [T; 2]) -> Self {
        Vec2 { x: value[0], y: value[1] }
    }
}

impl<T: Float> From<(T, T)> for Vec2<T> {
    /// Reads the components in order from a pair.
    fn from(value: (T, T)) -> Self {
        Vec2 { x: value.0, y: value.1 }
    }
}

impl<T: Float> vstd::std_specs::convert::FromSpecImpl<(T, T)> for Vec2<T> {
    open spec fn obeys_from_spec() -> bool {
        true
    }

    open spec fn from_spec(value: (T, T)) -> Self {
        Vec2 { x: value.0, y: value.1 }
    }
}

impl<T: Float> From<Vec3<T>> for Vec2<T> {
    /// Narrows by dropping the trailing `z` component.
    fn from(value: Vec3<T>) -> Self {
        Vec2 { x: value.x, y: value.y }
    }
}

impl<T: Float> vstd::std_specs::convert::FromSpecImpl<Vec3<T>> for Vec2<T> {
    open spec fn obeys_from_spec() -> bool {
        true
    }

    open spec fn from_spec(value: Vec3<T>) -> Self {
        Vec2 { x: value.x, y: value.y }
    }
}

impl<T: Float> From<Vec2<T>> for Vec3<T> {
    /// Widens by zero-padding the trailing `z` component.
    fn from(value: Vec2<T>) -> Self {
        Vec3 { x: value.x, y: value.y, z: T::zero() }
    }
}

impl<T: Float> vstd::std_specs::convert::FromSpecImpl<Vec2<T>> for Vec3<T> {
    open spec fn obeys_from_spec() -> bool {
        true
    }

    open spec fn from_spec(value: Vec2<T>) -> Self {
        Vec3 { x: value.x, y: value.y, z: T::spec_zero() }
    }
}

impl<T: Float> From<Vec4<T>> for Vec2<T> {
    /// Narrows by dropping the trailing `z`, `w` components.
    fn from(value: Vec4<T>) -> Self {
        Vec2 { x: value.x, y: value.y }
    }
}

impl<T: Float> vstd::std_specs::convert::FromSpecImpl<Vec4<T>> for Vec2<T> {
    open spec fn obeys_from_spec() -> bool {
        true
    }

    open spec fn from_spec(value: Vec4<T>) -> Self {
        Vec2 { x: value.x, y: value.y }
    }
}

impl<T: Float> From<[T; 3]> for Vec3<T> {
    /// Reads the components in order from a three-element array.
    fn from(value: [T; 3]) -> Self {
        Vec3 { x: value[0], y: value[1], z: value[2] }
    }
}

impl<T: Float> vstd::std_specs::convert::FromSpecImpl<[T; 3]> for Vec3<T> {
    open spec fn obeys_from_spec() -> bool {
        true
    }

    open spec fn from_spec(value: [T; 3]) -> Self {
        Vec3 { x: value[0], y: value[1], z: value[2] }
    }
}

impl<T: Float> From<(T, T, T)> for Vec3<T> {
    /// Reads the components in order from a tuple.
    fn from(value: (T, T, T)) -> Self {
        Vec3 { x: value.0, y: value.1, z: value.2 }
    }
}

impl<T: Float> vstd::std_specs::convert::FromSpecImpl<(T, T, T)> for Vec3<T> {
    open spec fn obeys_from_spec() -> bool {
        true
    }

    open spec fn from_spec(value: (T, T, T)) -> Self {
        Vec3 { x: value.0, y: value.1, z: value.2 }
    }
}

impl<T: Float> From<Vec4<T>> for Vec3<T> {
    /// Narrows by dropping the trailing `w` component.
    fn from(value: Vec4<T>) -> Self {
        Vec3 { x: value.x, y: value.y, z: value.z }
    }
}

impl<T: Float> vstd::std_specs::convert::FromSpecImpl<Vec4<T>> for Vec3<T> {
    open spec fn obeys_from_spec() -> bool {
        true
    }

    open spec fn from_spec(value: Vec4<T>) -> Self {
        Vec3 { x: value.x, y: value.y, z: value.z }
    }
}

impl<T: Float> From<[T; 4]> for Vec4<T> {
    /// Reads the components in order from a four-element array.
    fn from(value: [T; 4]) -> Self {
        Vec4 { x: value[0], y: value[1], z: value[2], w: value[3] }
    }
}

impl<T: Float> vstd::std_specs::convert::FromSpecImpl<[T; 4]> for Vec4<T> {
    open spec fn obeys_from_spec() -> bool {
        true
    }

    open spec fn from_spec(value: [T; 4]) -> Self {
        Vec4 { x: value[0], y: value[1], z: value[2], w: value[3] }
    }
}

impl<T: Float> From<(T, T, T, T)> for Vec4<T> {
    /// Reads the components in order from a tuple.
    fn from(value: (T, T, T, T)) -> Self {
        Vec4 { x: value.0, y: value.1, z: value.2, w: value.3 }
    }
}

impl<T: Float> vstd::std_specs::convert::FromSpecImpl<(T, T, T, T)> for Vec4<T> {
    open spec fn obeys_from_spec() -> bool {
        true
    }

    open spec fn from_spec(value: (T, T, T, T)) -> Self {
        Vec4 { x: value.0, y: value.1, z: value.2, w: value.3 }
    }
}

impl<T: Float> From<Vec2<T>> for Vec4<T> {
    /// Widens by zero-padding the trailing `z`, `w` components.
    fn from(value: Vec2<T>) -> Self {
        Vec4 { x: value.x, y: value.y, z: T::zero(), w: T::zero() }
    }
}

impl<T: Float> vstd::std_specs::convert::FromSpecImpl<Vec2<T>> for Vec4<T> {
    open spec fn obeys_from_spec() -> bool {
        true
    }

    open spec fn from_spec(value: Vec2<T>) -> Self {
        Vec4 { x: value.x, y: value.y, z: T::spec_zero(), w: T::spec_zero() }
    }
}

impl<T: Float> From<Vec3<T>> for Vec4<T> {
    /// Widens by zero-padding the trailing `w` component.
    fn from(value: Vec3<T>) -> Self {
        Vec4 { x: value.x, y: value.y, z: value.z, w: T::zero() }
    }
}

impl<T: Float> vstd::std_specs::convert::FromSpecImpl<Vec3<T>> for Vec4<T> {
    open spec fn obeys_from_spec() -> bool {
        true
    }

    open spec fn from_spec(value: Vec3<T>) -> Self {
        Vec4 { x: value.x, y: value.y, z: value.z, w: T::spec_zero() }
    }
}

/// Law: adding a vector to its negation gives the zero vector, for any
/// scalar whose negation is an additive inverse.
pub proof fn lemma_vec2_add_negate<T: Float>(v: Vec2<T>)
    requires
        forall|a: T| #[trigger] a.spec_add(a.spec_neg()) == T::spec_zero(),
    ensures
        v.spec_add(v.spec_negate()) == Vec2::<T>::spec_zeroed(),
{
}

/// The same law, for `Vec3`.
pub proof fn lemma_vec3_add_negate<T: Float>(v: Vec3<T>)
    requires
        forall|a: T| #[trigger] a.spec_add(a.spec_neg()) == T::spec_zero(),
    ensures
        v.spec_add(v.spec_negate()) == Vec3::<T>::spec_zeroed(),
{
}

/// The same law, for `Vec4`.
pub proof fn lemma_vec4_add_negate<T: Float>(v: Vec4<T>)
    requires
        forall|a: T| #[trigger] a.spec_add(a.spec_neg()) == T::spec_zero(),
    ensures
        v.spec_add(v.spec_negate()) == Vec4::<T>::spec_zeroed(),
{
}

/// Law: scaling a vector by one leaves it unchanged, for any scalar
/// whose one is a multiplicative identity.
pub proof fn lemma_vec2_scale_one<T: Float>(v: Vec2<T>)
    requires
        forall|a: T| #[trigger] a.spec_mul(T::spec_one()) == a,
    ensures
        v.spec_scale(T::spec_one()) == v,
{
}

/// The same law, for `Vec3`.
pub proof fn lemma_vec3_scale_one<T: Float>(v: Vec3<T>)
    requires
        forall|a: T| #[trigger] a.spec_mul(T::spec_one()) == a,
    ensures
        v.spec_scale(T::spec_one()) == v,
{
}

/// The same law, for `Vec4`.
pub proof fn lemma_vec4_scale_one<T: Float>(v: Vec4<T>)
    requires
        forall|a: T| #[trigger] a.spec_mul(T::spec_one()) == a,
    ensures
        v.spec_scale(T::spec_one()) == v,
{
}

/// Law: scaling a vector by zero gives the zero vector, for any scalar
/// whose zero absorbs multiplication.
pub proof fn lemma_vec2_scale_zero<T: Float>(v: Vec2<T>)
    requires
        forall|a: T| #[trigger] a.spec_mul(T::spec_zero()) == T::spec_zero(),
    ensures
        v.spec_scale(T::spec_zero()) == Vec2::<T>::spec_zeroed(),
{
}

/// The same law, for `Vec3`.
pub proof fn lemma_vec3_scale_zero<T: Float>(v: Vec3<T>)
    requires
        forall|a: T| #[trigger] a.spec_mul(T::spec_zero()) == T::spec_zero(),
    ensures
        v.spec_scale(T::spec_zero()) == Vec3::<T>::spec_zeroed(),
{
}

/// The same law, for `Vec4`.
pub proof fn lemma_vec4_scale_zero<T: Float>(v: Vec4<T>)
    requires
        forall|a: T| #[trigger] a.spec_mul(T::spec_zero()) == T::spec_zero(),
    ensures
        v.spec_scale(T::spec_zero()) == Vec4::<T>::spec_zeroed(),
{
}

/// Law: the two canonical basis vectors along `x` and `y` are orthogonal:
/// their dot product is zero, for any scalar whose zero absorbs
/// multiplication and is an additive identity.
pub proof fn lemma_vec2_unit_dot_orthogonal<T: Float>()
    requires
        forall|a: T| #[trigger] a.spec_mul(T::spec_zero()) == T::spec_zero(),
        forall|a: T| #[trigger] T::spec_zero().spec_mul(a) == T::spec_zero(),
        forall|a: T| #[trigger] a.spec_add(T::spec_zero()) == a,
    ensures
        Vec2::<T>::spec_unit_x().spec_dot(Vec2::<T>::spec_unit_y()) == T::spec_zero(),
{
}

/// The same law, for `Vec3`.
pub proof fn lemma_vec3_unit_dot_orthogonal<T: Float>()
    requires
        forall|a: T| #[trigger] a.spec_mul(T::spec_zero()) == T::spec_zero(),
        forall|a: T| #[trigger] T::spec_zero().spec_mul(a) == T::spec_zero(),
        forall|a: T| #[trigger] a.spec_add(T::spec_zero()) == a,
    ensures
        Vec3::<T>::spec_unit_x().spec_dot(Vec3::<T>::spec_unit_y()) == T::spec_zero(),
{
}

/// The same law, for `Vec4`.
pub proof fn lemma_vec4_unit_dot_orthogonal<T: Float>()
    requires
        forall|a: T| #[trigger] a.spec_mul(T::spec_zero()) == T::spec_zero(),
        forall|a: T| #[trigger] T::spec_zero().spec_mul(a) == T::spec_zero(),
        forall|a: T| #[trigger] a.spec_add(T::spec_zero()) == a,
    ensures
        Vec4::<T>::spec_unit_x().spec_dot(Vec4::<T>::spec_unit_y()) == T::spec_zero(),
{
}

/// Law: the cross product of the basis vectors along `x` and `y` is the
/// basis vector along `z` (the product is right-handed), for any scalar
/// with the usual zero and one identities.
pub proof fn lemma_vec3_unit_cross_right_handed<T: Float>()
    requires
        forall|a: T| #[trigger] a.spec_mul(T::spec_zero()) == T::spec_zero(),
        forall|a: T| #[trigger] T::spec_zero().spec_mul(a) == T::spec_zero(),
        forall|a: T| #[trigger] a.spec_mul(T::spec_one()) == a,
        forall|a: T| #[trigger] a.spec_sub(T::spec_zero()) == a,
    ensures
        Vec3::<T>::spec_unit_x().spec_cross(Vec3::<T>::spec_unit_y()) == Vec3::<T>::spec_unit_z(),
{
}

/// Law: linear interpolation at zero returns the starting vector, for any
/// scalar whose zero absorbs multiplication and is an additive identity.
pub proof fn lemma_vec2_lerp_zero<T: Float>(v: Vec2<T>, w: Vec2<T>)
    requires
        forall|a: T| #[trigger] a.spec_mul(T::spec_zero()) == T::spec_zero(),
        forall|a: T| #[trigger] a.spec_add(T::spec_zero()) == a,
    ensures
        v.spec_lerp(w, T::spec_zero()) == v,
{
}

/// The same law, for `Vec3`.
pub proof fn lemma_vec3_lerp_zero<T: Float>(v: Vec3<T>, w: Vec3<T>)
    requires
        forall|a: T| #[trigger] a.spec_mul(T::spec_zero()) == T::spec_zero(),
        forall|a: T| #[trigger] a.spec_add(T::spec_zero()) == a,
    ensures
        v.spec_lerp(w, T::spec_zero()) == v,
{
}

/// The same law, for `Vec4`.
pub proof fn lemma_vec4_lerp_zero<T: Float>(v: Vec4<T>, w: Vec4<T>)
    requires
        forall|a: T| #[trigger] a.spec_mul(T::spec_zero()) == T::spec_zero(),
        forall|a: T| #[trigger] a.spec_add(T::spec_zero()) == a,
    ensures
        v.spec_lerp(w, T::spec_zero()) == v,
{
}

/// Law: linear interpolation at one returns the target vector, for any
/// scalar whose one is a multiplicative identity and whose subtraction is
/// cancelled exactly by addition.  (A machine floating-point scalar meets
/// the second premise only where `a + (b - a)` happens to round to `b`.)
pub proof fn lemma_vec2_lerp_one<T: Float>(v: Vec2<T>, w: Vec2<T>)
    requires
        forall|a: T| #[trigger] a.spec_mul(T::spec_one()) == a,
        forall|a: T, b: T| #[trigger] a.spec_add(b.spec_sub(a)) == b,
    ensures
        v.spec_lerp(w, T::spec_one()) == w,
{
}

/// The same law, for `Vec3`.
pub proof fn lemma_vec3_lerp_one<T: Float>(v: Vec3<T>, w: Vec3<T>)
    requires
        forall|a: T| #[trigger] a.spec_mul(T::spec_one()) == a,
        forall|a: T, b: T| #[trigger] a.spec_add(b.spec_sub(a)) == b,
    ensures
        v.spec_lerp(w, T::spec_one()) == w,
{
}

/// The same law, for `Vec4`.
pub proof fn lemma_vec4_lerp_one<T: Float>(v: Vec4<T>, w: Vec4<T>)
    requires
        forall|a: T| #[trigger] a.spec_mul(T::spec_one()) == a,
        forall|a: T, b: T| #[trigger] a.spec_add(b.spec_sub(a)) == b,
    ensures
        v.spec_lerp(w, T::spec_one()) == w,
{
}

/// Law: widening a vector zero-pads the new trailing components, and
/// narrowing it back recovers the original exactly, for every arity pair.
pub proof fn lemma_vec2_vec3_round_trip<T: Float>(v: Vec2<T>)
    ensures
        Vec3::<T>::from_spec(v) == (Vec3 { x: v.x, y: v.y, z: T::spec_zero() }),
        Vec2::<T>::from_spec(Vec3::<T>::from_spec(v)) == v,
{
}

/// The same law, for `Vec2` into `Vec4`.
pub proof fn lemma_vec2_vec4_round_trip<T: Float>(v: Vec2<T>)
    ensures
        Vec4::<T>::from_spec(v) == (Vec4 { x: v.x, y: v.y, z: T::spec_zero(), w: T::spec_zero() }),
        Vec2::<T>::from_spec(Vec4::<T>::from_spec(v)) == v,
{
}

/// The same law, for `Vec3` into `Vec4`.
pub proof fn lemma_vec3_vec4_round_trip<T: Float>(v: Vec3<T>)
    ensures
        Vec4::<T>::from_spec(v) == (Vec4 { x: v.x, y: v.y, z: v.z, w: T::spec_zero() }),
        Vec3::<T>::from_spec(Vec4::<T>::from_spec(v)) == v,
{
}

/// Law: narrowing a vector keeps its leading components and drops the
/// rest, for every arity pair.
pub proof fn lemma_vec3_vec2_truncate<T: Float>(v: Vec3<T>)
    ensures
        Vec2::<T>::from_spec(v) == (Vec2 { x: v.x, y: v.y }),
{
}

/// The same law, for `Vec4` into `Vec2`.
pub proof fn lemma_vec4_vec2_truncate<T: Float>(v: Vec4<T>)
    ensures
        Vec2::<T>::from_spec(v) == (Vec2 { x: v.x, y: v.y }),
{
}

/// The same law, for `Vec4` into `Vec3`.
pub proof fn lemma_vec4_vec3_truncate<T: Float>(v: Vec4<T>)
    ensures
        Vec3::<T>::from_spec(v) == (Vec3 { x: v.x, y: v.y, z: v.z }),
{
}

/// Law: normalizing a vector of zero magnitude leaves it unchanged; the
/// explicit guard against a division by zero.
pub proof fn lemma_vec2_normalize_zero_guard<T: Float>(v: Vec2<T>)
    requires
        v.spec_magnitude() == T::spec_zero(),
    ensures
        v.spec_normalize() == v,
{
}

/// The same law, for `Vec3`.
pub proof fn lemma_vec3_normalize_zero_guard<T: Float>(v: Vec3<T>)
    requires
        v.spec_magnitude() == T::spec_zero(),
    ensures
        v.spec_normalize() == v,
{
}

/// The same law, for `Vec4`.
pub proof fn lemma_vec4_normalize_zero_guard<T: Float>(v: Vec4<T>)
    requires
        v.spec_magnitude() == T::spec_zero(),
    ensures
        v.spec_normalize() == v,
{
}

} // verus!
