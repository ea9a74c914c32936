//! The scalar capability trait.
//!
//! Vectors, matrices and quaternions are generic over a scalar type `T:
//! Float`.  The trait names every operation a scalar must support (square
//! root, trigonometry, identities, tolerance comparison) twice: once as an
//! abstract `spec` function that models the operation, and once as an
//! executable method whose contract says it returns exactly the modelled
//! value.  Implementations live with the host application (typically thin
//! wrappers around a machine floating-point type); a verified implementation
//! must prove each method against its model.

use vstd::prelude::*;

verus! {

/// Capability set for the scalar of a vector, matrix or quaternion.
///
/// All angle-taking operations work in radians; degree conversion is the
/// explicit, separate operation [`Float::to_degrees`] / [`Float::to_radians`].
pub trait Float: Sized + Copy {
    /// Model of addition of two scalars.
    spec fn spec_add(self, rhs: Self) -> Self;

    /// Model of subtraction of two scalars.
    spec fn spec_sub(self, rhs: Self) -> Self;

    /// Model of multiplication of two scalars.
    spec fn spec_mul(self, rhs: Self) -> Self;

    /// Model of division of two scalars.
    spec fn spec_div(self, rhs: Self) -> Self;

    /// Model of arithmetic negation.
    spec fn spec_neg(self) -> Self;

    /// Model of the square root.
    spec fn spec_sqrt(self) -> Self;

    /// Model of the sine of an angle in radians.
    spec fn spec_sin(self) -> Self;

    /// Model of the cosine of an angle in radians.
    spec fn spec_cos(self) -> Self;

    /// Model of the arc cosine, in radians.
    spec fn spec_acos(self) -> Self;

    /// Model of the multiplicative identity.
    spec fn spec_one() -> Self;

    /// Model of the additive identity.
    spec fn spec_zero() -> Self;

    /// Model of the negated multiplicative identity.
    spec fn spec_neg_one() -> Self;

    /// Model of one half.
    spec fn spec_one_half() -> Self;

    /// Model of the radians-to-degrees conversion.
    spec fn spec_to_degrees(self) -> Self;

    /// Model of the degrees-to-radians conversion.
    spec fn spec_to_radians(self) -> Self;

    /// Model of clamping into `[min, max]`.
    spec fn spec_clamp(self, min: Self, max: Self) -> Self;

    /// Model of the tolerance comparison.
    spec fn spec_aprox_eq(self, other: Self, within: Self) -> bool;

    fn add(self, rhs: Self) -> (r: Self)
        ensures
            r == self.spec_add(rhs),
    ;

    fn sub(self, rhs: Self) -> (r: Self)
        ensures
            r == self.spec_sub(rhs),
    ;

    fn mul(self, rhs: Self) -> (r: Self)
        ensures
            r == self.spec_mul(rhs),
    ;

    fn div(self, rhs: Self) -> (r: Self)
        ensures
            r == self.spec_div(rhs),
    ;

    fn neg(self) -> (r: Self)
        ensures
            r == self.spec_neg(),
    ;

    fn sqrt(self) -> (r: Self)
        ensures
            r == self.spec_sqrt(),
    ;

    fn sin(self) -> (r: Self)
        ensures
            r == self.spec_sin(),
    ;

    fn cos(self) -> (r: Self)
        ensures
            r == self.spec_cos(),
    ;

    /// The sine and cosine of `self`, together; must agree with the
    /// separate [`Float::sin`] and [`Float::cos`] operations.
    fn sin_cos(self) -> (r: (Self, Self))
        ensures
            r.0 == self.spec_sin(),
            r.1 == self.spec_cos(),
    ;

    fn acos(self) -> (r: Self)
        ensures
            r == self.spec_acos(),
    ;

    fn one() -> (r: Self)
        ensures
            r == Self::spec_one(),
    ;

    fn zero() -> (r: Self)
        ensures
            r == Self::spec_zero(),
    ;

    fn neg_one() -> (r: Self)
        ensures
            r == Self::spec_neg_one(),
    ;

    fn one_half() -> (r: Self)
        ensures
            r == Self::spec_one_half(),
    ;

    fn to_degrees(self) -> (r: Self)
        ensures
            r == self.spec_to_degrees(),
    ;

    fn to_radians(self) -> (r: Self)
        ensures
            r == self.spec_to_radians(),
    ;

    fn clamp(self, min: Self, max: Self) -> (r: Self)
        ensures
            r == self.spec_clamp(min, max),
    ;

    /// Whether `self` and `other` agree within the tolerance `within`.
    fn aprox_eq(self, other: Self, within: Self) -> (r: bool)
        ensures
            r == self.spec_aprox_eq(other, within),
    ;

    /// Whether `self` is the additive identity; the guard used wherever a
    /// division by a magnitude must be avoided.
    fn is_zero(self) -> (r: bool)
        ensures
            r == (self == Self::spec_zero()),
    ;
}

} // verus!
