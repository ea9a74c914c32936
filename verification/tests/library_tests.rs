//! The library exercised end to end with machine floating-point scalars.
//!
//! The library is generic over its [`math::Float`] capability trait, so
//! these tests supply the two obvious scalars: thin newtypes around `f32`
//! and `f64`.

use math::{matrix, vector, Float, Mat2, Mat3, Mat4, MatrixOps, Vec2, Vec3, Vec4, VectorOps};

#[derive(Clone, Copy, Debug, PartialEq)]
struct F32(f32);

impl Float for F32 {
    fn spec_add(self, rhs: Self) -> Self {
        F32(self.0 + rhs.0)
    }
    fn spec_sub(self, rhs: Self) -> Self {
        F32(self.0 - rhs.0)
    }
    fn spec_mul(self, rhs: Self) -> Self {
        F32(self.0 * rhs.0)
    }
    fn spec_div(self, rhs: Self) -> Self {
        F32(self.0 / rhs.0)
    }
    fn spec_neg(self) -> Self {
        F32(-self.0)
    }
    fn spec_sqrt(self) -> Self {
        F32(self.0.sqrt())
    }
    fn spec_sin(self) -> Self {
        F32(self.0.sin())
    }
    fn spec_cos(self) -> Self {
        F32(self.0.cos())
    }
    fn spec_acos(self) -> Self {
        F32(self.0.acos())
    }
    fn spec_to_degrees(self) -> Self {
        F32(self.0.to_degrees())
    }
    fn spec_to_radians(self) -> Self {
        F32(self.0.to_radians())
    }
    fn spec_one() -> Self {
        F32(1.0)
    }
    fn spec_zero() -> Self {
        F32(0.0)
    }
    fn spec_neg_one() -> Self {
        F32(-1.0)
    }
    fn spec_one_half() -> Self {
        F32(0.5)
    }
    fn spec_clamp(self, min: Self, max: Self) -> Self {
        F32(self.0.clamp(min.0, max.0))
    }
    fn spec_aprox_eq(self, other: Self, within: Self) -> bool {
        (self.0 - other.0) <= within.0
    }
    fn add(self, rhs: Self) -> Self {
        F32(self.0 + rhs.0)
    }
    fn sub(self, rhs: Self) -> Self {
        F32(self.0 - rhs.0)
    }
    fn mul(self, rhs: Self) -> Self {
        F32(self.0 * rhs.0)
    }
    fn div(self, rhs: Self) -> Self {
        F32(self.0 / rhs.0)
    }
    fn neg(self) -> Self {
        F32(-self.0)
    }
    fn sqrt(self) -> Self {
        F32(self.0.sqrt())
    }
    fn sin(self) -> Self {
        F32(self.0.sin())
    }
    fn cos(self) -> Self {
        F32(self.0.cos())
    }
    fn acos(self) -> Self {
        F32(self.0.acos())
    }
    fn to_degrees(self) -> Self {
        F32(self.0.to_degrees())
    }
    fn to_radians(self) -> Self {
        F32(self.0.to_radians())
    }
    fn sin_cos(self) -> (Self, Self) {
        let (s, c) = self.0.sin_cos();
        (F32(s), F32(c))
    }
    fn one() -> Self {
        F32(1.0)
    }
    fn zero() -> Self {
        F32(0.0)
    }
    fn neg_one() -> Self {
        F32(-1.0)
    }
    fn one_half() -> Self {
        F32(0.5)
    }
    fn clamp(self, min: Self, max: Self) -> Self {
        F32(self.0.clamp(min.0, max.0))
    }
    fn aprox_eq(self, other: Self, within: Self) -> bool {
        (self.0 - other.0) <= within.0
    }
    fn is_zero(self) -> bool {
        self.0 == 0.0
    }
}

#[derive(Clone, Copy, Debug, PartialEq)]
struct F64(f64);

impl Float for F64 {
    fn spec_add(self, rhs: Self) -> Self {
        F64(self.0 + rhs.0)
    }
    fn spec_sub(self, rhs: Self) -> Self {
        F64(self.0 - rhs.0)
    }
    fn spec_mul(self, rhs: Self) -> Self {
        F64(self.0 * rhs.0)
    }
    fn spec_div(self, rhs: Self) -> Self {
        F64(self.0 / rhs.0)
    }
    fn spec_neg(self) -> Self {
        F64(-self.0)
    }
    fn spec_sqrt(self) -> Self {
        F64(self.0.sqrt())
    }
    fn spec_sin(self) -> Self {
        F64(self.0.sin())
    }
    fn spec_cos(self) -> Self {
        F64(self.0.cos())
    }
    fn spec_acos(self) -> Self {
        F64(self.0.acos())
    }
    fn spec_to_degrees(self) -> Self {
        F64(self.0.to_degrees())
    }
    fn spec_to_radians(self) -> Self {
        F64(self.0.to_radians())
    }
    fn spec_one() -> Self {
        F64(1.0)
    }
    fn spec_zero() -> Self {
        F64(0.0)
    }
    fn spec_neg_one() -> Self {
        F64(-1.0)
    }
    fn spec_one_half() -> Self {
        F64(0.5)
    }
    fn spec_clamp(self, min: Self, max: Self) -> Self {
        F64(self.0.clamp(min.0, max.0))
    }
    fn spec_aprox_eq(self, other: Self, within: Self) -> bool {
        (self.0 - other.0) <= within.0
    }
    fn add(self, rhs: Self) -> Self {
        F64(self.0 + rhs.0)
    }
    fn sub(self, rhs: Self) -> Self {
        F64(self.0 - rhs.0)
    }
    fn mul(self, rhs: Self) -> Self {
        F64(self.0 * rhs.0)
    }
    fn div(self, rhs: Self) -> Self {
        F64(self.0 / rhs.0)
    }
    fn neg(self) -> Self {
        F64(-self.0)
    }
    fn sqrt(self) -> Self {
        F64(self.0.sqrt())
    }
    fn sin(self) -> Self {
        F64(self.0.sin())
    }
    fn cos(self) -> Self {
        F64(self.0.cos())
    }
    fn acos(self) -> Self {
        F64(self.0.acos())
    }
    fn to_degrees(self) -> Self {
        F64(self.0.to_degrees())
    }
    fn to_radians(self) -> Self {
        F64(self.0.to_radians())
    }
    fn sin_cos(self) -> (Self, Self) {
        let (s, c) = self.0.sin_cos();
        (F64(s), F64(c))
    }
    fn one() -> Self {
        F64(1.0)
    }
    fn zero() -> Self {
        F64(0.0)
    }
    fn neg_one() -> Self {
        F64(-1.0)
    }
    fn one_half() -> Self {
        F64(0.5)
    }
    fn clamp(self, min: Self, max: Self) -> Self {
        F64(self.0.clamp(min.0, max.0))
    }
    fn aprox_eq(self, other: Self, within: Self) -> bool {
        (self.0 - other.0) <= within.0
    }
    fn is_zero(self) -> bool {
        self.0 == 0.0
    }
}

#[test]
fn vector_statics() {
    let vec2 = Vec2::new(F64(1.0), F64(2.0));
    let vec3 = Vec3::new(F64(1.0), F64(2.0), F64(3.0));
    let vec4 = Vec4::new(F64(1.0), F64(2.0), F64(3.0), F64(4.0));

    //test add
    let res = vector::add(vec2, vec2);
    assert_eq!(res, Vec2::new(F64(2.0), F64(4.0)));
    let res = vector::add(vec3, vec3);
    assert_eq!(res, Vec3::new(F64(2.0), F64(4.0), F64(6.0)));
    let res = vector::add(vec4, vec4);
    assert_eq!(res, Vec4::new(F64(2.0), F64(4.0), F64(6.0), F64(8.0)));

    //test sub
    let res = vector::sub(vec2, vec2);
    assert_eq!(res, Vec2::default());
    let res = vector::sub(vec3, vec3);
    assert_eq!(res, Vec3::default());
    let res = vector::sub(vec4, vec4);
    assert_eq!(res, Vec4::default());

    //test scale
    let res = vector::scale(vec2, F64(2.0));
    assert_eq!(res, Vec2::new(F64(2.0), F64(4.0)));
    let res = vector::scale(vec3, F64(2.0));
    assert_eq!(res, Vec3::new(F64(2.0), F64(4.0), F64(6.0)));
    let res = vector::scale(vec4, F64(2.0));
    assert_eq!(res, Vec4::new(F64(2.0), F64(4.0), F64(6.0), F64(8.0)));

    //test magnitude
    let res = vector::magnitude(vec2);
    assert!(f64::abs(res.0 - 2.23606797749979) < f64::EPSILON);
    let res = vector::magnitude(vec3);
    assert!(f64::abs(res.0 - 3.7416573867739413) < f64::EPSILON);
    let res = vector::magnitude(vec4);
    assert!(f64::abs(res.0 - 5.477225575051661) < f64::EPSILON);

    //test square magnitude
    let res = vector::sq_magnitude(vec2);
    assert_eq!(res, F64(5.0));
    let res = vector::sq_magnitude(vec3);
    assert_eq!(res, F64(14.0));
    let res = vector::sq_magnitude(vec4);
    assert_eq!(res, F64(30.0));

    //test normalize
    let res = vector::normalize(vec2);
    assert_eq!(res, (F64(0.4472135954999579), F64(0.8944271909999159)).into());
    let res = vector::normalize(vec3);
    assert_eq!(
        res,
        (F64(0.2672612419124244), F64(0.5345224838248488), F64(0.8017837257372732)).into()
    );
    let res = vector::normalize(vec4);
    assert_eq!(
        res,
        (
            F64(0.18257418583505536),
            F64(0.3651483716701107),
            F64(0.5477225575051661),
            F64(0.7302967433402214)
        )
            .into()
    );

    //test distance
    let from = Vec2::new(F64(1.0), F64(1.0));
    let to = Vec2::zeroed();
    let res = vector::distance(from, to);
    assert_eq!(res, (F64(-1.0), F64(-1.0)).into());
    let from = Vec3::zeroed();
    let to = Vec3::new(F64(4.0), F64(1.0), F64(2.0));
    let res = vector::distance(from, to);
    assert_eq!(res, (F64(4.0), F64(1.0), F64(2.0)).into());
    let from = Vec4::new(F64(1.0), F64(1.0), F64(2.0), F64(2.0));
    let to = Vec4::new(F64(4.0), F64(1.0), F64(3.0), F64(3.0));
    let res = vector::distance(from, to);
    assert_eq!(res, (F64(3.0), F64(0.0), F64(1.0), F64(1.0)).into());

    //test dot
    let vec1 = Vec2::new(F64(1.0), F64(2.0));
    let vec2 = Vec2::new(F64(3.0), F64(4.0));
    let res = vector::dot(vec1, vec2);
    assert_eq!(res, F64(11.0));
    let vec1 = Vec3::new(F64(1.0), F64(2.0), F64(3.0));
    let vec2 = Vec3::new(F64(3.0), F64(4.0), F64(5.0));
    let res = vector::dot(vec1, vec2);
    assert_eq!(res, F64(26.0));
    let vec1 = Vec4::new(F64(1.0), F64(2.0), F64(3.0), F64(4.0));
    let vec2 = Vec4::new(F64(3.0), F64(4.0), F64(5.0), F64(6.0));
    let res = vector::dot(vec1, vec2);
    assert_eq!(res, F64(50.0));

    //test angle
    let vec1 = Vec2::new(F64(1.0), F64(0.0));
    let vec2 = Vec2::new(F64(0.0), F64(1.0));
    let res = vector::angle(vec1, vec2).to_degrees();
    assert!(f64::abs(res.0 - 90.0) < 0.001);
    let vec1 = Vec3::new(F64(1.0), F64(0.0), F64(0.0));
    let vec2 = Vec3::new(F64(-3.0), F64(0.0), F64(0.0));
    let res = vector::angle(vec1, vec2).to_degrees();
    assert!(f64::abs(res.0 - 180.0) < 0.001);
    let vec1 = Vec4::new(F64(1.0), F64(0.0), F64(0.0), F64(0.0));
    let vec2 = Vec4::new(F64(0.0), F64(4.0), F64(0.0), F64(0.0));
    let res = vector::angle(vec1, vec2).to_degrees();
    assert!(f64::abs(res.0 - 90.0) < 0.001);

    //test lerp
    let vec1 = Vec2::new(F64(0.0), F64(0.0));
    let vec2 = Vec2::new(F64(4.0), F64(4.0));
    assert_eq!(vector::lerp(vec1, vec2, F64(0.0)), vec1);
    assert_eq!(vector::lerp(vec1, vec2, F64(0.25)), Vec2::new(F64(1.0), F64(1.0)));
    assert_eq!(vector::lerp(vec1, vec2, F64(0.50)), Vec2::new(F64(2.0), F64(2.0)));
    assert_eq!(vector::lerp(vec1, vec2, F64(0.75)), Vec2::new(F64(3.0), F64(3.0)));
    assert_eq!(vector::lerp(vec1, vec2, F64(1.0)), vec2);
    let vec1 = Vec3::new(F64(0.0), F64(0.0), F64(0.0));
    let vec2 = Vec3::new(F64(4.0), F64(4.0), F64(4.0));
    assert_eq!(vector::lerp(vec1, vec2, F64(0.0)), vec1);
    assert_eq!(vector::lerp(vec1, vec2, F64(0.25)), Vec3::new(F64(1.0), F64(1.0), F64(1.0)));
    assert_eq!(vector::lerp(vec1, vec2, F64(0.50)), Vec3::new(F64(2.0), F64(2.0), F64(2.0)));
    assert_eq!(vector::lerp(vec1, vec2, F64(0.75)), Vec3::new(F64(3.0), F64(3.0), F64(3.0)));
    assert_eq!(vector::lerp(vec1, vec2, F64(1.0)), vec2);
    let vec1 = Vec4::new(F64(0.0), F64(0.0), F64(0.0), F64(0.0));
    let vec2 = Vec4::new(F64(4.0), F64(4.0), F64(4.0), F64(4.0));
    assert_eq!(vector::lerp(vec1, vec2, F64(0.0)), vec1);
    assert_eq!(
        vector::lerp(vec1, vec2, F64(0.25)),
        Vec4::new(F64(1.0), F64(1.0), F64(1.0), F64(1.0))
    );
    assert_eq!(
        vector::lerp(vec1, vec2, F64(0.50)),
        Vec4::new(F64(2.0), F64(2.0), F64(2.0), F64(2.0))
    );
    assert_eq!(
        vector::lerp(vec1, vec2, F64(0.75)),
        Vec4::new(F64(3.0), F64(3.0), F64(3.0), F64(3.0))
    );
    assert_eq!(vector::lerp(vec1, vec2, F64(1.0)), vec2);

    //test nlerp
    let vec1 = Vec2::new(F64(-200.0), F64(0.0));
    let vec2 = Vec2::new(F64(0.0), F64(200.0));
    assert_eq!(vector::nlerp(vec1, vec2, F64(0.0)), vec1.normalize());
    assert_eq!(
        vector::nlerp(vec1, vec2, F64(0.5)),
        (F64(-0.7071067811865475), F64(0.7071067811865475)).into()
    );
    assert_eq!(vector::nlerp(vec1, vec2, F64(1.0)), vec2.normalize());
    let vec1 = Vec3::new(F64(-200.0), F64(0.0), F64(0.0));
    let vec2 = Vec3::new(F64(0.0), F64(200.0), F64(0.0));
    assert_eq!(vector::nlerp(vec1, vec2, F64(0.0)), vec1.normalize());
    assert_eq!(
        vector::nlerp(vec1, vec2, F64(0.5)),
        (F64(-0.7071067811865475), F64(0.7071067811865475), F64(0.0)).into()
    );
    assert_eq!(vector::nlerp(vec1, vec2, F64(1.0)), vec2.normalize());
    let vec1 = Vec4::new(F64(-200.0), F64(0.0), F64(0.0), F64(0.0));
    let vec2 = Vec4::new(F64(0.0), F64(200.0), F64(0.0), F64(0.0));
    assert_eq!(vector::nlerp(vec1, vec2, F64(0.0)), vec1.normalize());
    assert_eq!(
        vector::nlerp(vec1, vec2, F64(0.5)),
        (F64(-0.7071067811865475), F64(0.7071067811865475), F64(0.0), F64(0.0)).into()
    );
    assert_eq!(vector::nlerp(vec1, vec2, F64(1.0)), vec2.normalize());

    //test slerp
    let vec1 = Vec2::new(F32(1.0), F32(0.0));
    let vec2 = Vec2::new(F32(0.0), F32(1.0));
    assert!(vector::slerp(vec1, vec2, F32(0.0)).approx_eq(vec1, F32(f32::EPSILON)));
    assert!(
        vector::slerp(vec1, vec2, F32(0.25))
            .approx_eq(Vec2::new(F32(0.92387), F32(0.38268)), F32(0.0001))
    );
    assert!(
        vector::slerp(vec1, vec2, F32(0.5))
            .approx_eq(Vec2::new(F32(0.70710), F32(0.70710)), F32(0.0001))
    );
    assert!(
        vector::slerp(vec1, vec2, F32(0.75))
            .approx_eq(Vec2::new(F32(0.38268), F32(0.92387)), F32(0.0001))
    );
    assert!(vec1.slerp(vec2, F32(1.0)).approx_eq(vec2, F32(f32::EPSILON)));
    let vec1 = Vec3::new(F32(1.0), F32(0.0), F32(0.0));
    let vec2 = Vec3::new(F32(0.0), F32(1.0), F32(0.0));
    assert!(vector::slerp(vec1, vec2, F32(0.0)).approx_eq(vec1, F32(f32::EPSILON)));
    assert!(
        vector::slerp(vec1, vec2, F32(0.25))
            .approx_eq(Vec3::new(F32(0.92387), F32(0.38268), F32(0.0)), F32(0.0001))
    );
    assert!(
        vector::slerp(vec1, vec2, F32(0.5))
            .approx_eq(Vec3::new(F32(0.70710), F32(0.70710), F32(0.0)), F32(0.0001))
    );
    assert!(
        vector::slerp(vec1, vec2, F32(0.75))
            .approx_eq(Vec3::new(F32(0.38268), F32(0.92387), F32(0.0)), F32(0.0001))
    );
    assert!(vector::slerp(vec1, vec2, F32(1.0)).approx_eq(vec2, F32(f32::EPSILON)));
    let vec1 = Vec4::new(F32(1.0), F32(0.0), F32(0.0), F32(0.0));
    let vec2 = Vec4::new(F32(0.0), F32(1.0), F32(0.0), F32(0.0));
    assert!(vector::slerp(vec1, vec2, F32(0.0)).approx_eq(vec1, F32(f32::EPSILON)));
    assert!(
        vector::slerp(vec1, vec2, F32(0.25))
            .approx_eq(Vec4::new(F32(0.92387), F32(0.38268), F32(0.0), F32(0.0)), F32(0.0001))
    );
    assert!(
        vector::slerp(vec1, vec2, F32(0.5))
            .approx_eq(Vec4::new(F32(0.70710), F32(0.70710), F32(0.0), F32(0.0)), F32(0.0001))
    );
    assert!(
        vector::slerp(vec1, vec2, F32(0.75))
            .approx_eq(Vec4::new(F32(0.38268), F32(0.92387), F32(0.0), F32(0.0)), F32(0.0001))
    );
    assert!(vector::slerp(vec1, vec2, F32(1.0)).approx_eq(vec2, F32(f32::EPSILON)));
}

#[test]
fn test_vec_2() {
    //test new
    let vector = Vec2::new(F32(2.0), F32(1.0));
    assert_eq!(vector, (F32(2.0), F32(1.0)).into());

    //test unit_x
    let vector = Vec2::unit_x();
    assert_eq!(vector, (F32(1.0), F32(0.0)).into());

    //test unit_y
    let vector = Vec2::unit_y();
    assert_eq!(vector, (F32(0.0), F32(1.0)).into());

    //test zeroed
    assert_eq!(Vec2::zeroed(), (F32(0.0), F32(0.0)).into());

    //test add
    let vector = Vec2::new(F32(0.0), F32(1.0));
    let vector = vector.add((F32(5.0), F32(4.0)).into());
    assert_eq!(vector, (F32(5.0), F32(5.0)).into());

    //test sub
    let vector = vector.sub((F32(-5.0), F32(-5.0)).into());
    assert_eq!(vector, (F32(10.0), F32(10.0)).into());

    //test scale
    let vector = vector.scale(F32(5.0));
    assert_eq!(vector, (F32(50.0), F32(50.0)).into());

    //test magnitude
    let mag = vector.magnitude();
    assert!(f32::abs(mag.0 - 70.71068) < f32::EPSILON);

    //test sq_magnitude
    let sq_mag = vector.sq_magnitude();
    assert_eq!(sq_mag, F32(5000.0));

    //test normalize
    let vector = vector.normalize();
    assert_eq!(vector, (F32(0.7071067811865475), F32(0.7071067811865475)).into());

    //test distance
    let from = Vec2::zeroed();
    let to = Vec2::new(F32(1.0), F32(2.0));
    let vector = from.distance(to);
    assert_eq!(vector, (F32(1.0), F32(2.0)).into());

    //test dot
    let vec1 = Vec2::new(F32(3.0), F32(4.0));
    let vec2 = Vec2::new(F32(5.0), F32(6.0));
    let dot = vec1.dot(vec2);
    assert_eq!(dot, F32(39.0));

    //test angle
    let vec1 = Vec2::new(F32(1.0), F32(0.0));
    let vec2 = Vec2::new(F32(0.0), F32(1.0));
    let res = vec1.angle(vec2).to_degrees();
    assert!(f64::abs(res.0 as f64 - 90.0) < 0.001);

    //test lerp
    let vec1 = Vec2::new(F32(0.0), F32(0.0));
    let vec2 = Vec2::new(F32(4.0), F32(4.0));
    assert_eq!(vec1.lerp(vec2, F32(0.0)), vec1);
    assert_eq!(vec1.lerp(vec2, F32(0.25)), Vec2::new(F32(1.0), F32(1.0)));
    assert_eq!(vec1.lerp(vec2, F32(0.50)), Vec2::new(F32(2.0), F32(2.0)));
    assert_eq!(vec1.lerp(vec2, F32(0.75)), Vec2::new(F32(3.0), F32(3.0)));
    assert_eq!(vec1.lerp(vec2, F32(1.0)), vec2);

    //test nlerp
    let vec1 = Vec2::new(F32(-200.0), F32(0.0));
    let vec2 = Vec2::new(F32(0.0), F32(200.0));
    assert_eq!(vec1.nlerp(vec2, F32(0.0)), vec1.normalize());
    assert_eq!(vec1.nlerp(vec2, F32(0.5)), (F32(-0.7071067811865475), F32(0.7071067811865475)).into());
    assert_eq!(vec1.nlerp(vec2, F32(1.0)), vec2.normalize());

    //test slerp
    let vec1 = Vec2::new(F32(1.0), F32(0.0));
    let vec2 = Vec2::new(F32(0.0), F32(1.0));
    assert!(vec1.slerp(vec2, F32(0.0)).approx_eq(vec1, F32(f32::EPSILON)));
    assert!(vec1.slerp(vec2, F32(0.25)).approx_eq(Vec2::new(F32(0.92387), F32(0.38268)), F32(0.0001)));
    assert!(vec1.slerp(vec2, F32(0.5)).approx_eq(Vec2::new(F32(0.70710), F32(0.70710)), F32(0.0001)));
    assert!(vec1.slerp(vec2, F32(0.75)).approx_eq(Vec2::new(F32(0.38268), F32(0.92387)), F32(0.0001)));
    assert!(vec1.slerp(vec2, F32(1.0)).approx_eq(vec2, F32(f32::EPSILON)));

    //test negation
    let vector = Vec2::new(F32(1.0), F32(2.0));
    let vector = vector.negate();
    assert_eq!(vector, (F32(-1.0), F32(-2.0)).into());

    //test add op
    let vector = Vec2::new(F32(1.0), F32(2.0));
    let vector = vector.add(vector);
    assert_eq!(vector, (F32(2.0), F32(4.0)).into());

    //test sub op
    let vector = Vec2::new(F32(1.0), F32(2.0));
    let vector = vector.sub(vector);
    assert_eq!(vector, (F32(0.0), F32(0.0)).into());

    //test mul op
    let vector = Vec2::new(F32(1.0), F32(2.0));
    let vector = vector.scale(F32(2.0));
    assert_eq!(vector, (F32(2.0), F32(4.0)).into());

    //test add assign op
    let mut vector = Vec2::new(F32(1.0), F32(2.0));
    vector.add_assign(vector);
    assert_eq!(vector, (F32(2.0), F32(4.0)).into());

    //test sub assign op
    let mut vector = Vec2::new(F32(1.0), F32(2.0));
    vector.sub_assign(vector);
    assert_eq!(vector, (F32(0.0), F32(0.0)).into());

    //test mul assign op
    let mut vector = Vec2::new(F32(1.0), F32(2.0));
    vector.mul_assign(F32(2.0));
    assert_eq!(vector, (F32(2.0), F32(4.0)).into());

    //test default
    let vector = Vec2::default();
    assert_eq!(vector, (F32(0.0), F32(0.0)).into());
}

#[test]
fn test_vec_3() {
    //test new
    let vector = Vec3::new(F32(2.0), F32(1.0), F32(3.0));
    assert_eq!(vector, (F32(2.0), F32(1.0), F32(3.0)).into());

    //test unit_x
    let vector = Vec3::unit_x();
    assert_eq!(vector, (F32(1.0), F32(0.0), F32(0.0)).into());

    //test unit_y
    let vector = Vec3::unit_y();
    assert_eq!(vector, (F32(0.0), F32(1.0), F32(0.0)).into());

    //test unit_z
    let vector = Vec3::unit_z();
    assert_eq!(vector, (F32(0.0), F32(0.0), F32(1.0)).into());

    //test zeroed
    assert_eq!(Vec3::zeroed(), (F32(0.0), F32(0.0), F32(0.0)).into());

    //test add
    let vector = Vec3::new(F32(0.0), F32(0.0), F32(0.0));
    let vector = vector.add((F32(5.0), F32(4.0), F32(3.0)).into());
    assert_eq!(vector, (F32(5.0), F32(4.0), F32(3.0)).into());

    //test sub
    let vector = Vec3::new(F32(-5.0), F32(-4.0), F32(-3.0));
    let vector = vector.sub((F32(-10.0), F32(-8.0), F32(-6.0)).into());
    assert_eq!(vector, (F32(5.0), F32(4.0), F32(3.0)).into());

    //test scale
    let vector = vector.scale(F32(5.0));
    assert_eq!(vector, (F32(25.0), F32(20.0), F32(15.0)).into());

    //test magnitude
    let mag = vector.magnitude();
    assert!(f32::abs(mag.0 - 35.35534) < f32::EPSILON);

    //test sq_magnitude
    let sq_mag = vector.sq_magnitude();
    assert_eq!(sq_mag, F32(1250.0));

    //test normalize
    let vector = vector.normalize();
    assert_eq!(vector, (F32(0.70710677), F32(0.56568545), F32(0.42426407)).into());

    //test distance
    let from = Vec3::zeroed();
    let to = Vec3::new(F32(1.0), F32(-2.0), F32(1.0));
    let vector = from.distance(to);
    assert_eq!(vector, (F32(1.0), F32(-2.0), F32(1.0)).into());

    //test dot
    let vec1 = Vec3::new(F32(3.0), F32(4.0), F32(5.0));
    let vec2 = Vec3::new(F32(5.0), F32(6.0), F32(7.0));
    let dot = vec1.dot(vec2);
    assert_eq!(dot, F32(74.0));

    //test angle
    let vec1 = Vec3::new(F32(1.0), F32(0.0), F32(0.0));
    let vec2 = Vec3::new(F32(-3.0), F32(0.0), F32(0.0));
    let res = vec1.angle(vec2).to_degrees();
    assert!(f64::abs(res.0 as f64 - 180.0) < 0.001);

    //test lerp
    let vec1 = Vec3::new(F32(0.0), F32(0.0), F32(0.0));
    let vec2 = Vec3::new(F32(4.0), F32(4.0), F32(4.0));
    assert_eq!(vec1.lerp(vec2, F32(0.0)), vec1);
    assert_eq!(vec1.lerp(vec2, F32(0.25)), Vec3::new(F32(1.0), F32(1.0), F32(1.0)));
    assert_eq!(vec1.lerp(vec2, F32(0.50)), Vec3::new(F32(2.0), F32(2.0), F32(2.0)));
    assert_eq!(vec1.lerp(vec2, F32(0.75)), Vec3::new(F32(3.0), F32(3.0), F32(3.0)));
    assert_eq!(vec1.lerp(vec2, F32(1.0)), vec2);

    //test nlerp
    let vec1 = Vec3::new(F32(-200.0), F32(0.0), F32(0.0));
    let vec2 = Vec3::new(F32(0.0), F32(200.0), F32(0.0));
    assert_eq!(vec1.nlerp(vec2, F32(0.0)), vec1.normalize());
    assert_eq!(
        vec1.nlerp(vec2, F32(0.5)),
        (F32(-0.7071067811865475), F32(0.7071067811865475), F32(0.0)).into()
    );
    assert_eq!(vec1.nlerp(vec2, F32(1.0)), vec2.normalize());

    //test slerp
    let vec1 = Vec3::new(F32(1.0), F32(0.0), F32(0.0));
    let vec2 = Vec3::new(F32(0.0), F32(1.0), F32(0.0));
    assert!(vec1.slerp(vec2, F32(0.0)).approx_eq(vec1, F32(f32::EPSILON)));
    assert!(
        vec1.slerp(vec2, F32(0.25)).approx_eq(Vec3::new(F32(0.92387), F32(0.38268), F32(0.0)), F32(0.0001))
    );
    assert!(
        vec1.slerp(vec2, F32(0.5)).approx_eq(Vec3::new(F32(0.70710), F32(0.70710), F32(0.0)), F32(0.0001))
    );
    assert!(
        vec1.slerp(vec2, F32(0.75)).approx_eq(Vec3::new(F32(0.38268), F32(0.92387), F32(0.0)), F32(0.0001))
    );

    //test negation
    let vector = Vec3::new(F32(5.0), F32(4.0), F32(3.0)).negate();
    assert_eq!(vector, (F32(-5.0), F32(-4.0), F32(-3.0)).into());

    //test add op
    let vector = Vec3::new(F32(1.0), F32(2.0), F32(3.0));
    let vector = vector.add(vector);
    assert_eq!(vector, (F32(2.0), F32(4.0), F32(6.0)).into());

    //test sub op
    let vector = Vec3::new(F32(1.0), F32(2.0), F32(3.0));
    let vector = vector.sub(vector);
    assert_eq!(vector, (F32(0.0), F32(0.0), F32(0.0)).into());

    //test mul op
    let vector = Vec3::new(F32(1.0), F32(2.0), F32(3.0));
    let vector = vector.scale(F32(2.0));
    assert_eq!(vector, (F32(2.0), F32(4.0), F32(6.0)).into());

    //test add assign op
    let mut vector = Vec3::new(F32(1.0), F32(2.0), F32(3.0));
    vector.add_assign(vector);
    assert_eq!(vector, (F32(2.0), F32(4.0), F32(6.0)).into());

    //test sub assign op
    let mut vector = Vec3::new(F32(1.0), F32(2.0), F32(3.0));
    vector.sub_assign(vector);
    assert_eq!(vector, (F32(0.0), F32(0.0), F32(0.0)).into());

    //test mul assign op
    let mut vector = Vec3::new(F32(1.0), F32(2.0), F32(3.0));
    vector.mul_assign(F32(2.0));
    assert_eq!(vector, (F32(2.0), F32(4.0), F32(6.0)).into());

    //test default
    let vector = Vec3::default();
    assert_eq!(vector, (F32(0.0), F32(0.0), F32(0.0)).into());
}

#[test]
fn test_vec_4() {
    //test new
    let vector = Vec4::new(F32(2.0), F32(1.0), F32(3.0), F32(4.0));
    assert_eq!(vector, (F32(2.0), F32(1.0), F32(3.0), F32(4.0)).into());

    //test unit_x
    let vector = Vec4::unit_x();
    assert_eq!(vector, (F32(1.0), F32(0.0), F32(0.0), F32(0.0)).into());

    //test unit_y
    let vector = Vec4::unit_y();
    assert_eq!(vector, (F32(0.0), F32(1.0), F32(0.0), F32(0.0)).into());

    //test unit_z
    let vector = Vec4::unit_z();
    assert_eq!(vector, (F32(0.0), F32(0.0), F32(1.0), F32(0.0)).into());

    //test unit_w
    let vector = Vec4::unit_w();
    assert_eq!(vector, (F32(0.0), F32(0.0), F32(0.0), F32(1.0)).into());

    //test zeroed
    assert_eq!(Vec4::zeroed(), (F32(0.0), F32(0.0), F32(0.0), F32(0.0)).into());

    //test add
    let vector = Vec4::new(F32(0.0), F32(0.0), F32(0.0), F32(0.0));
    let vector = vector.add((F32(5.0), F32(4.0), F32(3.0), F32(2.0)).into());
    assert_eq!(vector, (F32(5.0), F32(4.0), F32(3.0), F32(2.0)).into());

    //test sub
    let vector = Vec4::new(F32(-5.0), F32(-4.0), F32(-3.0), F32(-2.0));
    let vector = vector.sub((F32(-10.0), F32(-8.0), F32(-6.0), F32(-4.0)).into());
    assert_eq!(vector, (F32(5.0), F32(4.0), F32(3.0), F32(2.0)).into());

    //test scale
    let vector = vector.scale(F32(5.0));
    assert_eq!(vector, (F32(25.0), F32(20.0), F32(15.0), F32(10.0)).into());

    //test magnitude
    let mag = vector.magnitude();
    println!("{}", mag.0);
    assert!(f32::abs(mag.0 - 36.742348) < f32::EPSILON);

    //test sq_magnitude
    let sq_mag = vector.sq_magnitude();
    assert_eq!(sq_mag, F32(1350.0));

    //test normalize
    let vector = vector.normalize();
    assert_eq!(vector, (F32(0.6804138), F32(0.544331), F32(0.40824828), F32(0.2721655)).into());

    //test distance
    let from = Vec4::zeroed();
    let to = Vec4::new(F32(1.0), F32(-2.0), F32(1.0), F32(4.4));
    let vector = from.distance(to);
    assert_eq!(vector, (F32(1.0), F32(-2.0), F32(1.0), F32(4.4)).into());

    //test dot
    let vec1 = Vec4::new(F32(3.0), F32(4.0), F32(5.0), F32(6.0));
    let vec2 = Vec4::new(F32(5.0), F32(6.0), F32(7.0), F32(8.0));
    let dot = vec1.dot(vec2);
    assert_eq!(dot, F32(122.0));

    //test angle
    let vec1 = Vec4::new(F32(1.0), F32(0.0), F32(0.0), F32(0.0));
    let vec2 = Vec4::new(F32(0.0), F32(4.0), F32(0.0), F32(0.0));
    let res = vec1.angle(vec2).to_degrees();
    assert!(f64::abs(res.0 as f64 - 90.0) < 0.001);

    //test lerp
    let vec1 = Vec4::new(F32(0.0), F32(0.0), F32(0.0), F32(0.0));
    let vec2 = Vec4::new(F32(4.0), F32(4.0), F32(4.0), F32(4.0));
    assert_eq!(vec1.lerp(vec2, F32(0.0)), vec1);
    assert_eq!(vec1.lerp(vec2, F32(0.25)), Vec4::new(F32(1.0), F32(1.0), F32(1.0), F32(1.0)));
    assert_eq!(vec1.lerp(vec2, F32(0.50)), Vec4::new(F32(2.0), F32(2.0), F32(2.0), F32(2.0)));
    assert_eq!(vec1.lerp(vec2, F32(0.75)), Vec4::new(F32(3.0), F32(3.0), F32(3.0), F32(3.0)));
    assert_eq!(vec1.lerp(vec2, F32(1.0)), vec2);

    //test slerp
    let vec1 = Vec4::new(F32(1.0), F32(0.0), F32(0.0), F32(0.0));
    let vec2 = Vec4::new(F32(0.0), F32(1.0), F32(0.0), F32(0.0));
    assert!(vec1.slerp(vec2, F32(0.0)).approx_eq(vec1, F32(f32::EPSILON)));
    assert!(
        vec1.slerp(vec2, F32(0.25))
            .approx_eq(Vec4::new(F32(0.92387), F32(0.38268), F32(0.0), F32(0.0)), F32(0.0001))
    );
    assert!(
        vec1.slerp(vec2, F32(0.5))
            .approx_eq(Vec4::new(F32(0.70710), F32(0.70710), F32(0.0), F32(0.0)), F32(0.0001))
    );
    assert!(
        vec1.slerp(vec2, F32(0.75))
            .approx_eq(Vec4::new(F32(0.38268), F32(0.92387), F32(0.0), F32(0.0)), F32(0.0001))
    );
    assert!(vec1.slerp(vec2, F32(1.0)).approx_eq(vec2, F32(f32::EPSILON)));

    //test nlerp
    let vec1 = Vec4::new(F32(-200.0), F32(0.0), F32(0.0), F32(0.0));
    let vec2 = Vec4::new(F32(0.0), F32(200.0), F32(0.0), F32(0.0));
    assert_eq!(vec1.nlerp(vec2, F32(0.0)), vec1.normalize());
    assert_eq!(
        vec1.nlerp(vec2, F32(0.5)),
        (F32(-0.7071067811865475), F32(0.7071067811865475), F32(0.0), F32(0.0)).into()
    );
    assert_eq!(vec1.nlerp(vec2, F32(1.0)), vec2.normalize());

    //test negation
    let vector = Vec4::new(F32(5.0), F32(4.0), F32(3.0), F32(2.0));
    let vector = vector.negate();
    assert_eq!(vector, (F32(-5.0), F32(-4.0), F32(-3.0), F32(-2.0)).into());

    //test add op
    let vector = Vec4::new(F32(1.0), F32(2.0), F32(3.0), F32(4.0));
    let vector = vector.add(vector);
    assert_eq!(vector, (F32(2.0), F32(4.0), F32(6.0), F32(8.0)).into());

    //test sub op
    let vector = Vec4::new(F32(1.0), F32(2.0), F32(3.0), F32(4.0));
    let vector = vector.sub(vector);
    assert_eq!(vector, (F32(0.0), F32(0.0), F32(0.0), F32(0.0)).into());

    //test mul op
    let vector = Vec4::new(F32(1.0), F32(2.0), F32(3.0), F32(4.0));
    let vector = vector.scale(F32(2.0));
    assert_eq!(vector, (F32(2.0), F32(4.0), F32(6.0), F32(8.0)).into());

    //test add assign op
    let mut vector = Vec4::new(F32(1.0), F32(2.0), F32(3.0), F32(4.0));
    vector.add_assign(vector);
    assert_eq!(vector, (F32(2.0), F32(4.0), F32(6.0), F32(8.0)).into());

    //test sub assign op
    let mut vector = Vec4::new(F32(1.0), F32(2.0), F32(3.0), F32(4.0));
    vector.sub_assign(vector);
    assert_eq!(vector, (F32(0.0), F32(0.0), F32(0.0), F32(0.0)).into());

    //test mul assign op
    let mut vector = Vec4::new(F32(1.0), F32(2.0), F32(3.0), F32(4.0));
    vector.mul_assign(F32(2.0));
    assert_eq!(vector, (F32(2.0), F32(4.0), F32(6.0), F32(8.0)).into());

    //test default
    let vector = Vec4::default();
    assert_eq!(vector, (F32(0.0), F32(0.0), F32(0.0), F32(0.0)).into());
}

#[test]
fn test_mat_2() {
    //test new
    let mat = Mat2::new(F64(1.0), F64(2.0), F64(3.0), F64(4.0));
    assert_eq!(mat, [F64(1.0), F64(2.0), F64(3.0), F64(4.0)].into());

    //test from_cols
    let v1 = Vec2::new(F64(1.0), F64(3.0));
    let v2 = Vec2::new(F64(2.0), F64(4.0));
    let mat = Mat2::from_cols(v1, v2);
    assert_eq!(mat, [F64(1.0), F64(2.0), F64(3.0), F64(4.0)].into());

    //test zeroed
    let zero = Mat2::zeroed();
    assert_eq!(zero, [F64(0.0), F64(0.0), F64(0.0), F64(0.0)].into());

    //test identity
    let ident = Mat2::identity();
    assert_eq!(ident, [F64(1.0), F64(0.0), F64(0.0), F64(1.0)].into());

    //test get_element
    let mat = Mat2::new(F64(1.0), F64(2.0), F64(3.0), F64(4.0));
    let elem = mat.get_element(2);
    assert_eq!(elem, F64(3.0));

    //test get_column
    let mat = Mat2::new(F64(1.0), F64(2.0), F64(3.0), F64(4.0));
    let column = mat.get_column(matrix::Column::Y);
    assert_eq!(column, Vec2::new(F64(2.0), F64(4.0)));

    //test get_row
    let mat = Mat2::new(F64(1.0), F64(2.0), F64(3.0), F64(4.0));
    let row = mat.get_row(matrix::Row::X);
    assert_eq!(row, Vec2::new(F64(1.0), F64(2.0)));

    //test add
    let mat = Mat2::new(F64(1.0), F64(2.0), F64(3.0), F64(4.0));
    let res = mat.add(mat);
    assert_eq!(res, Mat2::new(F64(2.0), F64(4.0), F64(6.0), F64(8.0)));

    //test sub
    let mat = Mat2::new(F64(1.0), F64(2.0), F64(3.0), F64(4.0));
    let res = mat.sub(mat);
    assert_eq!(res, Mat2::zeroed());

    //test scale
    let mat = Mat2::new(F64(1.0), F64(2.0), F64(3.0), F64(4.0));
    let res = mat.scale(F64(2.0));
    assert_eq!(res, Mat2::new(F64(2.0), F64(4.0), F64(6.0), F64(8.0)));

    //test mult_mat
    let mat = Mat2::new(F64(1.0), F64(2.0), F64(3.0), F64(4.0));
    let res = mat.mult_mat(mat);
    assert_eq!(res, Mat2::new(F64(7.0), F64(10.0), F64(15.0), F64(22.0)));

    //test mult_vec
    let mat = Mat2::new(F64(1.0), F64(2.0), F64(3.0), F64(4.0));
    let vec = Vec2::new(F64(1.0), F64(2.0));
    let res = mat.mult_vec(vec);
    assert_eq!(res, Vec2::new(F64(5.0), F64(11.0)));
}

#[test]
fn test_mat_3() {
    //test new
    let mat = Mat3::new(
        F64(1.0), F64(2.0), F64(3.0), F64(4.0), F64(5.0), F64(6.0), F64(7.0), F64(8.0), F64(9.0),
    );
    assert_eq!(
        mat,
        [F64(1.0), F64(2.0), F64(3.0), F64(4.0), F64(5.0), F64(6.0), F64(7.0), F64(8.0), F64(9.0)]
            .into()
    );

    //test from_cols
    let v1 = Vec3::new(F64(1.0), F64(4.0), F64(7.0));
    let v2 = Vec3::new(F64(2.0), F64(5.0), F64(8.0));
    let v3 = Vec3::new(F64(3.0), F64(6.0), F64(9.0));
    let mat = Mat3::from_cols(v1, v2, v3);
    assert_eq!(
        mat,
        [F64(1.0), F64(2.0), F64(3.0), F64(4.0), F64(5.0), F64(6.0), F64(7.0), F64(8.0), F64(9.0)]
            .into()
    );

    //test zeroed
    let zero = Mat3::zeroed();
    assert_eq!(
        zero,
        [F64(0.0), F64(0.0), F64(0.0), F64(0.0), F64(0.0), F64(0.0), F64(0.0), F64(0.0), F64(0.0)]
            .into()
    );

    //test identity
    let ident = Mat3::identity();
    assert_eq!(
        ident,
        [F64(1.0), F64(0.0), F64(0.0), F64(0.0), F64(1.0), F64(0.0), F64(0.0), F64(0.0), F64(1.0)]
            .into()
    );

    //test get_element
    let mat = Mat3::new(
        F64(1.0), F64(2.0), F64(3.0), F64(4.0), F64(5.0), F64(6.0), F64(7.0), F64(8.0), F64(9.0),
    );
    let elem = mat.get_element(7);
    assert_eq!(elem, F64(8.0));

    //test get_column
    let column = mat.get_column(matrix::Column::Z);
    assert_eq!(column, Vec3::new(F64(3.0), F64(6.0), F64(9.0)));

    //test get_row
    let row = mat.get_row(matrix::Row::Z);
    assert_eq!(row, Vec3::new(F64(7.0), F64(8.0), F64(9.0)));

    //test add
    let res = mat.add(mat);
    assert_eq!(
        res,
        Mat3::new(
            F64(2.0), F64(4.0), F64(6.0), F64(8.0), F64(10.0), F64(12.0), F64(14.0), F64(16.0),
            F64(18.0),
        )
    );

    //test sub
    let res = mat.sub(mat);
    assert_eq!(res, Mat3::zeroed());

    //test scale
    let res = mat.scale(F64(2.0));
    assert_eq!(
        res,
        Mat3::new(
            F64(2.0), F64(4.0), F64(6.0), F64(8.0), F64(10.0), F64(12.0), F64(14.0), F64(16.0),
            F64(18.0),
        )
    );

    //test mult_mat
    let res = mat.mult_mat(mat);
    assert_eq!(
        res,
        Mat3::new(
            F64(30.0), F64(36.0), F64(42.0), F64(66.0), F64(81.0), F64(96.0), F64(102.0),
            F64(126.0), F64(150.0),
        )
    );

    //test mult_vec
    let vec = Vec3::new(F64(1.0), F64(2.0), F64(3.0));
    let res = mat.mult_vec(vec);
    assert_eq!(res, Vec3::new(F64(14.0), F64(32.0), F64(50.0)));
}

#[test]
fn test_vec_2_conversions() {
    let v1 = [F64(1.0), F64(2.0)];
    let v2 = (F64(1.0), F64(2.0));
    let v3 = Vec3::new(F64(-1.1), F64(2.2), F64(-3.3));
    let v4 = Vec4::new(F64(1.0), F64(2.0), F64(3.0), F64(4.0));

    let test1: Vec2<_> = v1.into();
    let test2: Vec2<_> = v2.into();
    let test3: Vec2<_> = v3.into();
    let test4: Vec2<_> = v4.into();

    assert_eq!(test1, Vec2::new(F64(1.0), F64(2.0)));
    assert_eq!(test2, Vec2::new(F64(1.0), F64(2.0)));
    assert_eq!(test3, Vec2::new(F64(-1.1), F64(2.2)));
    assert_eq!(test4, Vec2::new(F64(1.0), F64(2.0)));
}

#[test]
fn test_vec_3_conversions() {
    let v1 = [F64(1.0), F64(2.0), F64(3.0)];
    let v2 = (F64(1.0), F64(2.0), F64(3.0));
    let v3 = Vec2::new(F64(-1.1), F64(2.2));
    let v4 = Vec4::new(F64(1.0), F64(2.0), F64(3.0), F64(4.0));

    let test1: Vec3<_> = v1.into();
    let test2: Vec3<_> = v2.into();
    let test3: Vec3<_> = v3.into();
    let test4: Vec3<_> = v4.into();

    assert_eq!(test1, Vec3::new(F64(1.0), F64(2.0), F64(3.0)));
    assert_eq!(test2, Vec3::new(F64(1.0), F64(2.0), F64(3.0)));
    assert_eq!(test3, Vec3::new(F64(-1.1), F64(2.2), F64(0.0)));
    assert_eq!(test4, Vec3::new(F64(1.0), F64(2.0), F64(3.0)));
}

#[test]
fn test_vec_4_conversions() {
    let v1 = [F64(1.0), F64(2.0), F64(3.0), F64(4.0)];
    let v2 = (F64(1.0), F64(2.0), F64(3.0), F64(4.0));
    let v3 = Vec2::new(F64(-1.1), F64(2.2));
    let v4 = Vec3::new(F64(1.0), F64(2.0), F64(3.0));

    let test1: Vec4<_> = v1.into();
    let test2: Vec4<_> = v2.into();
    let test3: Vec4<_> = v3.into();
    let test4: Vec4<_> = v4.into();

    assert_eq!(test1, Vec4::new(F64(1.0), F64(2.0), F64(3.0), F64(4.0)));
    assert_eq!(test2, Vec4::new(F64(1.0), F64(2.0), F64(3.0), F64(4.0)));
    assert_eq!(test3, Vec4::new(F64(-1.1), F64(2.2), F64(0.0), F64(0.0)));
    assert_eq!(test4, Vec4::new(F64(1.0), F64(2.0), F64(3.0), F64(0.0)));
}

#[test]
fn test_mat_2_conversions() {
    let m2 = Mat2 { m00: F64(2.0), m01: F64(3.0), m10: F64(4.0), m11: F64(5.0) };

    assert_eq!(m2, [[F64(2.0), F64(3.0)], [F64(4.0), F64(5.0)]].into());
    assert_eq!(m2, [F64(2.0), F64(3.0), F64(4.0), F64(5.0)].into());
}

#[test]
fn test_mat_3_conversions() {
    let m3 = Mat3 {
        m00: F64(1.0),
        m01: F64(2.0),
        m02: F64(3.0),
        m10: F64(4.0),
        m11: F64(5.0),
        m12: F64(6.0),
        m20: F64(7.0),
        m21: F64(8.0),
        m22: F64(9.0),
    };

    assert_eq!(
        m3,
        [
            [F64(1.0), F64(2.0), F64(3.0)],
            [F64(4.0), F64(5.0), F64(6.0)],
            [F64(7.0), F64(8.0), F64(9.0)]
        ]
            .into()
    );
    assert_eq!(
        m3,
        [F64(1.0), F64(2.0), F64(3.0), F64(4.0), F64(5.0), F64(6.0), F64(7.0), F64(8.0), F64(9.0)]
            .into()
    );
}

#[test]
fn test_mat_4_conversions() {
    let m4 = Mat4::new(
        F64(1.0), F64(2.0), F64(3.0), F64(4.0), F64(1.0), F64(2.0), F64(3.0), F64(4.0), F64(1.0),
        F64(2.0), F64(3.0), F64(4.0), F64(1.0), F64(2.0), F64(3.0), F64(4.0),
    );

    assert_eq!(
        m4,
        [
            [F64(1.0), F64(2.0), F64(3.0), F64(4.0)],
            [F64(1.0), F64(2.0), F64(3.0), F64(4.0)],
            [F64(1.0), F64(2.0), F64(3.0), F64(4.0)],
            [F64(1.0), F64(2.0), F64(3.0), F64(4.0)]
        ]
            .into()
    );
    assert_eq!(
        m4,
        [
            F64(1.0), F64(2.0), F64(3.0), F64(4.0), F64(1.0), F64(2.0), F64(3.0), F64(4.0),
            F64(1.0), F64(2.0), F64(3.0), F64(4.0), F64(1.0), F64(2.0), F64(3.0), F64(4.0)
        ]
            .into()
    );
}
