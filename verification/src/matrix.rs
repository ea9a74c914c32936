//! Fixed-arity square matrices over an abstract scalar.
//!
//! `Mat2`, `Mat3` and `Mat4` store their elements in row-major order as
//! named scalar fields `m00`, `m01`, ...: element `(row, column)` of an
//! order-`n` matrix is flat element `row * n + column`.  The accessors and
//! the multiplication routines are all written, and proved, against that
//! one layout.  The shared operations live in the [`MatrixOps`] trait,
//! which carries an abstract `spec` model of every operation; the free
//! functions at the top of this module are the function-style entry points
//! over any [`MatrixOps`] type.

use vstd::prelude::*;

use crate::base::Float;
use crate::vector::{Vec2, Vec3, Vec4, VectorOps};

verus! {

/// Selects a column of a matrix; `Z` and `W` are valid only for the
/// arities that have them.
#[derive(Clone, Copy, Debug, PartialEq)]
pub enum Column {
    X,
    Y,
    Z,
    W,
}

impl Column {
    /// The zero-based index of the selected column.
    pub open spec fn rank(self) -> int {
        match self {
            Column::X => 0,
            Column::Y => 1,
            Column::Z => 2,
            Column::W => 3,
        }
    }
}

/// Selects a row of a matrix; `Z` and `W` are valid only for the arities
/// that have them.
#[derive(Clone, Copy, Debug, PartialEq)]
pub enum Row {
    X,
    Y,
    Z,
    W,
}

impl Row {
    /// The zero-based index of the selected row.
    pub open spec fn rank(self) -> int {
        match self {
            Row::X => 0,
            Row::Y => 1,
            Row::Z => 2,
            Row::W => 3,
        }
    }
}

/// The operations every square-matrix arity supports.
///
/// Each executable method returns exactly the value of its `spec` model;
/// the models are defined element-wise by each implementation, under the
/// row-major layout.  Requesting a row, column or flat element outside the
/// arity\'s range is excluded by precondition; an unverified caller that
/// breaks it stops with a panic rather than read a wrong element.
pub trait MatrixOps: Sized {
    type Float;

    type Vector;

    /// The arity: the number of rows (and of columns).
    spec fn spec_order() -> int;

    /// Model of the all-zero matrix.
    spec fn spec_zeroed() -> Self;

    /// Model of the identity matrix: ones on the diagonal, zeros elsewhere.
    spec fn spec_identity() -> Self;

    /// Model of the flat element accessor under the row-major layout:
    /// element `(row, column)` has flat index `row * order + column`.
    spec fn spec_element(self, index: int) -> Self::Float;

    /// Model of a whole column, as a vector.
    spec fn spec_column(self, col: Column) -> Self::Vector;

    /// Model of a whole row, as a vector.
    spec fn spec_row(self, row: Row) -> Self::Vector;

    /// Model of the position (translation) column of a homogeneous
    /// transform: the last column.
    spec fn spec_position(self) -> Self::Vector;

    /// Model of element-wise addition.
    spec fn spec_add(self, other: Self) -> Self;

    /// Model of element-wise subtraction.
    spec fn spec_sub(self, other: Self) -> Self;

    /// Model of element-wise multiplication by a scalar.
    spec fn spec_scale(self, factor: Self::Float) -> Self;

    /// Model of the matrix product: element `(i, j)` is the dot product of
    /// row `i` of `self` with column `j` of `other`.
    spec fn spec_mult_mat(self, other: Self) -> Self;

    /// Model of the matrix-vector product: component `i` is the dot
    /// product of row `i` of `self` with the vector.
    spec fn spec_mult_vec(self, vector: Self::Vector) -> Self::Vector;

    fn zeroed() -> (r: Self)
        ensures
            r == Self::spec_zeroed(),
    ;

    fn identity() -> (r: Self)
        ensures
            r == Self::spec_identity(),
    ;

    fn get_element(&self, index: usize) -> (r: Self::Float)
        requires
            index < Self::spec_order() * Self::spec_order(),
        ensures
            r == self.spec_element(index as int),
    ;

    fn get_column(&self, col: Column) -> (r: Self::Vector)
        requires
            col.rank() < Self::spec_order(),
        ensures
            r == self.spec_column(col),
    ;

    fn get_row(&self, row: Row) -> (r: Self::Vector)
        requires
            row.rank() < Self::spec_order(),
        ensures
            r == self.spec_row(row),
    ;

    fn get_position(&self) -> (r: Self::Vector)
        ensures
            r == self.spec_position(),
    ;

    fn add(self, other: Self) -> (r: Self)
        ensures
            r == self.spec_add(other),
    ;

    fn sub(self, other: Self) -> (r: Self)
        ensures
            r == self.spec_sub(other),
    ;

    fn scale(self, factor: Self::Float) -> (r: Self)
        ensures
            r == self.spec_scale(factor),
    ;

    fn mult_mat(self, other: Self) -> (r: Self)
        ensures
            r == self.spec_mult_mat(other),
    ;

    fn mult_vec(self, vector: Self::Vector) -> (r: Self::Vector)
        ensures
            r == self.spec_mult_vec(vector),
    ;
}

/// Element-wise sum of two matrices.
pub fn add<T: MatrixOps>(matrix1: T, matrix2: T) -> (r: T)
    ensures
        r == matrix1.spec_add(matrix2),
{
    matrix1.add(matrix2)
}

/// Element-wise difference of two matrices.
pub fn sub<T: MatrixOps>(matrix1: T, matrix2: T) -> (r: T)
    ensures
        r == matrix1.spec_sub(matrix2),
{
    matrix1.sub(matrix2)
}

/// A matrix with every element multiplied by `scalar`.
pub fn scale<T: MatrixOps>(matrix1: T, scalar: T::Float) -> (r: T)
    ensures
        r == matrix1.spec_scale(scalar),
{
    matrix1.scale(scalar)
}

/// The matrix product `matrix1 * matrix2`.
pub fn mult_mat<T: MatrixOps>(matrix1: T, matrix2: T) -> (r: T)
    ensures
        r == matrix1.spec_mult_mat(matrix2),
{
    matrix1.mult_mat(matrix2)
}

/// The matrix-vector product `matrix * vector`.
pub fn mult_vec<T: MatrixOps>(matrix: T, vector: T::Vector) -> (r: T::Vector)
    ensures
        r == matrix.spec_mult_vec(vector),
{
    matrix.mult_vec(vector)
}

/// A 2x2 matrix of scalars, stored row-major.
#[derive(Clone, Copy, Debug, PartialEq)]
pub struct Mat2<T: Float> {
    pub m00: T, pub m01: T,
    pub m10: T, pub m11: T,
}

impl<T: Float> Mat2<T> {
    /// Builds a matrix from its 4 elements, given row by row.
    pub fn new(m00: T, m01: T, m10: T, m11: T) -> (r: Self)
        ensures
            r == (Mat2 { m00, m01, m10, m11 }),
    {
        Self { m00, m01, m10, m11 }
    }

    /// Builds a matrix from its two columns, left to right.
    pub fn from_cols(col1: Vec2<T>, col2: Vec2<T>) -> (r: Self)
        ensures
            r == (Mat2 { m00: col1.x, m01: col2.x, m10: col1.y, m11: col2.y }),
    {
        Self { m00: col1.x, m01: col2.x, m10: col1.y, m11: col2.y }
    }
}

impl<T: Float> MatrixOps for Mat2<T> {
    type Float = T;

    type Vector = Vec2<T>;

    open spec fn spec_order() -> int {
        2
    }

    open spec fn spec_zeroed() -> Self {
        Mat2 { m00: T::spec_zero(), m01: T::spec_zero(), m10: T::spec_zero(), m11: T::spec_zero() }
    }

    open spec fn spec_identity() -> Self {
        Mat2 { m00: T::spec_one(), m01: T::spec_zero(), m10: T::spec_zero(), m11: T::spec_one() }
    }

    open spec fn spec_element(self, index: int) -> T {
        if index == 0 { self.m00 } else if index == 1 { self.m01 } else if index == 2 { self.m10 } else { self.m11 }
    }

    open spec fn spec_column(self, col: Column) -> Vec2<T> {
        match col {
            Column::X => Vec2 { x: self.m00, y: self.m10 },
            Column::Y => Vec2 { x: self.m01, y: self.m11 },
            _ => arbitrary(),
        }
    }

    open spec fn spec_row(self, row: Row) -> Vec2<T> {
        match row {
            Row::X => Vec2 { x: self.m00, y: self.m01 },
            Row::Y => Vec2 { x: self.m10, y: self.m11 },
            _ => arbitrary(),
        }
    }

    open spec fn spec_position(self) -> Vec2<T> {
        self.spec_column(Column::Y)
    }

    open spec fn spec_add(self, other: Self) -> Self {
        Mat2 { m00: self.m00.spec_add(other.m00), m01: self.m01.spec_add(other.m01), m10: self.m10.spec_add(other.m10), m11: self.m11.spec_add(other.m11) }
    }

    open spec fn spec_sub(self, other: Self) -> Self {
        Mat2 { m00: self.m00.spec_sub(other.m00), m01: self.m01.spec_sub(other.m01), m10: self.m10.spec_sub(other.m10), m11: self.m11.spec_sub(other.m11) }
    }

    open spec fn spec_scale(self, factor: T) -> Self {
        Mat2 { m00: self.m00.spec_mul(factor), m01: self.m01.spec_mul(factor), m10: self.m10.spec_mul(factor), m11: self.m11.spec_mul(factor) }
    }

    open spec fn spec_mult_mat(self, other: Self) -> Self {
        Mat2 {
            m00: self.m00.spec_mul(other.m00).spec_add(self.m01.spec_mul(other.m10)),
            m01: self.m00.spec_mul(other.m01).spec_add(self.m01.spec_mul(other.m11)),
            m10: self.m10.spec_mul(other.m00).spec_add(self.m11.spec_mul(other.m10)),
            m11: self.m10.spec_mul(other.m01).spec_add(self.m11.spec_mul(other.m11)),
        }
    }

    open spec fn spec_mult_vec(self, vector: Vec2<T>) -> Vec2<T> {
        Vec2 {
            x: self.m00.spec_mul(vector.x).spec_add(self.m01.spec_mul(vector.y)),
            y: self.m10.spec_mul(vector.x).spec_add(self.m11.spec_mul(vector.y)),
        }
    }

    fn zeroed() -> Self {
        Mat2 { m00: T::zero(), m01: T::zero(), m10: T::zero(), m11: T::zero() }
    }

    fn identity() -> Self {
        Mat2 { m00: T::one(), m01: T::zero(), m10: T::zero(), m11: T::one() }
    }

    fn get_element(&self, index: usize) -> T {
        match index {
            0 => self.m00,
            1 => self.m01,
            2 => self.m10,
            3 => self.m11,
            _ => unreached(),
        }
    }

    fn get_column(&self, col: Column) -> Vec2<T> {
        match col {
            Column::X => Vec2 { x: self.m00, y: self.m10 },
            Column::Y => Vec2 { x: self.m01, y: self.m11 },
            _ => unreached(),
        }
    }

    fn get_row(&self, row: Row) -> Vec2<T> {
        match row {
            Row::X => Vec2 { x: self.m00, y: self.m01 },
            Row::Y => Vec2 { x: self.m10, y: self.m11 },
            _ => unreached(),
        }
    }

    fn get_position(&self) -> Vec2<T> {
        self.get_column(Column::Y)
    }

    fn add(self, other: Self) -> Self {
        Mat2 { m00: self.m00.add(other.m00), m01: self.m01.add(other.m01), m10: self.m10.add(other.m10), m11: self.m11.add(other.m11) }
    }

    fn sub(self, other: Self) -> Self {
        Mat2 { m00: self.m00.sub(other.m00), m01: self.m01.sub(other.m01), m10: self.m10.sub(other.m10), m11: self.m11.sub(other.m11) }
    }

    fn scale(self, factor: T) -> Self {
        Mat2 { m00: self.m00.mul(factor), m01: self.m01.mul(factor), m10: self.m10.mul(factor), m11: self.m11.mul(factor) }
    }

    fn mult_mat(self, other: Self) -> Self {
        Mat2 {
            m00: self.m00.mul(other.m00).add(self.m01.mul(other.m10)),
            m01: self.m00.mul(other.m01).add(self.m01.mul(other.m11)),
            m10: self.m10.mul(other.m00).add(self.m11.mul(other.m10)),
            m11: self.m10.mul(other.m01).add(self.m11.mul(other.m11)),
        }
    }

    fn mult_vec(self, vector: Vec2<T>) -> Vec2<T> {
        Vec2 {
            x: self.m00.mul(vector.x).add(self.m01.mul(vector.y)),
            y: self.m10.mul(vector.x).add(self.m11.mul(vector.y)),
        }
    }
}

impl<T: Float> Default for Mat2<T> {
    /// The all-zero matrix.
    fn default() -> (r: Self)
        ensures
            r == Self::spec_zeroed(),
    {
        Mat2 { m00: T::zero(), m01: T::zero(), m10: T::zero(), m11: T::zero() }
    }
}

impl<T: Float> From<[[T; 2]; 2]> for Mat2<T> {
    /// Reads the elements from a nested array, row by row.
    fn from(value: [[T; 2]; 2]) -> Self {
        Mat2 { m00: value[0][0], m01: value[0][1], m10: value[1][0], m11: value[1][1] }
    }
}

impl<T: Float> vstd::std_specs::convert::FromSpecImpl<[[T; 2]; 2]> for Mat2<T> {
    open spec fn obeys_from_spec() -> bool {
        true
    }

    open spec fn from_spec(value: [[T; 2]; 2]) -> Self {
        Mat2 { m00: value[0][0], m01: value[0][1], m10: value[1][0], m11: value[1][1] }
    }
}

impl<T: Float> From<[T; 4]> for Mat2<T> {
    /// Reads the elements from a flat array in row-major order.
    fn from(value: [T; 4]) -> Self {
        Mat2 { m00: value[0], m01: value[1], m10: value[2], m11: value[3] }
    }
}

impl<T: Float> vstd::std_specs::convert::FromSpecImpl<[T; 4]> for Mat2<T> {
    open spec fn obeys_from_spec() -> bool {
        true
    }

    open spec fn from_spec(value: [T; 4]) -> Self {
        Mat2 { m00: value[0], m01: value[1], m10: value[2], m11: value[3] }
    }
}

/// A 3x3 matrix of scalars, stored row-major.
#[derive(Clone, Copy, Debug, PartialEq)]
pub struct Mat3<T: Float> {
    pub m00: T, pub m01: T, pub m02: T,
    pub m10: T, pub m11: T, pub m12: T,
    pub m20: T, pub m21: T, pub m22: T,
}

impl<T: Float> Mat3<T> {
    /// Builds a matrix from its 9 elements, given row by row.
    pub fn new(m00: T, m01: T, m02: T, m10: T, m11: T, m12: T, m20: T, m21: T, m22: T) -> (r: Self)
        ensures
            r == (Mat3 { m00, m01, m02, m10, m11, m12, m20, m21, m22 }),
    {
        Self { m00, m01, m02, m10, m11, m12, m20, m21, m22 }
    }

    /// Builds a matrix from its three columns, left to right.
    pub fn from_cols(x: Vec3<T>, y: Vec3<T>, z: Vec3<T>) -> (r: Self)
        ensures
            r == (Mat3 { m00: x.x, m01: y.x, m02: z.x, m10: x.y, m11: y.y, m12: z.y, m20: x.z, m21: y.z, m22: z.z }),
    {
        Self { m00: x.x, m01: y.x, m02: z.x, m10: x.y, m11: y.y, m12: z.y, m20: x.z, m21: y.z, m22: z.z }
    }
}

impl<T: Float> MatrixOps for Mat3<T> {
    type Float = T;

    type Vector = Vec3<T>;

    open spec fn spec_order() -> int {
        3
    }

    open spec fn spec_zeroed() -> Self {
        Mat3 { m00: T::spec_zero(), m01: T::spec_zero(), m02: T::spec_zero(), m10: T::spec_zero(), m11: T::spec_zero(), m12: T::spec_zero(), m20: T::spec_zero(), m21: T::spec_zero(), m22: T::spec_zero() }
    }

    open spec fn spec_identity() -> Self {
        Mat3 { m00: T::spec_one(), m01: T::spec_zero(), m02: T::spec_zero(), m10: T::spec_zero(), m11: T::spec_one(), m12: T::spec_zero(), m20: T::spec_zero(), m21: T::spec_zero(), m22: T::spec_one() }
    }

    open spec fn spec_element(self, index: int) -> T {
        if index == 0 { self.m00 } else if index == 1 { self.m01 } else if index == 2 { self.m02 } else if index == 3 { self.m10 } else if index == 4 { self.m11 } else if index == 5 { self.m12 } else if index == 6 { self.m20 } else if index == 7 { self.m21 } else { self.m22 }
    }

    open spec fn spec_column(self, col: Column) -> Vec3<T> {
        match col {
            Column::X => Vec3 { x: self.m00, y: self.m10, z: self.m20 },
            Column::Y => Vec3 { x: self.m01, y: self.m11, z: self.m21 },
            Column::Z => Vec3 { x: self.m02, y: self.m12, z: self.m22 },
            _ => arbitrary(),
        }
    }

    open spec fn spec_row(self, row: Row) -> Vec3<T> {
        match row {
            Row::X => Vec3 { x: self.m00, y: self.m01, z: self.m02 },
            Row::Y => Vec3 { x: self.m10, y: self.m11, z: self.m12 },
            Row::Z => Vec3 { x: self.m20, y: self.m21, z: self.m22 },
            _ => arbitrary(),
        }
    }

    open spec fn spec_position(self) -> Vec3<T> {
        self.spec_column(Column::Z)
    }

    open spec fn spec_add(self, other: Self) -> Self {
        Mat3 { m00: self.m00.spec_add(other.m00), m01: self.m01.spec_add(other.m01), m02: self.m02.spec_add(other.m02), m10: self.m10.spec_add(other.m10), m11: self.m11.spec_add(other.m11), m12: self.m12.spec_add(other.m12), m20: self.m20.spec_add(other.m20), m21: self.m21.spec_add(other.m21), m22: self.m22.spec_add(other.m22) }
    }

    open spec fn spec_sub(self, other: Self) -> Self {
        Mat3 { m00: self.m00.spec_sub(other.m00), m01: self.m01.spec_sub(other.m01), m02: self.m02.spec_sub(other.m02), m10: self.m10.spec_sub(other.m10), m11: self.m11.spec_sub(other.m11), m12: self.m12.spec_sub(other.m12), m20: self.m20.spec_sub(other.m20), m21: self.m21.spec_sub(other.m21), m22: self.m22.spec_sub(other.m22) }
    }

    open spec fn spec_scale(self, factor: T) -> Self {
        Mat3 { m00: self.m00.spec_mul(factor), m01: self.m01.spec_mul(factor), m02: self.m02.spec_mul(factor), m10: self.m10.spec_mul(factor), m11: self.m11.spec_mul(factor), m12: self.m12.spec_mul(factor), m20: self.m20.spec_mul(factor), m21: self.m21.spec_mul(factor), m22: self.m22.spec_mul(factor) }
    }

    open spec fn spec_mult_mat(self, other: Self) -> Self {
        Mat3 {
            m00: self.m00.spec_mul(other.m00).spec_add(self.m01.spec_mul(other.m10)).spec_add(self.m02.spec_mul(other.m20)),
            m01: self.m00.spec_mul(other.m01).spec_add(self.m01.spec_mul(other.m11)).spec_add(self.m02.spec_mul(other.m21)),
            m02: self.m00.spec_mul(other.m02).spec_add(self.m01.spec_mul(other.m12)).spec_add(self.m02.spec_mul(other.m22)),
            m10: self.m10.spec_mul(other.m00).spec_add(self.m11.spec_mul(other.m10)).spec_add(self.m12.spec_mul(other.m20)),
            m11: self.m10.spec_mul(other.m01).spec_add(self.m11.spec_mul(other.m11)).spec_add(self.m12.spec_mul(other.m21)),
            m12: self.m10.spec_mul(other.m02).spec_add(self.m11.spec_mul(other.m12)).spec_add(self.m12.spec_mul(other.m22)),
            m20: self.m20.spec_mul(other.m00).spec_add(self.m21.spec_mul(other.m10)).spec_add(self.m22.spec_mul(other.m20)),
            m21: self.m20.spec_mul(other.m01).spec_add(self.m21.spec_mul(other.m11)).spec_add(self.m22.spec_mul(other.m21)),
            m22: self.m20.spec_mul(other.m02).spec_add(self.m21.spec_mul(other.m12)).spec_add(self.m22.spec_mul(other.m22)),
        }
    }

    open spec fn spec_mult_vec(self, vector: Vec3<T>) -> Vec3<T> {
        Vec3 {
            x: self.m00.spec_mul(vector.x).spec_add(self.m01.spec_mul(vector.y)).spec_add(self.m02.spec_mul(vector.z)),
            y: self.m10.spec_mul(vector.x).spec_add(self.m11.spec_mul(vector.y)).spec_add(self.m12.spec_mul(vector.z)),
            z: self.m20.spec_mul(vector.x).spec_add(self.m21.spec_mul(vector.y)).spec_add(self.m22.spec_mul(vector.z)),
        }
    }

    fn zeroed() -> Self {
        Mat3 { m00: T::zero(), m01: T::zero(), m02: T::zero(), m10: T::zero(), m11: T::zero(), m12: T::zero(), m20: T::zero(), m21: T::zero(), m22: T::zero() }
    }

    fn identity() -> Self {
        Mat3 { m00: T::one(), m01: T::zero(), m02: T::zero(), m10: T::zero(), m11: T::one(), m12: T::zero(), m20: T::zero(), m21: T::zero(), m22: T::one() }
    }

    fn get_element(&self, index: usize) -> T {
        match index {
            0 => self.m00,
            1 => self.m01,
            2 => self.m02,
            3 => self.m10,
            4 => self.m11,
            5 => self.m12,
            6 => self.m20,
            7 => self.m21,
            8 => self.m22,
            _ => unreached(),
        }
    }

    fn get_column(&self, col: Column) -> Vec3<T> {
        match col {
            Column::X => Vec3 { x: self.m00, y: self.m10, z: self.m20 },
            Column::Y => Vec3 { x: self.m01, y: self.m11, z: self.m21 },
            Column::Z => Vec3 { x: self.m02, y: self.m12, z: self.m22 },
            _ => unreached(),
        }
    }

    fn get_row(&self, row: Row) -> Vec3<T> {
        match row {
            Row::X => Vec3 { x: self.m00, y: self.m01, z: self.m02 },
            Row::Y => Vec3 { x: self.m10, y: self.m11, z: self.m12 },
            Row::Z => Vec3 { x: self.m20, y: self.m21, z: self.m22 },
            _ => unreached(),
        }
    }

    fn get_position(&self) -> Vec3<T> {
        self.get_column(Column::Z)
    }

    fn add(self, other: Self) -> Self {
        Mat3 { m00: self.m00.add(other.m00), m01: self.m01.add(other.m01), m02: self.m02.add(other.m02), m10: self.m10.add(other.m10), m11: self.m11.add(other.m11), m12: self.m12.add(other.m12), m20: self.m20.add(other.m20), m21: self.m21.add(other.m21), m22: self.m22.add(other.m22) }
    }

    fn sub(self, other: Self) -> Self {
        Mat3 { m00: self.m00.sub(other.m00), m01: self.m01.sub(other.m01), m02: self.m02.sub(other.m02), m10: self.m10.sub(other.m10), m11: self.m11.sub(other.m11), m12: self.m12.sub(other.m12), m20: self.m20.sub(other.m20), m21: self.m21.sub(other.m21), m22: self.m22.sub(other.m22) }
    }

    fn scale(self, factor: T) -> Self {
        Mat3 { m00: self.m00.mul(factor), m01: self.m01.mul(factor), m02: self.m02.mul(factor), m10: self.m10.mul(factor), m11: self.m11.mul(factor), m12: self.m12.mul(factor), m20: self.m20.mul(factor), m21: self.m21.mul(factor), m22: self.m22.mul(factor) }
    }

    fn mult_mat(self, other: Self) -> Self {
        Mat3 {
            m00: self.m00.mul(other.m00).add(self.m01.mul(other.m10)).add(self.m02.mul(other.m20)),
            m01: self.m00.mul(other.m01).add(self.m01.mul(other.m11)).add(self.m02.mul(other.m21)),
            m02: self.m00.mul(other.m02).add(self.m01.mul(other.m12)).add(self.m02.mul(other.m22)),
            m10: self.m10.mul(other.m00).add(self.m11.mul(other.m10)).add(self.m12.mul(other.m20)),
            m11: self.m10.mul(other.m01).add(self.m11.mul(other.m11)).add(self.m12.mul(other.m21)),
            m12: self.m10.mul(other.m02).add(self.m11.mul(other.m12)).add(self.m12.mul(other.m22)),
            m20: self.m20.mul(other.m00).add(self.m21.mul(other.m10)).add(self.m22.mul(other.m20)),
            m21: self.m20.mul(other.m01).add(self.m21.mul(other.m11)).add(self.m22.mul(other.m21)),
            m22: self.m20.mul(other.m02).add(self.m21.mul(other.m12)).add(self.m22.mul(other.m22)),
        }
    }

    fn mult_vec(self, vector: Vec3<T>) -> Vec3<T> {
        Vec3 {
            x: self.m00.mul(vector.x).add(self.m01.mul(vector.y)).add(self.m02.mul(vector.z)),
            y: self.m10.mul(vector.x).add(self.m11.mul(vector.y)).add(self.m12.mul(vector.z)),
            z: self.m20.mul(vector.x).add(self.m21.mul(vector.y)).add(self.m22.mul(vector.z)),
        }
    }
}

impl<T: Float> Default for Mat3<T> {
    /// The all-zero matrix.
    fn default() -> (r: Self)
        ensures
            r == Self::spec_zeroed(),
    {
        Mat3 { m00: T::zero(), m01: T::zero(), m02: T::zero(), m10: T::zero(), m11: T::zero(), m12: T::zero(), m20: T::zero(), m21: T::zero(), m22: T::zero() }
    }
}

impl<T: Float> From<[[T; 3]; 3]> for Mat3<T> {
    /// Reads the elements from a nested array, row by row.
    fn from(value: [[T; 3]; 3]) -> Self {
        Mat3 { m00: value[0][0], m01: value[0][1], m02: value[0][2], m10: value[1][0], m11: value[1][1], m12: value[1][2], m20: value[2][0], m21: value[2][1], m22: value[2][2] }
    }
}

impl<T: Float> vstd::std_specs::convert::FromSpecImpl<[[T; 3]; 3]> for Mat3<T> {
    open spec fn obeys_from_spec() -> bool {
        true
    }

    open spec fn from_spec(value: [[T; 3]; 3]) -> Self {
        Mat3 { m00: value[0][0], m01: value[0][1], m02: value[0][2], m10: value[1][0], m11: value[1][1], m12: value[1][2], m20: value[2][0], m21: value[2][1], m22: value[2][2] }
    }
}

impl<T: Float> From<[T; 9]> for Mat3<T> {
    /// Reads the elements from a flat array in row-major order.
    fn from(value: [T; 9]) -> Self {
        Mat3 { m00: value[0], m01: value[1], m02: value[2], m10: value[3], m11: value[4], m12: value[5], m20: value[6], m21: value[7], m22: value[8] }
    }
}

impl<T: Float> vstd::std_specs::convert::FromSpecImpl<[T; 9]> for Mat3<T> {
    open spec fn obeys_from_spec() -> bool {
        true
    }

    open spec fn from_spec(value: [T; 9]) -> Self {
        Mat3 { m00: value[0], m01: value[1], m02: value[2], m10: value[3], m11: value[4], m12: value[5], m20: value[6], m21: value[7], m22: value[8] }
    }
}

/// A 4x4 matrix of scalars, stored row-major.
#[derive(Clone, Copy, Debug, PartialEq)]
pub struct Mat4<T: Float> {
    pub m00: T, pub m01: T, pub m02: T, pub m03: T,
    pub m10: T, pub m11: T, pub m12: T, pub m13: T,
    pub m20: T, pub m21: T, pub m22: T, pub m23: T,
    pub m30: T, pub m31: T, pub m32: T, pub m33: T,
}

impl<T: Float> Mat4<T> {
    /// Builds a matrix from its 16 elements, given row by row.
    pub fn new(m00: T, m01: T, m02: T, m03: T, m10: T, m11: T, m12: T, m13: T, m20: T, m21: T, m22: T, m23: T, m30: T, m31: T, m32: T, m33: T) -> (r: Self)
        ensures
            r == (Mat4 { m00, m01, m02, m03, m10, m11, m12, m13, m20, m21, m22, m23, m30, m31, m32, m33 }),
    {
        Self { m00, m01, m02, m03, m10, m11, m12, m13, m20, m21, m22, m23, m30, m31, m32, m33 }
    }

    /// Builds a matrix from its four columns, left to right.
    pub fn from_cols(x: Vec4<T>, y: Vec4<T>, z: Vec4<T>, w: Vec4<T>) -> (r: Self)
        ensures
            r == (Mat4 { m00: x.x, m01: y.x, m02: z.x, m03: w.x, m10: x.y, m11: y.y, m12: z.y, m13: w.y, m20: x.z, m21: y.z, m22: z.z, m23: w.z, m30: x.w, m31: y.w, m32: z.w, m33: w.w }),
    {
        Self { m00: x.x, m01: y.x, m02: z.x, m03: w.x, m10: x.y, m11: y.y, m12: z.y, m13: w.y, m20: x.z, m21: y.z, m22: z.z, m23: w.z, m30: x.w, m31: y.w, m32: z.w, m33: w.w }
    }
}

impl<T: Float> MatrixOps for Mat4<T> {
    type Float = T;

    type Vector = Vec4<T>;

    open spec fn spec_order() -> int {
        4
    }

    open spec fn spec_zeroed() -> Self {
        Mat4 { m00: T::spec_zero(), m01: T::spec_zero(), m02: T::spec_zero(), m03: T::spec_zero(), m10: T::spec_zero(), m11: T::spec_zero(), m12: T::spec_zero(), m13: T::spec_zero(), m20: T::spec_zero(), m21: T::spec_zero(), m22: T::spec_zero(), m23: T::spec_zero(), m30: T::spec_zero(), m31: T::spec_zero(), m32: T::spec_zero(), m33: T::spec_zero() }
    }

    open spec fn spec_identity() -> Self {
        Mat4 { m00: T::spec_one(), m01: T::spec_zero(), m02: T::spec_zero(), m03: T::spec_zero(), m10: T::spec_zero(), m11: T::spec_one(), m12: T::spec_zero(), m13: T::spec_zero(), m20: T::spec_zero(), m21: T::spec_zero(), m22: T::spec_one(), m23: T::spec_zero(), m30: T::spec_zero(), m31: T::spec_zero(), m32: T::spec_zero(), m33: T::spec_one() }
    }

    open spec fn spec_element(self, index: int) -> T {
        if index == 0 { self.m00 } else if index == 1 { self.m01 } else if index == 2 { self.m02 } else if index == 3 { self.m03 } else if index == 4 { self.m10 } else if index == 5 { self.m11 } else if index == 6 { self.m12 } else if index == 7 { self.m13 } else if index == 8 { self.m20 } else if index == 9 { self.m21 } else if index == 10 { self.m22 } else if index == 11 { self.m23 } else if index == 12 { self.m30 } else if index == 13 { self.m31 } else if index == 14 { self.m32 } else { self.m33 }
    }

    open spec fn spec_column(self, col: Column) -> Vec4<T> {
        match col {
            Column::X => Vec4 { x: self.m00, y: self.m10, z: self.m20, w: self.m30 },
            Column::Y => Vec4 { x: self.m01, y: self.m11, z: self.m21, w: self.m31 },
            Column::Z => Vec4 { x: self.m02, y: self.m12, z: self.m22, w: self.m32 },
            Column::W => Vec4 { x: self.m03, y: self.m13, z: self.m23, w: self.m33 },
        }
    }

    open spec fn spec_row(self, row: Row) -> Vec4<T> {
        match row {
            Row::X => Vec4 { x: self.m00, y: self.m01, z: self.m02, w: self.m03 },
            Row::Y => Vec4 { x: self.m10, y: self.m11, z: self.m12, w: self.m13 },
            Row::Z => Vec4 { x: self.m20, y: self.m21, z: self.m22, w: self.m23 },
            Row::W => Vec4 { x: self.m30, y: self.m31, z: self.m32, w: self.m33 },
        }
    }

    open spec fn spec_position(self) -> Vec4<T> {
        self.spec_column(Column::W)
    }

    open spec fn spec_add(self, other: Self) -> Self {
        Mat4 { m00: self.m00.spec_add(other.m00), m01: self.m01.spec_add(other.m01), m02: self.m02.spec_add(other.m02), m03: self.m03.spec_add(other.m03), m10: self.m10.spec_add(other.m10), m11: self.m11.spec_add(other.m11), m12: self.m12.spec_add(other.m12), m13: self.m13.spec_add(other.m13), m20: self.m20.spec_add(other.m20), m21: self.m21.spec_add(other.m21), m22: self.m22.spec_add(other.m22), m23: self.m23.spec_add(other.m23), m30: self.m30.spec_add(other.m30), m31: self.m31.spec_add(other.m31), m32: self.m32.spec_add(other.m32), m33: self.m33.spec_add(other.m33) }
    }

    open spec fn spec_sub(self, other: Self) -> Self {
        Mat4 { m00: self.m00.spec_sub(other.m00), m01: self.m01.spec_sub(other.m01), m02: self.m02.spec_sub(other.m02), m03: self.m03.spec_sub(other.m03), m10: self.m10.spec_sub(other.m10), m11: self.m11.spec_sub(other.m11), m12: self.m12.spec_sub(other.m12), m13: self.m13.spec_sub(other.m13), m20: self.m20.spec_sub(other.m20), m21: self.m21.spec_sub(other.m21), m22: self.m22.spec_sub(other.m22), m23: self.m23.spec_sub(other.m23), m30: self.m30.spec_sub(other.m30), m31: self.m31.spec_sub(other.m31), m32: self.m32.spec_sub(other.m32), m33: self.m33.spec_sub(other.m33) }
    }

    open spec fn spec_scale(self, factor: T) -> Self {
        Mat4 { m00: self.m00.spec_mul(factor), m01: self.m01.spec_mul(factor), m02: self.m02.spec_mul(factor), m03: self.m03.spec_mul(factor), m10: self.m10.spec_mul(factor), m11: self.m11.spec_mul(factor), m12: self.m12.spec_mul(factor), m13: self.m13.spec_mul(factor), m20: self.m20.spec_mul(factor), m21: self.m21.spec_mul(factor), m22: self.m22.spec_mul(factor), m23: self.m23.spec_mul(factor), m30: self.m30.spec_mul(factor), m31: self.m31.spec_mul(factor), m32: self.m32.spec_mul(factor), m33: self.m33.spec_mul(factor) }
    }

    open spec fn spec_mult_mat(self, other: Self) -> Self {
        Mat4 {
            m00: self.m00.spec_mul(other.m00).spec_add(self.m01.spec_mul(other.m10)).spec_add(self.m02.spec_mul(other.m20)).spec_add(self.m03.spec_mul(other.m30)),
            m01: self.m00.spec_mul(other.m01).spec_add(self.m01.spec_mul(other.m11)).spec_add(self.m02.spec_mul(other.m21)).spec_add(self.m03.spec_mul(other.m31)),
            m02: self.m00.spec_mul(other.m02).spec_add(self.m01.spec_mul(other.m12)).spec_add(self.m02.spec_mul(other.m22)).spec_add(self.m03.spec_mul(other.m32)),
            m03: self.m00.spec_mul(other.m03).spec_add(self.m01.spec_mul(other.m13)).spec_add(self.m02.spec_mul(other.m23)).spec_add(self.m03.spec_mul(other.m33)),
            m10: self.m10.spec_mul(other.m00).spec_add(self.m11.spec_mul(other.m10)).spec_add(self.m12.spec_mul(other.m20)).spec_add(self.m13.spec_mul(other.m30)),
            m11: self.m10.spec_mul(other.m01).spec_add(self.m11.spec_mul(other.m11)).spec_add(self.m12.spec_mul(other.m21)).spec_add(self.m13.spec_mul(other.m31)),
            m12: self.m10.spec_mul(other.m02).spec_add(self.m11.spec_mul(other.m12)).spec_add(self.m12.spec_mul(other.m22)).spec_add(self.m13.spec_mul(other.m32)),
            m13: self.m10.spec_mul(other.m03).spec_add(self.m11.spec_mul(other.m13)).spec_add(self.m12.spec_mul(other.m23)).spec_add(self.m13.spec_mul(other.m33)),
            m20: self.m20.spec_mul(other.m00).spec_add(self.m21.spec_mul(other.m10)).spec_add(self.m22.spec_mul(other.m20)).spec_add(self.m23.spec_mul(other.m30)),
            m21: self.m20.spec_mul(other.m01).spec_add(self.m21.spec_mul(other.m11)).spec_add(self.m22.spec_mul(other.m21)).spec_add(self.m23.spec_mul(other.m31)),
            m22: self.m20.spec_mul(other.m02).spec_add(self.m21.spec_mul(other.m12)).spec_add(self.m22.spec_mul(other.m22)).spec_add(self.m23.spec_mul(other.m32)),
            m23: self.m20.spec_mul(other.m03).spec_add(self.m21.spec_mul(other.m13)).spec_add(self.m22.spec_mul(other.m23)).spec_add(self.m23.spec_mul(other.m33)),
            m30: self.m30.spec_mul(other.m00).spec_add(self.m31.spec_mul(other.m10)).spec_add(self.m32.spec_mul(other.m20)).spec_add(self.m33.spec_mul(other.m30)),
            m31: self.m30.spec_mul(other.m01).spec_add(self.m31.spec_mul(other.m11)).spec_add(self.m32.spec_mul(other.m21)).spec_add(self.m33.spec_mul(other.m31)),
            m32: self.m30.spec_mul(other.m02).spec_add(self.m31.spec_mul(other.m12)).spec_add(self.m32.spec_mul(other.m22)).spec_add(self.m33.spec_mul(other.m32)),
            m33: self.m30.spec_mul(other.m03).spec_add(self.m31.spec_mul(other.m13)).spec_add(self.m32.spec_mul(other.m23)).spec_add(self.m33.spec_mul(other.m33)),
        }
    }

    open spec fn spec_mult_vec(self, vector: Vec4<T>) -> Vec4<T> {
        Vec4 {
            x: self.m00.spec_mul(vector.x).spec_add(self.m01.spec_mul(vector.y)).spec_add(self.m02.spec_mul(vector.z)).spec_add(self.m03.spec_mul(vector.w)),
            y: self.m10.spec_mul(vector.x).spec_add(self.m11.spec_mul(vector.y)).spec_add(self.m12.spec_mul(vector.z)).spec_add(self.m13.spec_mul(vector.w)),
            z: self.m20.spec_mul(vector.x).spec_add(self.m21.spec_mul(vector.y)).spec_add(self.m22.spec_mul(vector.z)).spec_add(self.m23.spec_mul(vector.w)),
            w: self.m30.spec_mul(vector.x).spec_add(self.m31.spec_mul(vector.y)).spec_add(self.m32.spec_mul(vector.z)).spec_add(self.m33.spec_mul(vector.w)),
        }
    }

    fn zeroed() -> Self {
        Mat4 { m00: T::zero(), m01: T::zero(), m02: T::zero(), m03: T::zero(), m10: T::zero(), m11: T::zero(), m12: T::zero(), m13: T::zero(), m20: T::zero(), m21: T::zero(), m22: T::zero(), m23: T::zero(), m30: T::zero(), m31: T::zero(), m32: T::zero(), m33: T::zero() }
    }

    fn identity() -> Self {
        Mat4 { m00: T::one(), m01: T::zero(), m02: T::zero(), m03: T::zero(), m10: T::zero(), m11: T::one(), m12: T::zero(), m13: T::zero(), m20: T::zero(), m21: T::zero(), m22: T::one(), m23: T::zero(), m30: T::zero(), m31: T::zero(), m32: T::zero(), m33: T::one() }
    }

    fn get_element(&self, index: usize) -> T {
        match index {
            0 => self.m00,
            1 => self.m01,
            2 => self.m02,
            3 => self.m03,
            4 => self.m10,
            5 => self.m11,
            6 => self.m12,
            7 => self.m13,
            8 => self.m20,
            9 => self.m21,
            10 => self.m22,
            11 => self.m23,
            12 => self.m30,
            13 => self.m31,
            14 => self.m32,
            15 => self.m33,
            _ => unreached(),
        }
    }

    fn get_column(&self, col: Column) -> Vec4<T> {
        match col {
            Column::X => Vec4 { x: self.m00, y: self.m10, z: self.m20, w: self.m30 },
            Column::Y => Vec4 { x: self.m01, y: self.m11, z: self.m21, w: self.m31 },
            Column::Z => Vec4 { x: self.m02, y: self.m12, z: self.m22, w: self.m32 },
            Column::W => Vec4 { x: self.m03, y: self.m13, z: self.m23, w: self.m33 },
        }
    }

    fn get_row(&self, row: Row) -> Vec4<T> {
        match row {
            Row::X => Vec4 { x: self.m00, y: self.m01, z: self.m02, w: self.m03 },
            Row::Y => Vec4 { x: self.m10, y: self.m11, z: self.m12, w: self.m13 },
            Row::Z => Vec4 { x: self.m20, y: self.m21, z: self.m22, w: self.m23 },
            Row::W => Vec4 { x: self.m30, y: self.m31, z: self.m32, w: self.m33 },
        }
    }

    fn get_position(&self) -> Vec4<T> {
        self.get_column(Column::W)
    }

    fn add(self, other: Self) -> Self {
        Mat4 { m00: self.m00.add(other.m00), m01: self.m01.add(other.m01), m02: self.m02.add(other.m02), m03: self.m03.add(other.m03), m10: self.m10.add(other.m10), m11: self.m11.add(other.m11), m12: self.m12.add(other.m12), m13: self.m13.add(other.m13), m20: self.m20.add(other.m20), m21: self.m21.add(other.m21), m22: self.m22.add(other.m22), m23: self.m23.add(other.m23), m30: self.m30.add(other.m30), m31: self.m31.add(other.m31), m32: self.m32.add(other.m32), m33: self.m33.add(other.m33) }
    }

    fn sub(self, other: Self) -> Self {
        Mat4 { m00: self.m00.sub(other.m00), m01: self.m01.sub(other.m01), m02: self.m02.sub(other.m02), m03: self.m03.sub(other.m03), m10: self.m10.sub(other.m10), m11: self.m11.sub(other.m11), m12: self.m12.sub(other.m12), m13: self.m13.sub(other.m13), m20: self.m20.sub(other.m20), m21: self.m21.sub(other.m21), m22: self.m22.sub(other.m22), m23: self.m23.sub(other.m23), m30: self.m30.sub(other.m30), m31: self.m31.sub(other.m31), m32: self.m32.sub(other.m32), m33: self.m33.sub(other.m33) }
    }

    fn scale(self, factor: T) -> Self {
        Mat4 { m00: self.m00.mul(factor), m01: self.m01.mul(factor), m02: self.m02.mul(factor), m03: self.m03.mul(factor), m10: self.m10.mul(factor), m11: self.m11.mul(factor), m12: self.m12.mul(factor), m13: self.m13.mul(factor), m20: self.m20.mul(factor), m21: self.m21.mul(factor), m22: self.m22.mul(factor), m23: self.m23.mul(factor), m30: self.m30.mul(factor), m31: self.m31.mul(factor), m32: self.m32.mul(factor), m33: self.m33.mul(factor) }
    }

    fn mult_mat(self, other: Self) -> Self {
        Mat4 {
            m00: self.m00.mul(other.m00).add(self.m01.mul(other.m10)).add(self.m02.mul(other.m20)).add(self.m03.mul(other.m30)),
            m01: self.m00.mul(other.m01).add(self.m01.mul(other.m11)).add(self.m02.mul(other.m21)).add(self.m03.mul(other.m31)),
            m02: self.m00.mul(other.m02).add(self.m01.mul(other.m12)).add(self.m02.mul(other.m22)).add(self.m03.mul(other.m32)),
            m03: self.m00.mul(other.m03).add(self.m01.mul(other.m13)).add(self.m02.mul(other.m23)).add(self.m03.mul(other.m33)),
            m10: self.m10.mul(other.m00).add(self.m11.mul(other.m10)).add(self.m12.mul(other.m20)).add(self.m13.mul(other.m30)),
            m11: self.m10.mul(other.m01).add(self.m11.mul(other.m11)).add(self.m12.mul(other.m21)).add(self.m13.mul(other.m31)),
            m12: self.m10.mul(other.m02).add(self.m11.mul(other.m12)).add(self.m12.mul(other.m22)).add(self.m13.mul(other.m32)),
            m13: self.m10.mul(other.m03).add(self.m11.mul(other.m13)).add(self.m12.mul(other.m23)).add(self.m13.mul(other.m33)),
            m20: self.m20.mul(other.m00).add(self.m21.mul(other.m10)).add(self.m22.mul(other.m20)).add(self.m23.mul(other.m30)),
            m21: self.m20.mul(other.m01).add(self.m21.mul(other.m11)).add(self.m22.mul(other.m21)).add(self.m23.mul(other.m31)),
            m22: self.m20.mul(other.m02).add(self.m21.mul(other.m12)).add(self.m22.mul(other.m22)).add(self.m23.mul(other.m32)),
            m23: self.m20.mul(other.m03).add(self.m21.mul(other.m13)).add(self.m22.mul(other.m23)).add(self.m23.mul(other.m33)),
            m30: self.m30.mul(other.m00).add(self.m31.mul(other.m10)).add(self.m32.mul(other.m20)).add(self.m33.mul(other.m30)),
            m31: self.m30.mul(other.m01).add(self.m31.mul(other.m11)).add(self.m32.mul(other.m21)).add(self.m33.mul(other.m31)),
            m32: self.m30.mul(other.m02).add(self.m31.mul(other.m12)).add(self.m32.mul(other.m22)).add(self.m33.mul(other.m32)),
            m33: self.m30.mul(other.m03).add(self.m31.mul(other.m13)).add(self.m32.mul(other.m23)).add(self.m33.mul(other.m33)),
        }
    }

    fn mult_vec(self, vector: Vec4<T>) -> Vec4<T> {
        Vec4 {
            x: self.m00.mul(vector.x).add(self.m01.mul(vector.y)).add(self.m02.mul(vector.z)).add(self.m03.mul(vector.w)),
            y: self.m10.mul(vector.x).add(self.m11.mul(vector.y)).add(self.m12.mul(vector.z)).add(self.m13.mul(vector.w)),
            z: self.m20.mul(vector.x).add(self.m21.mul(vector.y)).add(self.m22.mul(vector.z)).add(self.m23.mul(vector.w)),
            w: self.m30.mul(vector.x).add(self.m31.mul(vector.y)).add(self.m32.mul(vector.z)).add(self.m33.mul(vector.w)),
        }
    }
}

impl<T: Float> Default for Mat4<T> {
    /// The all-zero matrix.
    fn default() -> (r: Self)
        ensures
            r == Self::spec_zeroed(),
    {
        Mat4 { m00: T::zero(), m01: T::zero(), m02: T::zero(), m03: T::zero(), m10: T::zero(), m11: T::zero(), m12: T::zero(), m13: T::zero(), m20: T::zero(), m21: T::zero(), m22: T::zero(), m23: T::zero(), m30: T::zero(), m31: T::zero(), m32: T::zero(), m33: T::zero() }
    }
}

impl<T: Float> From<[[T; 4]; 4]> for Mat4<T> {
    /// Reads the elements from a nested array, row by row.
    fn from(value: [[T; 4]; 4]) -> Self {
        Mat4 { m00: value[0][0], m01: value[0][1], m02: value[0][2], m03: value[0][3], m10: value[1][0], m11: value[1][1], m12: value[1][2], m13: value[1][3], m20: value[2][0], m21: value[2][1], m22: value[2][2], m23: value[2][3], m30: value[3][0], m31: value[3][1], m32: value[3][2], m33: value[3][3] }
    }
}

impl<T: Float> vstd::std_specs::convert::FromSpecImpl<[[T; 4]; 4]> for Mat4<T> {
    open spec fn obeys_from_spec() -> bool {
        true
    }

    open spec fn from_spec(value: [[T; 4]; 4]) -> Self {
        Mat4 { m00: value[0][0], m01: value[0][1], m02: value[0][2], m03: value[0][3], m10: value[1][0], m11: value[1][1], m12: value[1][2], m13: value[1][3], m20: value[2][0], m21: value[2][1], m22: value[2][2], m23: value[2][3], m30: value[3][0], m31: value[3][1], m32: value[3][2], m33: value[3][3] }
    }
}

impl<T: Float> From<[T; 16]> for Mat4<T> {
    /// Reads the elements from a flat array in row-major order.
    fn from(value: [T; 16]) -> Self {
        Mat4 { m00: value[0], m01: value[1], m02: value[2], m03: value[3], m10: value[4], m11: value[5], m12: value[6], m13: value[7], m20: value[8], m21: value[9], m22: value[10], m23: value[11], m30: value[12], m31: value[13], m32: value[14], m33: value[15] }
    }
}

impl<T: Float> vstd::std_specs::convert::FromSpecImpl<[T; 16]> for Mat4<T> {
    open spec fn obeys_from_spec() -> bool {
        true
    }

    open spec fn from_spec(value: [T; 16]) -> Self {
        Mat4 { m00: value[0], m01: value[1], m02: value[2], m03: value[3], m10: value[4], m11: value[5], m12: value[6], m13: value[7], m20: value[8], m21: value[9], m22: value[10], m23: value[11], m30: value[12], m31: value[13], m32: value[14], m33: value[15] }
    }
}

/// Law: multiplying any vector by the identity matrix returns the vector
/// unchanged, for any scalar with the usual zero and one identities.
pub proof fn lemma_mat2_identity_mult_vec<T: Float>(v: Vec2<T>)
    requires
        forall|a: T| #[trigger] T::spec_one().spec_mul(a) == a,
        forall|a: T| #[trigger] T::spec_zero().spec_mul(a) == T::spec_zero(),
        forall|a: T| #[trigger] a.spec_add(T::spec_zero()) == a,
        forall|a: T| #[trigger] T::spec_zero().spec_add(a) == a,
    ensures
        Mat2::<T>::spec_identity().spec_mult_vec(v) == v,
{
}

/// The same law, for `Mat3`.
pub proof fn lemma_mat3_identity_mult_vec<T: Float>(v: Vec3<T>)
    requires
        forall|a: T| #[trigger] T::spec_one().spec_mul(a) == a,
        forall|a: T| #[trigger] T::spec_zero().spec_mul(a) == T::spec_zero(),
        forall|a: T| #[trigger] a.spec_add(T::spec_zero()) == a,
        forall|a: T| #[trigger] T::spec_zero().spec_add(a) == a,
    ensures
        Mat3::<T>::spec_identity().spec_mult_vec(v) == v,
{
}

/// The same law, for `Mat4`.
pub proof fn lemma_mat4_identity_mult_vec<T: Float>(v: Vec4<T>)
    requires
        forall|a: T| #[trigger] T::spec_one().spec_mul(a) == a,
        forall|a: T| #[trigger] T::spec_zero().spec_mul(a) == T::spec_zero(),
        forall|a: T| #[trigger] a.spec_add(T::spec_zero()) == a,
        forall|a: T| #[trigger] T::spec_zero().spec_add(a) == a,
    ensures
        Mat4::<T>::spec_identity().spec_mult_vec(v) == v,
{
}

/// Law: multiplying any matrix by the identity matrix, on either side,
/// returns the matrix unchanged, for any scalar with the usual zero and
/// one identities.
pub proof fn lemma_mat2_identity_mult_mat<T: Float>(m: Mat2<T>)
    requires
        forall|a: T| #[trigger] a.spec_mul(T::spec_one()) == a,
        forall|a: T| #[trigger] a.spec_mul(T::spec_zero()) == T::spec_zero(),
        forall|a: T| #[trigger] T::spec_one().spec_mul(a) == a,
        forall|a: T| #[trigger] T::spec_zero().spec_mul(a) == T::spec_zero(),
        forall|a: T| #[trigger] a.spec_add(T::spec_zero()) == a,
        forall|a: T| #[trigger] T::spec_zero().spec_add(a) == a,
    ensures
        m.spec_mult_mat(Mat2::<T>::spec_identity()) == m,
        Mat2::<T>::spec_identity().spec_mult_mat(m) == m,
{
}

/// The same law, for `Mat3`.
pub proof fn lemma_mat3_identity_mult_mat<T: Float>(m: Mat3<T>)
    requires
        forall|a: T| #[trigger] a.spec_mul(T::spec_one()) == a,
        forall|a: T| #[trigger] a.spec_mul(T::spec_zero()) == T::spec_zero(),
        forall|a: T| #[trigger] T::spec_one().spec_mul(a) == a,
        forall|a: T| #[trigger] T::spec_zero().spec_mul(a) == T::spec_zero(),
        forall|a: T| #[trigger] a.spec_add(T::spec_zero()) == a,
        forall|a: T| #[trigger] T::spec_zero().spec_add(a) == a,
    ensures
        m.spec_mult_mat(Mat3::<T>::spec_identity()) == m,
        Mat3::<T>::spec_identity().spec_mult_mat(m) == m,
{
}

/// The same law, for `Mat4`.
pub proof fn lemma_mat4_identity_mult_mat<T: Float>(m: Mat4<T>)
    requires
        forall|a: T| #[trigger] a.spec_mul(T::spec_one()) == a,
        forall|a: T| #[trigger] a.spec_mul(T::spec_zero()) == T::spec_zero(),
        forall|a: T| #[trigger] T::spec_one().spec_mul(a) == a,
        forall|a: T| #[trigger] T::spec_zero().spec_mul(a) == T::spec_zero(),
        forall|a: T| #[trigger] a.spec_add(T::spec_zero()) == a,
        forall|a: T| #[trigger] T::spec_zero().spec_add(a) == a,
    ensures
        m.spec_mult_mat(Mat4::<T>::spec_identity()) == m,
        Mat4::<T>::spec_identity().spec_mult_mat(m) == m,
{
}

/// Law: each row of a matrix product is exactly the dot products of that
/// row of the left factor with the columns of the right factor.  This
/// holds structurally, with no assumption on the scalar.
pub proof fn lemma_mat2_product_row_dot<T: Float>(m1: Mat2<T>, m2: Mat2<T>)
    ensures
        m1.spec_mult_mat(m2).spec_row(Row::X) == (Vec2 { x: m1.spec_row(Row::X).spec_dot(m2.spec_column(Column::X)), y: m1.spec_row(Row::X).spec_dot(m2.spec_column(Column::Y)) }),
        m1.spec_mult_mat(m2).spec_row(Row::Y) == (Vec2 { x: m1.spec_row(Row::Y).spec_dot(m2.spec_column(Column::X)), y: m1.spec_row(Row::Y).spec_dot(m2.spec_column(Column::Y)) }),
{
}

/// The same law, for `Mat3`.
pub proof fn lemma_mat3_product_row_dot<T: Float>(m1: Mat3<T>, m2: Mat3<T>)
    ensures
        m1.spec_mult_mat(m2).spec_row(Row::X) == (Vec3 { x: m1.spec_row(Row::X).spec_dot(m2.spec_column(Column::X)), y: m1.spec_row(Row::X).spec_dot(m2.spec_column(Column::Y)), z: m1.spec_row(Row::X).spec_dot(m2.spec_column(Column::Z)) }),
        m1.spec_mult_mat(m2).spec_row(Row::Y) == (Vec3 { x: m1.spec_row(Row::Y).spec_dot(m2.spec_column(Column::X)), y: m1.spec_row(Row::Y).spec_dot(m2.spec_column(Column::Y)), z: m1.spec_row(Row::Y).spec_dot(m2.spec_column(Column::Z)) }),
        m1.spec_mult_mat(m2).spec_row(Row::Z) == (Vec3 { x: m1.spec_row(Row::Z).spec_dot(m2.spec_column(Column::X)), y: m1.spec_row(Row::Z).spec_dot(m2.spec_column(Column::Y)), z: m1.spec_row(Row::Z).spec_dot(m2.spec_column(Column::Z)) }),
{
}

/// The same law, for `Mat4`.
pub proof fn lemma_mat4_product_row_dot<T: Float>(m1: Mat4<T>, m2: Mat4<T>)
    ensures
        m1.spec_mult_mat(m2).spec_row(Row::X) == (Vec4 { x: m1.spec_row(Row::X).spec_dot(m2.spec_column(Column::X)), y: m1.spec_row(Row::X).spec_dot(m2.spec_column(Column::Y)), z: m1.spec_row(Row::X).spec_dot(m2.spec_column(Column::Z)), w: m1.spec_row(Row::X).spec_dot(m2.spec_column(Column::W)) }),
        m1.spec_mult_mat(m2).spec_row(Row::Y) == (Vec4 { x: m1.spec_row(Row::Y).spec_dot(m2.spec_column(Column::X)), y: m1.spec_row(Row::Y).spec_dot(m2.spec_column(Column::Y)), z: m1.spec_row(Row::Y).spec_dot(m2.spec_column(Column::Z)), w: m1.spec_row(Row::Y).spec_dot(m2.spec_column(Column::W)) }),
        m1.spec_mult_mat(m2).spec_row(Row::Z) == (Vec4 { x: m1.spec_row(Row::Z).spec_dot(m2.spec_column(Column::X)), y: m1.spec_row(Row::Z).spec_dot(m2.spec_column(Column::Y)), z: m1.spec_row(Row::Z).spec_dot(m2.spec_column(Column::Z)), w: m1.spec_row(Row::Z).spec_dot(m2.spec_column(Column::W)) }),
        m1.spec_mult_mat(m2).spec_row(Row::W) == (Vec4 { x: m1.spec_row(Row::W).spec_dot(m2.spec_column(Column::X)), y: m1.spec_row(Row::W).spec_dot(m2.spec_column(Column::Y)), z: m1.spec_row(Row::W).spec_dot(m2.spec_column(Column::Z)), w: m1.spec_row(Row::W).spec_dot(m2.spec_column(Column::W)) }),
{
}

/// Law: each component of a matrix-vector product is the dot product of
/// the matching row with the vector.  This holds structurally, with no
/// assumption on the scalar.
pub proof fn lemma_mat2_mult_vec_row_dot<T: Float>(m: Mat2<T>, v: Vec2<T>)
    ensures
        m.spec_mult_vec(v) == (Vec2 { x: m.spec_row(Row::X).spec_dot(v), y: m.spec_row(Row::Y).spec_dot(v) }),
{
}

/// The same law, for `Mat3`.
pub proof fn lemma_mat3_mult_vec_row_dot<T: Float>(m: Mat3<T>, v: Vec3<T>)
    ensures
        m.spec_mult_vec(v) == (Vec3 { x: m.spec_row(Row::X).spec_dot(v), y: m.spec_row(Row::Y).spec_dot(v), z: m.spec_row(Row::Z).spec_dot(v) }),
{
}

/// The same law, for `Mat4`.
pub proof fn lemma_mat4_mult_vec_row_dot<T: Float>(m: Mat4<T>, v: Vec4<T>)
    ensures
        m.spec_mult_vec(v) == (Vec4 { x: m.spec_row(Row::X).spec_dot(v), y: m.spec_row(Row::Y).spec_dot(v), z: m.spec_row(Row::Z).spec_dot(v), w: m.spec_row(Row::W).spec_dot(v) }),
{
}

/// Law: the row and column accessors agree with the flat element
/// accessor under the row-major layout, for every valid index: element
/// `(i, j)` is flat element `i * order + j`.
pub proof fn lemma_mat2_accessors_agree<T: Float>(m: Mat2<T>)
    ensures
        m.spec_row(Row::X) == (Vec2 { x: m.spec_element(0), y: m.spec_element(1) }),
        m.spec_row(Row::Y) == (Vec2 { x: m.spec_element(2), y: m.spec_element(3) }),
        m.spec_column(Column::X) == (Vec2 { x: m.spec_element(0), y: m.spec_element(2) }),
        m.spec_column(Column::Y) == (Vec2 { x: m.spec_element(1), y: m.spec_element(3) }),
        m.spec_position() == m.spec_column(Column::Y),
{
}

/// The same law, for `Mat3`.
pub proof fn lemma_mat3_accessors_agree<T: Float>(m: Mat3<T>)
    ensures
        m.spec_row(Row::X) == (Vec3 { x: m.spec_element(0), y: m.spec_element(1), z: m.spec_element(2) }),
        m.spec_row(Row::Y) == (Vec3 { x: m.spec_element(3), y: m.spec_element(4), z: m.spec_element(5) }),
        m.spec_row(Row::Z) == (Vec3 { x: m.spec_element(6), y: m.spec_element(7), z: m.spec_element(8) }),
        m.spec_column(Column::X) == (Vec3 { x: m.spec_element(0), y: m.spec_element(3), z: m.spec_element(6) }),
        m.spec_column(Column::Y) == (Vec3 { x: m.spec_element(1), y: m.spec_element(4), z: m.spec_element(7) }),
        m.spec_column(Column::Z) == (Vec3 { x: m.spec_element(2), y: m.spec_element(5), z: m.spec_element(8) }),
        m.spec_position() == m.spec_column(Column::Z),
{
}

/// The same law, for `Mat4`.
pub proof fn lemma_mat4_accessors_agree<T: Float>(m: Mat4<T>)
    ensures
        m.spec_row(Row::X) == (Vec4 { x: m.spec_element(0), y: m.spec_element(1), z: m.spec_element(2), w: m.spec_element(3) }),
        m.spec_row(Row::Y) == (Vec4 { x: m.spec_element(4), y: m.spec_element(5), z: m.spec_element(6), w: m.spec_element(7) }),
        m.spec_row(Row::Z) == (Vec4 { x: m.spec_element(8), y: m.spec_element(9), z: m.spec_element(10), w: m.spec_element(11) }),
        m.spec_row(Row::W) == (Vec4 { x: m.spec_element(12), y: m.spec_element(13), z: m.spec_element(14), w: m.spec_element(15) }),
        m.spec_column(Column::X) == (Vec4 { x: m.spec_element(0), y: m.spec_element(4), z: m.spec_element(8), w: m.spec_element(12) }),
        m.spec_column(Column::Y) == (Vec4 { x: m.spec_element(1), y: m.spec_element(5), z: m.spec_element(9), w: m.spec_element(13) }),
        m.spec_column(Column::Z) == (Vec4 { x: m.spec_element(2), y: m.spec_element(6), z: m.spec_element(10), w: m.spec_element(14) }),
        m.spec_column(Column::W) == (Vec4 { x: m.spec_element(3), y: m.spec_element(7), z: m.spec_element(11), w: m.spec_element(15) }),
        m.spec_position() == m.spec_column(Column::W),
{
}

} // verus!
