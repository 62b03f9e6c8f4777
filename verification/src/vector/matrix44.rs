//! 4x4 matrices over any scalar type, stored row by row.
//!
//! As with the vectors, a contract here holds for every scalar type that
//! keeps to the specification of its operators, and asks of the operands
//! what the scalar operators ask of theirs.

use vstd::prelude::*;
use vstd::std_specs::ops::{AddSpec, DivSpec, MulSpec, MulSpecImpl};
use std::ops::{Add, Div, Mul};
use crate::fixed::Fixed;
use crate::vector::vec3d::Vec3d;

verus! {

/// A matrix of four rows and four columns.
#[derive(Copy, Clone, Debug, PartialEq, Eq)]
pub struct Matrix4x4<T: Copy> {
    pub rows: [[T; 4]; 4],
}

impl<T: Copy> Matrix4x4<T> {
    /// The entry in row `i` and column `j`.
    pub open spec fn at(self, i: int, j: int) -> T {
        self.rows[i][j]
    }

    /// Whether the entries of the matrix are the sixteen given values, row
    /// by row.
    pub open spec fn holds(
        self,
        a00: T,
        a01: T,
        a02: T,
        a03: T,
        a10: T,
        a11: T,
        a12: T,
        a13: T,
        a20: T,
        a21: T,
        a22: T,
        a23: T,
        a30: T,
        a31: T,
        a32: T,
        a33: T,
    ) -> bool {
        &&& self.at(0, 0) == a00
        &&& self.at(0, 1) == a01
        &&& self.at(0, 2) == a02
        &&& self.at(0, 3) == a03
        &&& self.at(1, 0) == a10
        &&& self.at(1, 1) == a11
        &&& self.at(1, 2) == a12
        &&& self.at(1, 3) == a13
        &&& self.at(2, 0) == a20
        &&& self.at(2, 1) == a21
        &&& self.at(2, 2) == a22
        &&& self.at(2, 3) == a23
        &&& self.at(3, 0) == a30
        &&& self.at(3, 1) == a31
        &&& self.at(3, 2) == a32
        &&& self.at(3, 3) == a33
    }

    /// Two matrices with the same entries are the same matrix.
    pub proof fn lemma_same_entries(a: Matrix4x4<T>, b: Matrix4x4<T>)
        requires
            forall|i: int, j: int| 0 <= i < 4 && 0 <= j < 4 ==> a.at(i, j) == b.at(i, j),
        ensures
            a == b,
    {
        assert forall|i: int| 0 <= i < 4 implies a.rows[i] == b.rows[i] by {
            assert forall|j: int| 0 <= j < 4 implies a.rows[i][j] == b.rows[i][j] by {
                assert(a.at(i, j) == b.at(i, j));
            }
            assert(a.rows[i] =~= b.rows[i]);
        }
        assert(a.rows =~= b.rows);
    }

    /// The matrix with the given entries, row by row.
    pub fn new(
        a00: T,
        a01: T,
        a02: T,
        a03: T,
        a10: T,
        a11: T,
        a12: T,
        a13: T,
        a20: T,
        a21: T,
        a22: T,
        a23: T,
        a30: T,
        a31: T,
        a32: T,
        a33: T,
    ) -> (m: Matrix4x4<T>)
        ensures
            m.holds(a00, a01, a02, a03, a10, a11, a12, a13, a20, a21, a22, a23, a30, a31, a32, a33),
    {
        Matrix4x4 { rows: [[a00, a01, a02, a03], [a10, a11, a12, a13], [a20, a21, a22, a23], [a30, a31, a32, a33]] }
    }

    /// The number of rows and of columns.
    pub fn shape(&self) -> (s: (usize, usize))
        ensures
            s == (4usize, 4usize),
    {
        (self.rows(), self.columns())
    }

    /// The number of rows.
    pub fn rows(&self) -> (n: usize)
        ensures
            n == 4,
    {
        4
    }

    /// The number of columns.
    pub fn columns(&self) -> (n: usize)
        ensures
            n == 4,
    {
        4
    }

    /// The entries of row `index`.
    pub fn index(&self, index: usize) -> (row: &[T])
        requires
            index < 4,
        ensures
            row@.len() == 4,
            forall|j: int| 0 <= j < 4 ==> row@[j] == self.at(index as int, j),
    {
        self.rows[index].as_slice()
    }

    /// The entry in row `i` and column `j`.
    pub fn entry(&self, i: usize, j: usize) -> (e: T)
        requires
            i < 4,
            j < 4,
        ensures
            e == self.at(i as int, j as int),
    {
        self.rows[i][j]
    }

    /// The matrix with rows and columns exchanged.
    pub open spec fn transposed_spec(self) -> Matrix4x4<T> {
        Matrix4x4 {
            rows: [
                [self.at(0, 0), self.at(1, 0), self.at(2, 0), self.at(3, 0)],
                [self.at(0, 1), self.at(1, 1), self.at(2, 1), self.at(3, 1)],
                [self.at(0, 2), self.at(1, 2), self.at(2, 2), self.at(3, 2)],
                [self.at(0, 3), self.at(1, 3), self.at(2, 3), self.at(3, 3)],
            ],
        }
    }

    /// The matrix with rows and columns exchanged.
    pub fn transposed(&self) -> (m: Matrix4x4<T>)
        ensures
            m == self.transposed_spec(),
            forall|i: int, j: int| 0 <= i < 4 && 0 <= j < 4 ==> m.at(i, j) == self.at(j, i),
    {
        let m = Matrix4x4::new(
            self.rows[0][0],
            self.rows[1][0],
            self.rows[2][0],
            self.rows[3][0],
            self.rows[0][1],
            self.rows[1][1],
            self.rows[2][1],
            self.rows[3][1],
            self.rows[0][2],
            self.rows[1][2],
            self.rows[2][2],
            self.rows[3][2],
            self.rows[0][3],
            self.rows[1][3],
            self.rows[2][3],
            self.rows[3][3],
        );
        proof {
            Self::lemma_same_entries(m, self.transposed_spec());
        }
        m
    }

    /// Exchanges rows and columns in place.
    pub fn transpose(&mut self)
        ensures
            *final(self) == old(self).transposed_spec(),
    {
        let temp = self.transposed();
        *self = temp;
    }
}

impl<T: Copy + Add<T, Output = T> + Mul<T, Output = T>> Matrix4x4<T> {
    /// The entry in row `i` and column `j` of the product of two matrices:
    /// the products of the entries of row `i` of the first with those of
    /// column `j` of the second, added up from the first to the last.
    pub open spec fn entry_spec(self, other: Matrix4x4<T>, i: int, j: int) -> T {
        self.at(i, 0).mul_spec(other.at(0, j)).add_spec(self.at(i, 1).mul_spec(other.at(1, j))).add_spec(
            self.at(i, 2).mul_spec(other.at(2, j)),
        ).add_spec(self.at(i, 3).mul_spec(other.at(3, j)))
    }

    /// What the scalar operators ask of the operands for one entry of a
    /// product.
    pub open spec fn entry_req(self, other: Matrix4x4<T>, i: int, j: int) -> bool {
        &&& self.at(i, 0).mul_req(other.at(0, j))
        &&& self.at(i, 1).mul_req(other.at(1, j))
        &&& self.at(i, 2).mul_req(other.at(2, j))
        &&& self.at(i, 3).mul_req(other.at(3, j))
        &&& self.at(i, 0).mul_spec(other.at(0, j)).add_req(self.at(i, 1).mul_spec(other.at(1, j)))
        &&& self.at(i, 0).mul_spec(other.at(0, j)).add_spec(self.at(i, 1).mul_spec(other.at(1, j))).add_req(
            self.at(i, 2).mul_spec(other.at(2, j)),
        )
        &&& self.at(i, 0).mul_spec(other.at(0, j)).add_spec(self.at(i, 1).mul_spec(other.at(1, j))).add_spec(
            self.at(i, 2).mul_spec(other.at(2, j)),
        ).add_req(self.at(i, 3).mul_spec(other.at(3, j)))
    }

    /// What the scalar operators ask of the operands of a matrix product.
    pub open spec fn product_req(self, other: Matrix4x4<T>) -> bool {
        forall|i: int, j: int| 0 <= i < 4 && 0 <= j < 4 ==> #[trigger] self.entry_req(other, i, j)
    }

    /// The product of two matrices.
    pub open spec fn product_spec(self, other: Matrix4x4<T>) -> Matrix4x4<T> {
        Matrix4x4 {
            rows: [
                [
                    self.entry_spec(other, 0, 0),
                    self.entry_spec(other, 0, 1),
                    self.entry_spec(other, 0, 2),
                    self.entry_spec(other, 0, 3),
                ],
                [
                    self.entry_spec(other, 1, 0),
                    self.entry_spec(other, 1, 1),
                    self.entry_spec(other, 1, 2),
                    self.entry_spec(other, 1, 3),
                ],
                [
                    self.entry_spec(other, 2, 0),
                    self.entry_spec(other, 2, 1),
                    self.entry_spec(other, 2, 2),
                    self.entry_spec(other, 2, 3),
                ],
                [
                    self.entry_spec(other, 3, 0),
                    self.entry_spec(other, 3, 1),
                    self.entry_spec(other, 3, 2),
                    self.entry_spec(other, 3, 3),
                ],
            ],
        }
    }

    fn product_entry(&self, other: &Matrix4x4<T>, i: usize, j: usize) -> (e: T)
        requires
            T::obeys_add_spec(),
            T::obeys_mul_spec(),
            i < 4,
            j < 4,
            self.entry_req(*other, i as int, j as int),
        ensures
            e == self.entry_spec(*other, i as int, j as int),
    {
        let mut sum: T = self.rows[i][0] * other.rows[0][j];
        sum = sum + self.rows[i][1] * other.rows[1][j];
        sum = sum + self.rows[i][2] * other.rows[2][j];
        sum = sum + self.rows[i][3] * other.rows[3][j];
        sum
    }

    fn product(&self, other: &Matrix4x4<T>) -> (m: Matrix4x4<T>)
        requires
            T::obeys_add_spec(),
            T::obeys_mul_spec(),
            self.product_req(*other),
        ensures
            m == self.product_spec(*other),
            forall|i: int, j: int| 0 <= i < 4 && 0 <= j < 4 ==> m.at(i, j) == self.entry_spec(*other, i, j),
    {
        assert(self.entry_req(*other, 0, 0) && self.entry_req(*other, 0, 1) && self.entry_req(*other, 0, 2)
            && self.entry_req(*other, 0, 3));
        assert(self.entry_req(*other, 1, 0) && self.entry_req(*other, 1, 1) && self.entry_req(*other, 1, 2)
            && self.entry_req(*other, 1, 3));
        assert(self.entry_req(*other, 2, 0) && self.entry_req(*other, 2, 1) && self.entry_req(*other, 2, 2)
            && self.entry_req(*other, 2, 3));
        assert(self.entry_req(*other, 3, 0) && self.entry_req(*other, 3, 1) && self.entry_req(*other, 3, 2)
            && self.entry_req(*other, 3, 3));
        let m = Matrix4x4::new(
            self.product_entry(other, 0, 0),
            self.product_entry(other, 0, 1),
            self.product_entry(other, 0, 2),
            self.product_entry(other, 0, 3),
            self.product_entry(other, 1, 0),
            self.product_entry(other, 1, 1),
            self.product_entry(other, 1, 2),
            self.product_entry(other, 1, 3),
            self.product_entry(other, 2, 0),
            self.product_entry(other, 2, 1),
            self.product_entry(other, 2, 2),
            self.product_entry(other, 2, 3),
            self.product_entry(other, 3, 0),
            self.product_entry(other, 3, 1),
            self.product_entry(other, 3, 2),
            self.product_entry(other, 3, 3),
        );
        proof {
            Self::lemma_same_entries(m, self.product_spec(*other));
        }
        m
    }

    /// Writes the product of the matrix with `other` to `scratch`.
    pub fn multiply(&self, other: &Matrix4x4<T>, scratch: &mut Matrix4x4<T>)
        requires
            T::obeys_add_spec(),
            T::obeys_mul_spec(),
            self.product_req(*other),
        ensures
            *final(scratch) == self.product_spec(*other),
    {
        let m = self.product(other);
        *scratch = m;
    }

    /// Replaces the matrix by its product with `other`.
    pub fn mul_assign(&mut self, other: Matrix4x4<T>)
        requires
            T::obeys_add_spec(),
            T::obeys_mul_spec(),
            old(self).product_req(other),
        ensures
            *final(self) == old(self).product_spec(other),
    {
        let m = self.product(&other);
        *self = m;
    }

    /// What the scalar operators ask of the operands when the upper left
    /// 3x3 part of the matrix is applied to a vector.
    pub open spec fn apply_req(self, src: Vec3d<T>, j: int) -> bool {
        &&& src.x.mul_req(self.at(0, j))
        &&& src.y.mul_req(self.at(1, j))
        &&& src.z.mul_req(self.at(2, j))
        &&& src.x.mul_spec(self.at(0, j)).add_req(src.y.mul_spec(self.at(1, j)))
        &&& src.x.mul_spec(self.at(0, j)).add_spec(src.y.mul_spec(self.at(1, j))).add_req(
            src.z.mul_spec(self.at(2, j)),
        )
    }

    /// Component `j` of the vector that the upper left 3x3 part of the
    /// matrix makes of `src`: the components of `src` times the entries of
    /// column `j`, added up.
    pub open spec fn apply_spec(self, src: Vec3d<T>, j: int) -> T {
        src.x.mul_spec(self.at(0, j)).add_spec(src.y.mul_spec(self.at(1, j))).add_spec(
            src.z.mul_spec(self.at(2, j)),
        )
    }

    fn apply_component(&self, src: &Vec3d<T>, j: usize) -> (c: T)
        requires
            T::obeys_add_spec(),
            T::obeys_mul_spec(),
            j < 4,
            self.apply_req(*src, j as int),
        ensures
            c == self.apply_spec(*src, j as int),
    {
        let mut sum: T = src.x * self.rows[0][j];
        sum = sum + src.y * self.rows[1][j];
        sum = sum + src.z * self.rows[2][j];
        sum
    }

    /// Applies the upper left 3x3 part of the matrix to the vector `src`
    /// and writes the result to `dest`. The fourth row and column, which
    /// hold the displacement in homogeneous coordinates, play no part.
    pub fn vec_multiply(&self, src: &Vec3d<T>, dest: &mut Vec3d<T>)
        requires
            T::obeys_add_spec(),
            T::obeys_mul_spec(),
            self.apply_req(*src, 0),
            self.apply_req(*src, 1),
            self.apply_req(*src, 2),
        ensures
            final(dest).x == self.apply_spec(*src, 0),
            final(dest).y == self.apply_spec(*src, 1),
            final(dest).z == self.apply_spec(*src, 2),
    {
        let x = self.apply_component(src, 0);
        let y = self.apply_component(src, 1);
        let z = self.apply_component(src, 2);

        dest.x = x;
        dest.y = y;
        dest.z = z;
    }
}

impl<T: Copy + Add<T, Output = T> + Mul<T, Output = T> + Div<T, Output = T>> Matrix4x4<T> {
    /// What the scalar operators ask of the operands when the matrix is
    /// applied to a point with its displacement.
    pub open spec fn displace_req(self, src: Vec3d<T>) -> bool {
        &&& self.apply_req(src, 0)
        &&& self.apply_req(src, 1)
        &&& self.apply_req(src, 2)
        &&& self.apply_req(src, 3)
        &&& self.apply_spec(src, 0).add_req(self.at(0, 3))
        &&& self.apply_spec(src, 1).add_req(self.at(1, 3))
        &&& self.apply_spec(src, 2).add_req(self.at(2, 3))
        &&& self.apply_spec(src, 3).add_req(self.at(3, 3))
        &&& self.apply_spec(src, 0).add_spec(self.at(0, 3)).div_req(self.apply_spec(src, 3).add_spec(self.at(3, 3)))
        &&& self.apply_spec(src, 1).add_spec(self.at(1, 3)).div_req(self.apply_spec(src, 3).add_spec(self.at(3, 3)))
        &&& self.apply_spec(src, 2).add_spec(self.at(2, 3)).div_req(self.apply_spec(src, 3).add_spec(self.at(3, 3)))
    }

    /// Applies the matrix to the point `src` in homogeneous coordinates and
    /// divides by the fourth coordinate of the result.
    pub fn vec_disp_multiply(&self, src: &Vec3d<T>, dest: &mut Vec3d<T>)
        requires
            T::obeys_add_spec(),
            T::obeys_mul_spec(),
            T::obeys_div_spec(),
            self.displace_req(*src),
        ensures
            final(dest).x == self.apply_spec(*src, 0).add_spec(self.at(0, 3)).div_spec(
                self.apply_spec(*src, 3).add_spec(self.at(3, 3)),
            ),
            final(dest).y == self.apply_spec(*src, 1).add_spec(self.at(1, 3)).div_spec(
                self.apply_spec(*src, 3).add_spec(self.at(3, 3)),
            ),
            final(dest).z == self.apply_spec(*src, 2).add_spec(self.at(2, 3)).div_spec(
                self.apply_spec(*src, 3).add_spec(self.at(3, 3)),
            ),
    {
        let x = self.apply_component(src, 0) + self.rows[0][3];
        let y = self.apply_component(src, 1) + self.rows[1][3];
        let z = self.apply_component(src, 2) + self.rows[2][3];
        let w = self.apply_component(src, 3) + self.rows[3][3];

        dest.x = x / w;
        dest.y = y / w;
        dest.z = z / w;
    }
}

impl<T: Copy + Add<T, Output = T> + Mul<T, Output = T>> MulSpecImpl<Matrix4x4<T>> for Matrix4x4<T> {
    open spec fn obeys_mul_spec() -> bool {
        T::obeys_add_spec() && T::obeys_mul_spec()
    }

    open spec fn mul_req(self, other: Matrix4x4<T>) -> bool {
        T::obeys_add_spec() && T::obeys_mul_spec() && self.product_req(other)
    }

    open spec fn mul_spec(self, other: Matrix4x4<T>) -> Matrix4x4<T> {
        self.product_spec(other)
    }
}

impl<T: Copy + Add<T, Output = T> + Mul<T, Output = T>> Mul<Matrix4x4<T>> for Matrix4x4<T> {
    type Output = Matrix4x4<T>;

    fn mul(self, other: Matrix4x4<T>) -> (m: Matrix4x4<T>) {
        self.product(&other)
    }
}

impl<'a, T: Copy + Add<T, Output = T> + Mul<T, Output = T>> MulSpecImpl<Matrix4x4<T>> for &'a Matrix4x4<T> {
    open spec fn obeys_mul_spec() -> bool {
        T::obeys_add_spec() && T::obeys_mul_spec()
    }

    open spec fn mul_req(self, other: Matrix4x4<T>) -> bool {
        T::obeys_add_spec() && T::obeys_mul_spec() && self.product_req(other)
    }

    open spec fn mul_spec(self, other: Matrix4x4<T>) -> Matrix4x4<T> {
        self.product_spec(other)
    }
}

impl<'a, T: Copy + Add<T, Output = T> + Mul<T, Output = T>> Mul<Matrix4x4<T>> for &'a Matrix4x4<T> {
    type Output = Matrix4x4<T>;

    fn mul(self, other: Matrix4x4<T>) -> (m: Matrix4x4<T>) {
        self.product(&other)
    }
}

impl<'a, 'b, T: Copy + Add<T, Output = T> + Mul<T, Output = T>> MulSpecImpl<&'a Matrix4x4<T>> for &'b Matrix4x4<T> {
    open spec fn obeys_mul_spec() -> bool {
        T::obeys_add_spec() && T::obeys_mul_spec()
    }

    open spec fn mul_req(self, other: &'a Matrix4x4<T>) -> bool {
        T::obeys_add_spec() && T::obeys_mul_spec() && self.product_req(*other)
    }

    open spec fn mul_spec(self, other: &'a Matrix4x4<T>) -> Matrix4x4<T> {
        self.product_spec(*other)
    }
}

impl<'a, 'b, T: Copy + Add<T, Output = T> + Mul<T, Output = T>> Mul<&'a Matrix4x4<T>> for &'b Matrix4x4<T> {
    type Output = Matrix4x4<T>;

    fn mul(self, other: &'a Matrix4x4<T>) -> (m: Matrix4x4<T>) {
        self.product(other)
    }
}

impl Matrix4x4<Fixed> {
    /// The identity matrix.
    pub open spec fn identity_spec() -> Matrix4x4<Fixed> {
        Matrix4x4 {
            rows: [
                [Fixed { raw: 65536 }, Fixed { raw: 0 }, Fixed { raw: 0 }, Fixed { raw: 0 }],
                [Fixed { raw: 0 }, Fixed { raw: 65536 }, Fixed { raw: 0 }, Fixed { raw: 0 }],
                [Fixed { raw: 0 }, Fixed { raw: 0 }, Fixed { raw: 65536 }, Fixed { raw: 0 }],
                [Fixed { raw: 0 }, Fixed { raw: 0 }, Fixed { raw: 0 }, Fixed { raw: 65536 }],
            ],
        }
    }

    /// The matrix of zeros.
    pub open spec fn zero_spec() -> Matrix4x4<Fixed> {
        Matrix4x4 {
            rows: [
                [Fixed { raw: 0 }, Fixed { raw: 0 }, Fixed { raw: 0 }, Fixed { raw: 0 }],
                [Fixed { raw: 0 }, Fixed { raw: 0 }, Fixed { raw: 0 }, Fixed { raw: 0 }],
                [Fixed { raw: 0 }, Fixed { raw: 0 }, Fixed { raw: 0 }, Fixed { raw: 0 }],
                [Fixed { raw: 0 }, Fixed { raw: 0 }, Fixed { raw: 0 }, Fixed { raw: 0 }],
            ],
        }
    }

    /// The identity matrix.
    pub fn identity() -> (m: Matrix4x4<Fixed>)
        ensures
            m == Self::identity_spec(),
    {
        let _0 = Fixed::from_int(0);
        let _1 = Fixed::from_int(1);
        let m = Matrix4x4::new(_1, _0, _0, _0, _0, _1, _0, _0, _0, _0, _1, _0, _0, _0, _0, _1);
        proof {
            Self::lemma_same_entries(m, Self::identity_spec());
        }
        m
    }

    /// The matrix of zeros.
    pub fn zero() -> (m: Matrix4x4<Fixed>)
        ensures
            m == Self::zero_spec(),
    {
        let _0 = Fixed::from_int(0);
        let m = Matrix4x4::new(_0, _0, _0, _0, _0, _0, _0, _0, _0, _0, _0, _0, _0, _0, _0, _0);
        proof {
            Self::lemma_same_entries(m, Self::zero_spec());
        }
        m
    }
}

} // verus!
