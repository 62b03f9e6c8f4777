//! Determinant and inverse of 4x4 matrices of fixed-point numbers.
//!
//! Both are expanded into cofactors on the raw entries, exactly, in 128
//! bits: no product is rounded. The determinant is rounded down once, and
//! every entry of the inverse is the exact cofactor over the exact
//! determinant, rounded down once. A matrix has an inverse exactly when its
//! exact determinant is not zero. The exact expansion fits in 128 bits for
//! matrices whose entries have a magnitude of at most 16384.

use vstd::prelude::*;
use crate::fixed::{floor_div, floor_quotient, lemma_product_bound, saturate, Fixed};
use crate::vector::matrix44::Matrix4x4;

verus! {

/// The greatest raw magnitude of an entry for which determinant and inverse
/// are computed: that of the number 16384.
pub const ENTRY_LIMIT: i64 = 0x4000_0000;

/// The index `k` of a row or column of a 3x3 minor as an index of the
/// matrix from which row or column `removed` was struck.
pub open spec fn kept(k: int, removed: int) -> int {
    if k < removed {
        k
    } else {
        k + 1
    }
}

fn kept_index(k: usize, removed: usize) -> (i: usize)
    requires
        k < 3,
        removed < 4,
    ensures
        i == kept(k as int, removed as int),
        i < 4,
{
    if k < removed {
        k
    } else {
        k + 1
    }
}

impl Matrix4x4<Fixed> {
    /// The raw value of the entry in row `i` and column `j`.
    pub open spec fn raw_at(self, i: int, j: int) -> int {
        self.at(i, j).raw as int
    }

    /// Whether every entry has a raw magnitude of at most [`ENTRY_LIMIT`].
    pub open spec fn within_limit(self) -> bool {
        forall|i: int, j: int|
            0 <= i < 4 && 0 <= j < 4 ==> -ENTRY_LIMIT <= #[trigger] self.raw_at(i, j) <= ENTRY_LIMIT
    }

    /// The exact determinant of the 2x2 part of the raw matrix in the rows
    /// `r0` and `r1` and the columns `c0` and `c1`.
    pub open spec fn exact_det2(self, r0: int, r1: int, c0: int, c1: int) -> int {
        self.raw_at(r0, c0) * self.raw_at(r1, c1) - self.raw_at(r0, c1) * self.raw_at(r1, c0)
    }

    /// The exact minor of the entry in row `i` and column `j`: the
    /// determinant of what is left of the raw matrix when that row and
    /// column are struck, expanded along its first row.
    pub open spec fn exact_minor(self, i: int, j: int) -> int {
        let r0 = kept(0, i);
        let r1 = kept(1, i);
        let r2 = kept(2, i);
        let c0 = kept(0, j);
        let c1 = kept(1, j);
        let c2 = kept(2, j);
        self.raw_at(r0, c0) * self.exact_det2(r1, r2, c1, c2) - self.raw_at(r0, c1) * self.exact_det2(
            r1,
            r2,
            c0,
            c2,
        ) + self.raw_at(r0, c2) * self.exact_det2(r1, r2, c0, c1)
    }

    /// The exact cofactor of the entry in row `i` and column `j`: its
    /// minor, with the opposite sign where `i + j` is odd.
    #[verifier::opaque]
    pub open spec fn exact_cofactor(self, i: int, j: int) -> int {
        if (i + j) % 2 == 0 {
            self.exact_minor(i, j)
        } else {
            -self.exact_minor(i, j)
        }
    }

    /// The exact determinant of the raw matrix, expanded along the first
    /// row. The determinant of the matrix itself is this number divided by
    /// 65536 to the fourth power.
    pub open spec fn exact_determinant(self) -> int {
        self.raw_at(0, 0) * self.exact_cofactor(0, 0) + self.raw_at(0, 1) * self.exact_cofactor(0, 1)
            + self.raw_at(0, 2) * self.exact_cofactor(0, 2) + self.raw_at(0, 3) * self.exact_cofactor(0, 3)
    }

    /// Whether the matrix is singular: its exact determinant is zero.
    pub open spec fn singular(self) -> bool {
        self.exact_determinant() == 0
    }

    /// The determinant as a fixed-point number: the exact determinant,
    /// rounded down once to a multiple of 1/65536.
    pub open spec fn determinant_spec(self) -> Fixed {
        Fixed { raw: saturate(self.exact_determinant() / 0x1_0000_0000_0000) }
    }

    /// The entry in row `i` and column `j` of the inverse: the exact
    /// cofactor of the entry in row `j` and column `i` over the exact
    /// determinant, rounded down once to a multiple of 1/65536.
    pub open spec fn inverse_entry_spec(self, i: int, j: int) -> Fixed {
        Fixed { raw: saturate(floor_quotient(self.exact_cofactor(j, i) * 0x1_0000_0000, self.exact_determinant())) }
    }

    /// Whether every entry has a raw magnitude of at most [`ENTRY_LIMIT`].
    pub fn is_within_limit(&self) -> (r: bool)
        ensures
            r == self.within_limit(),
    {
        let mut i: usize = 0;
        while i < 4
            invariant
                i <= 4,
                forall|a: int, b: int| 0 <= a < i && 0 <= b < 4 ==> -ENTRY_LIMIT <= #[trigger] self.raw_at(a, b) <= ENTRY_LIMIT,
            decreases 4 - i,
        {
            let mut j: usize = 0;
            while j < 4
                invariant
                    i < 4,
                    j <= 4,
                    forall|a: int, b: int|
                        0 <= a < i && 0 <= b < 4 ==> -ENTRY_LIMIT <= #[trigger] self.raw_at(a, b) <= ENTRY_LIMIT,
                    forall|b: int| 0 <= b < j ==> -ENTRY_LIMIT <= #[trigger] self.raw_at(i as int, b) <= ENTRY_LIMIT,
                decreases 4 - j,
            {
                let e: i64 = self.rows[i][j].raw;
                if e < -ENTRY_LIMIT || e > ENTRY_LIMIT {
                    assert(!(-ENTRY_LIMIT <= self.raw_at(i as int, j as int) <= ENTRY_LIMIT));
                    return false;
                }
                j = j + 1;
            }
            i = i + 1;
        }
        true
    }

    fn raw_entry(&self, i: usize, j: usize) -> (e: i128)
        requires
            i < 4,
            j < 4,
            self.within_limit(),
        ensures
            e == self.raw_at(i as int, j as int),
            -0x4000_0000 <= e <= 0x4000_0000,
    {
        assert(-ENTRY_LIMIT <= self.raw_at(i as int, j as int) <= ENTRY_LIMIT);
        self.rows[i][j].raw as i128
    }

    fn det2(&self, r0: usize, r1: usize, c0: usize, c1: usize) -> (d: i128)
        requires
            r0 < 4,
            r1 < 4,
            c0 < 4,
            c1 < 4,
            self.within_limit(),
        ensures
            d == self.exact_det2(r0 as int, r1 as int, c0 as int, c1 as int),
            -0x2000_0000_0000_0000 <= d <= 0x2000_0000_0000_0000,
    {
        let a = self.raw_entry(r0, c0);
        let b = self.raw_entry(r1, c1);
        let c = self.raw_entry(r0, c1);
        let e = self.raw_entry(r1, c0);
        proof {
            lemma_product_bound(a as int, b as int, 0x4000_0000, 0x4000_0000);
            lemma_product_bound(c as int, e as int, 0x4000_0000, 0x4000_0000);
        }
        a * b - c * e
    }

    fn cofactor(&self, i: usize, j: usize) -> (c: i128)
        requires
            i < 4,
            j < 4,
            self.within_limit(),
        ensures
            c == self.exact_cofactor(i as int, j as int),
            -0x1800_0000_0000_0000_0000_0000 <= c <= 0x1800_0000_0000_0000_0000_0000,
    {
        proof {
            reveal(Matrix4x4::exact_cofactor);
        }
        let r0 = kept_index(0, i);
        let r1 = kept_index(1, i);
        let r2 = kept_index(2, i);
        let c0 = kept_index(0, j);
        let c1 = kept_index(1, j);
        let c2 = kept_index(2, j);
        let a0 = self.raw_entry(r0, c0);
        let a1 = self.raw_entry(r0, c1);
        let a2 = self.raw_entry(r0, c2);
        let d0 = self.det2(r1, r2, c1, c2);
        let d1 = self.det2(r1, r2, c0, c2);
        let d2 = self.det2(r1, r2, c0, c1);
        proof {
            lemma_product_bound(a0 as int, d0 as int, 0x4000_0000, 0x2000_0000_0000_0000);
            lemma_product_bound(a1 as int, d1 as int, 0x4000_0000, 0x2000_0000_0000_0000);
            lemma_product_bound(a2 as int, d2 as int, 0x4000_0000, 0x2000_0000_0000_0000);
        }
        let minor: i128 = a0 * d0 - a1 * d1 + a2 * d2;
        if (i + j) % 2 == 0 {
            minor
        } else {
            -minor
        }
    }

    fn determinant_exact(&self) -> (d: i128)
        requires
            self.within_limit(),
        ensures
            d == self.exact_determinant(),
            -0x1800_0000_0000_0000_0000_0000_0000_0000 <= d <= 0x1800_0000_0000_0000_0000_0000_0000_0000,
    {
        let a0 = self.raw_entry(0, 0);
        let a1 = self.raw_entry(0, 1);
        let a2 = self.raw_entry(0, 2);
        let a3 = self.raw_entry(0, 3);
        let c0 = self.cofactor(0, 0);
        let c1 = self.cofactor(0, 1);
        let c2 = self.cofactor(0, 2);
        let c3 = self.cofactor(0, 3);
        proof {
            lemma_product_bound(a0 as int, c0 as int, 0x4000_0000, 0x1800_0000_0000_0000_0000_0000);
            lemma_product_bound(a1 as int, c1 as int, 0x4000_0000, 0x1800_0000_0000_0000_0000_0000);
            lemma_product_bound(a2 as int, c2 as int, 0x4000_0000, 0x1800_0000_0000_0000_0000_0000);
            lemma_product_bound(a3 as int, c3 as int, 0x4000_0000, 0x1800_0000_0000_0000_0000_0000);
        }
        a0 * c0 + a1 * c1 + a2 * c2 + a3 * c3
    }

    /// The determinant of a matrix within the limit, rounded down once.
    pub fn determinant(&self) -> (d: Fixed)
        requires
            self.within_limit(),
        ensures
            d == self.determinant_spec(),
    {
        let exact = self.determinant_exact();
        let q: i128 = floor_div(exact, 0x1_0000_0000_0000);
        Fixed {
            raw: if q < i64::MIN as i128 {
                i64::MIN
            } else if q > i64::MAX as i128 {
                i64::MAX
            } else {
                q as i64
            },
        }
    }

    fn inverse_entry(&self, i: usize, j: usize, det: i128) -> (e: Fixed)
        requires
            i < 4,
            j < 4,
            self.within_limit(),
            det == self.exact_determinant(),
            det != 0,
        ensures
            e == self.inverse_entry_spec(i as int, j as int),
    {
        let c = self.cofactor(j, i);
        let n: i128 = c * 0x1_0000_0000;
        let q: i128 = if det > 0 {
            floor_div(n, det)
        } else {
            proof {
                self.lemma_determinant_range();
            }
            floor_div(-n, -det)
        };
        Fixed {
            raw: if q < i64::MIN as i128 {
                i64::MIN
            } else if q > i64::MAX as i128 {
                i64::MAX
            } else {
                q as i64
            },
        }
    }

    /// The exact determinant of a matrix within the limit fits in 128
    /// bits.
    pub proof fn lemma_determinant_range(self)
        requires
            self.within_limit(),
        ensures
            -0x1800_0000_0000_0000_0000_0000_0000_0000 <= self.exact_determinant()
                <= 0x1800_0000_0000_0000_0000_0000_0000_0000,
    {
        reveal(Matrix4x4::exact_cofactor);
        assert forall|i: int, j: int| 0 <= i < 4 && 0 <= j < 4 implies -0x4000_0000 <= #[trigger] self.raw_at(i, j)
            <= 0x4000_0000 by {}
        assert forall|r0: int, r1: int, c0: int, c1: int|
            0 <= r0 < 4 && 0 <= r1 < 4 && 0 <= c0 < 4 && 0 <= c1 < 4 implies -0x2000_0000_0000_0000
            <= #[trigger] self.exact_det2(r0, r1, c0, c1) <= 0x2000_0000_0000_0000 by {
            lemma_product_bound(self.raw_at(r0, c0), self.raw_at(r1, c1), 0x4000_0000, 0x4000_0000);
            lemma_product_bound(self.raw_at(r0, c1), self.raw_at(r1, c0), 0x4000_0000, 0x4000_0000);
        }
        assert forall|j: int| 0 <= j < 4 implies -0x1800_0000_0000_0000_0000_0000
            <= #[trigger] self.exact_cofactor(0, j) <= 0x1800_0000_0000_0000_0000_0000 by {
            let c0 = kept(0, j);
            let c1 = kept(1, j);
            let c2 = kept(2, j);
            lemma_product_bound(self.raw_at(1, c0), self.exact_det2(2, 3, c1, c2), 0x4000_0000, 0x2000_0000_0000_0000);
            lemma_product_bound(self.raw_at(1, c1), self.exact_det2(2, 3, c0, c2), 0x4000_0000, 0x2000_0000_0000_0000);
            lemma_product_bound(self.raw_at(1, c2), self.exact_det2(2, 3, c0, c1), 0x4000_0000, 0x2000_0000_0000_0000);
        }
        lemma_product_bound(self.raw_at(0, 0), self.exact_cofactor(0, 0), 0x4000_0000, 0x1800_0000_0000_0000_0000_0000);
        lemma_product_bound(self.raw_at(0, 1), self.exact_cofactor(0, 1), 0x4000_0000, 0x1800_0000_0000_0000_0000_0000);
        lemma_product_bound(self.raw_at(0, 2), self.exact_cofactor(0, 2), 0x4000_0000, 0x1800_0000_0000_0000_0000_0000);
        lemma_product_bound(self.raw_at(0, 3), self.exact_cofactor(0, 3), 0x4000_0000, 0x1800_0000_0000_0000_0000_0000);
    }

    /// The inverse of a matrix within the limit, by Cramer's rule on the
    /// raw entries: every entry is the exact cofactor over the exact
    /// determinant, rounded down once. Nothing is returned exactly when the
    /// matrix is singular.
    pub fn inverse(&self) -> (r: Option<Matrix4x4<Fixed>>)
        requires
            self.within_limit(),
        ensures
            r.is_none() <==> self.singular(),
            r matches Some(m) ==> forall|i: int, j: int|
                0 <= i < 4 && 0 <= j < 4 ==> #[trigger] m.at(i, j) == self.inverse_entry_spec(i, j),
    {
        let det = self.determinant_exact();
        if det == 0 {
            return None;
        }
        let m = Matrix4x4::new(
            self.inverse_entry(0, 0, det),
            self.inverse_entry(0, 1, det),
            self.inverse_entry(0, 2, det),
            self.inverse_entry(0, 3, det),
            self.inverse_entry(1, 0, det),
            self.inverse_entry(1, 1, det),
            self.inverse_entry(1, 2, det),
            self.inverse_entry(1, 3, det),
            self.inverse_entry(2, 0, det),
            self.inverse_entry(2, 1, det),
            self.inverse_entry(2, 2, det),
            self.inverse_entry(2, 3, det),
            self.inverse_entry(3, 0, det),
            self.inverse_entry(3, 1, det),
            self.inverse_entry(3, 2, det),
            self.inverse_entry(3, 3, det),
        );
        Some(m)
    }

    /// Replaces a matrix within the limit by its inverse and answers
    /// `true`, or leaves it as it is and answers `false` when it is
    /// singular.
    pub fn invert(&mut self) -> (done: bool)
        requires
            old(self).within_limit(),
        ensures
            done == !old(self).singular(),
            done ==> forall|i: int, j: int|
                0 <= i < 4 && 0 <= j < 4 ==> #[trigger] final(self).at(i, j) == old(self).inverse_entry_spec(i, j),
            !done ==> *final(self) == *old(self),
    {
        match self.inverse() {
            Some(inv) => {
                *self = inv;
                true
            },
            None => false,
        }
    }
}

} // verus!
