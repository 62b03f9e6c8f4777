//! Fixed-point scalars with sixteen fractional bits.
//!
//! A raw value `v` stands for the rational number `v / 65536`. Colours and
//! texture coordinates are raw values of 32 bits, on which the functions at
//! the head of this module work; the transforms compute with [`Fixed`], a
//! raw value of 64 bits with saturating arithmetic.

use vstd::prelude::*;
use vstd::arithmetic::div_mod::{
    lemma_div_is_ordered,
    lemma_div_pos_is_pos,
    lemma_fundamental_div_mod,
    lemma_fundamental_div_mod_converse,
};
use vstd::std_specs::ops::{AddSpecImpl, DivSpecImpl, MulSpecImpl, NegSpecImpl, SubSpecImpl};
use std::ops::{Add, Div, Mul, Neg, Sub};

verus! {

/// The raw value of the number one.
pub const ONE: i32 = 65536;

/// The largest whole number that has a raw value.
pub const MAX_WHOLE: i32 = 32767;

/// The smallest whole number that has a raw value.
pub const MIN_WHOLE: i32 = -32768;

/// The raw value of the whole number `n`.
pub open spec fn whole(n: int) -> int {
    n * ONE
}

/// The greatest whole number not above the number with raw value `v`.
pub open spec fn floor_spec(v: int) -> int {
    v / (ONE as int)
}

/// The least whole number not below the number with raw value `v`.
pub open spec fn ceil_spec(v: int) -> int {
    (v + ONE - 1) / (ONE as int)
}

/// The raw value of the ratio `num / den`, rounded down.
pub open spec fn ratio_spec(num: int, den: int) -> int {
    (num * ONE) / den
}

/// The minimum of three integers.
pub open spec fn min3_spec(x: int, y: int, z: int) -> int {
    if x <= y && x <= z {
        x
    } else if y <= z {
        y
    } else {
        z
    }
}

/// The maximum of three integers.
pub open spec fn max3_spec(x: int, y: int, z: int) -> int {
    if x >= y && x >= z {
        x
    } else if y >= z {
        y
    } else {
        z
    }
}

/// Quotient of `n` by a positive `d`, rounded towards negative infinity.
pub fn floor_div(n: i128, d: i128) -> (q: i128)
    requires
        d > 0,
        n > i128::MIN,
    ensures
        q == n / d,
{
    if n >= 0 {
        n / d
    } else {
        let m: i128 = -n;
        let qm: i128 = m / d;
        let rm: i128 = m % d;
        proof {
            lemma_fundamental_div_mod(m as int, d as int);
            lemma_div_pos_is_pos(m as int, d as int);
            if rm == 0 {
                assert(n == (-qm) * d + 0) by (nonlinear_arith)
                    requires
                        -n == d * qm + rm,
                        rm == 0,
                ;
                lemma_fundamental_div_mod_converse(n as int, d as int, -qm as int, 0);
            } else {
                assert(n == (-qm - 1) * d + (d - rm)) by (nonlinear_arith)
                    requires
                        -n == d * qm + rm,
                ;
                lemma_fundamental_div_mod_converse(n as int, d as int, -qm - 1, d - rm);
            }
        }
        if rm == 0 {
            -qm
        } else {
            -qm - 1
        }
    }
}

/// The product of two bounded numbers is bounded by the product of the
/// bounds.
pub proof fn lemma_product_bound(a: int, b: int, bound_a: int, bound_b: int)
    requires
        -bound_a <= a <= bound_a,
        -bound_b <= b <= bound_b,
    ensures
        -(bound_a * bound_b) <= a * b <= bound_a * bound_b,
{
    assert(-(bound_a * bound_b) <= a * b <= bound_a * bound_b) by (nonlinear_arith)
        requires
            -bound_a <= a <= bound_a,
            -bound_b <= b <= bound_b,
    ;
}

/// A quotient lies between two bounds when the dividend lies between the
/// bounds times the positive divisor.
pub proof fn lemma_quotient_between(x: int, d: int, lo: int, hi: int)
    requires
        d > 0,
        lo * d <= x <= hi * d,
    ensures
        lo <= x / d <= hi,
{
    lemma_div_is_ordered(lo * d, x, d);
    lemma_div_is_ordered(x, hi * d, d);
    lemma_fundamental_div_mod_converse(lo * d, d, lo, 0);
    lemma_fundamental_div_mod_converse(hi * d, d, hi, 0);
}

/// The raw value of the whole number `n`, when it has one.
pub fn from_int(n: i32) -> (r: Option<i32>)
    ensures
        r.is_some() <==> MIN_WHOLE <= n <= MAX_WHOLE,
        r matches Some(v) ==> v == whole(n as int),
{
    if n < MIN_WHOLE || n > MAX_WHOLE {
        None
    } else {
        Some(n * ONE)
    }
}

/// The raw value of `num / den` rounded down, when `den` is positive and the
/// result has a raw value.
pub fn from_ratio(num: i32, den: i32) -> (r: Option<i32>)
    ensures
        r.is_some() <==> den > 0 && i32::MIN <= ratio_spec(num as int, den as int) <= i32::MAX,
        r matches Some(v) ==> v == ratio_spec(num as int, den as int),
{
    if den <= 0 {
        return None;
    }
    let scaled: i128 = (num as i128) * 65536;
    let q: i128 = floor_div(scaled, den as i128);
    if q < i32::MIN as i128 || q > i32::MAX as i128 {
        None
    } else {
        Some(q as i32)
    }
}

/// The greatest whole number not above the number with raw value `v`.
pub fn floor(v: i32) -> (r: i32)
    ensures
        r == floor_spec(v as int),
        MIN_WHOLE <= r <= MAX_WHOLE,
{
    let q: i128 = floor_div(v as i128, ONE as i128);
    q as i32
}

/// The least whole number not below the number with raw value `v`.
pub fn ceil(v: i32) -> (r: i32)
    ensures
        r == ceil_spec(v as int),
        MIN_WHOLE <= r <= MAX_WHOLE + 1,
{
    let q: i128 = floor_div((v as i128) + (ONE as i128) - 1, ONE as i128);
    q as i32
}

/// The minimum of three values.
pub fn min3(x: i32, y: i32, z: i32) -> (r: i32)
    ensures
        r == min3_spec(x as int, y as int, z as int),
{
    if x <= y && x <= z {
        x
    } else if y <= z {
        y
    } else {
        z
    }
}

/// The maximum of three values.
pub fn max3(x: i32, y: i32, z: i32) -> (r: i32)
    ensures
        r == max3_spec(x as int, y as int, z as int),
{
    if x >= y && x >= z {
        x
    } else if y >= z {
        y
    } else {
        z
    }
}

/// A fixed-point number with sixteen fractional bits in 64 bits: the raw
/// value `raw` stands for `raw / 65536`. Its arithmetic saturates: a result
/// too large or too small for 64 bits becomes the largest or the smallest
/// number there is. Products and quotients are rounded down.
#[derive(Copy, Clone, Debug, PartialEq, Eq, Structural, Hash)]
pub struct Fixed {
    pub raw: i64,
}

/// The 64-bit value nearest to `v`.
pub open spec fn saturate(v: int) -> i64 {
    if v < i64::MIN {
        i64::MIN
    } else if v > i64::MAX {
        i64::MAX
    } else {
        v as i64
    }
}

/// The quotient of `n` by a `d` other than zero, rounded towards negative
/// infinity.
pub open spec fn floor_quotient(n: int, d: int) -> int {
    if d > 0 {
        n / d
    } else {
        (-n) / (-d)
    }
}

/// Whether `r` is the integer square root of `n`: the greatest number whose
/// square is not above `n`.
pub open spec fn is_sqrt(n: int, r: int) -> bool {
    0 <= r && r * r <= n < (r + 1) * (r + 1)
}

/// The integer square root of `n`, for an `n` that is not negative.
pub closed spec fn isqrt(n: int) -> int {
    choose|r: int| is_sqrt(n, r)
}

/// A number has at most one integer square root.
pub proof fn lemma_sqrt_unique(n: int, r: int, s: int)
    requires
        is_sqrt(n, r),
        is_sqrt(n, s),
    ensures
        r == s,
{
    if r < s {
        assert((r + 1) * (r + 1) <= s * s) by (nonlinear_arith)
            requires
                0 <= r + 1 <= s,
        ;
    } else if s < r {
        assert((s + 1) * (s + 1) <= r * r) by (nonlinear_arith)
            requires
                0 <= s + 1 <= r,
        ;
    }
}

/// Every number that is not negative has an integer square root, which is
/// `isqrt(n)`.
pub proof fn lemma_isqrt_is_root(n: int)
    requires
        n >= 0,
    ensures
        is_sqrt(n, isqrt(n)),
    decreases n,
{
    if n == 0 {
        assert(is_sqrt(0, 0));
        lemma_isqrt(0, 0);
    } else {
        lemma_isqrt_is_root(n - 1);
        let r = isqrt(n - 1);
        if n < (r + 1) * (r + 1) {
            assert(is_sqrt(n, r));
            lemma_isqrt(n, r);
        } else {
            assert((r + 2) * (r + 2) > (r + 1) * (r + 1)) by (nonlinear_arith)
                requires
                    r >= 0,
            ;
            assert(is_sqrt(n, r + 1));
            lemma_isqrt(n, r + 1);
        }
    }
}

/// The number that is the integer square root of `n` is `isqrt(n)`.
pub proof fn lemma_isqrt(n: int, r: int)
    requires
        is_sqrt(n, r),
    ensures
        isqrt(n) == r,
{
    lemma_sqrt_unique(n, r, isqrt(n));
}

fn saturated(v: i128) -> (r: i64)
    ensures
        r == saturate(v as int),
{
    if v < i64::MIN as i128 {
        i64::MIN
    } else if v > i64::MAX as i128 {
        i64::MAX
    } else {
        v as i64
    }
}

/// The integer square root of `n`.
pub fn integer_sqrt(n: u128) -> (r: u64)
    ensures
        is_sqrt(n as int, r as int),
        r == isqrt(n as int),
{
    let mut lo: u128 = 0;
    let mut hi: u128 = 0x1_0000_0000_0000_0000;
    assert(hi * hi > n) by (nonlinear_arith)
        requires
            hi == 0x1_0000_0000_0000_0000,
            n <= 0xffff_ffff_ffff_ffff_ffff_ffff_ffff_ffff,
    ;
    while hi - lo > 1
        invariant
            lo < hi <= 0x1_0000_0000_0000_0000,
            lo * lo <= n < hi * hi,
        decreases hi - lo,
    {
        let mid: u128 = lo + (hi - lo) / 2;
        assert(mid * mid <= 0xffff_ffff_ffff_fffe_0000_0000_0000_0001) by (nonlinear_arith)
            requires
                0 <= mid <= 0xffff_ffff_ffff_ffff,
        ;
        if mid * mid <= n {
            lo = mid;
        } else {
            hi = mid;
        }
    }
    proof {
        lemma_isqrt(n as int, lo as int);
    }
    lo as u64
}

impl Fixed {
    /// The number with the given raw value.
    pub fn from_raw(raw: i64) -> (f: Fixed)
        ensures
            f.raw == raw,
    {
        Fixed { raw }
    }

    /// The whole number `n`.
    pub fn from_int(n: i32) -> (f: Fixed)
        ensures
            f.raw == n * 65536,
    {
        Fixed { raw: (n as i64) * 65536 }
    }

    /// The ratio `num / den`, rounded down to a multiple of 1/65536, for a
    /// `den` other than zero.
    pub fn from_ratio(num: i32, den: i32) -> (f: Fixed)
        requires
            den != 0,
        ensures
            f.raw == floor_quotient(num * 65536, den as int),
    {
        let n: i128 = (num as i128) * 65536;
        let d: i128 = den as i128;
        let q: i128 = if d > 0 {
            floor_div(n, d)
        } else {
            floor_div(-n, -d)
        };
        assert(-0x8000_0000_0000 <= q <= 0x8000_0000_0000) by {
            if d > 0 {
                lemma_quotient_between(n as int, d as int, -0x8000_0000_0000, 0x8000_0000_0000);
            } else {
                lemma_quotient_between(
                    -n as int,
                    -d as int,
                    -0x8000_0000_0000,
                    0x8000_0000_0000,
                );
            }
        }
        Fixed { raw: q as i64 }
    }

    /// The raw value of the square root: the integer square root of the raw
    /// value times 65536, and zero for a negative number.
    pub open spec fn sqrt_spec(self) -> Fixed {
        Fixed {
            raw: if self.raw <= 0 {
                0
            } else {
                isqrt(self.raw * 65536) as i64
            },
        }
    }

    /// The square root, rounded down to a multiple of 1/65536; zero for a
    /// negative number.
    pub fn sqrt(self) -> (r: Fixed)
        ensures
            r == self.sqrt_spec(),
            self.raw > 0 ==> is_sqrt(self.raw * 65536, r.raw as int),
    {
        if self.raw <= 0 {
            return Fixed { raw: 0 };
        }
        let n: u128 = (self.raw as u128) * 65536;
        let root: u64 = integer_sqrt(n);
        assert(root <= 0xffff_ffff_ff) by (nonlinear_arith)
            requires
                root * root <= n,
                n < 0x8000_0000_0000_0000_0000,
                root >= 0,
        ;
        Fixed { raw: root as i64 }
    }

    /// Whether the number is zero.
    pub fn is_zero(&self) -> (r: bool)
        ensures
            r == (self.raw == 0),
    {
        self.raw == 0
    }

    /// Whether the number is greater than zero.
    pub fn is_positive(&self) -> (r: bool)
        ensures
            r == (self.raw > 0),
    {
        self.raw > 0
    }
}

impl AddSpecImpl<Fixed> for Fixed {
    open spec fn obeys_add_spec() -> bool {
        true
    }

    open spec fn add_req(self, rhs: Fixed) -> bool {
        true
    }

    open spec fn add_spec(self, rhs: Fixed) -> Fixed {
        Fixed { raw: saturate(self.raw + rhs.raw) }
    }
}

impl Add<Fixed> for Fixed {
    type Output = Fixed;

    fn add(self, rhs: Fixed) -> (r: Fixed) {
        Fixed { raw: saturated((self.raw as i128) + (rhs.raw as i128)) }
    }
}

impl SubSpecImpl<Fixed> for Fixed {
    open spec fn obeys_sub_spec() -> bool {
        true
    }

    open spec fn sub_req(self, rhs: Fixed) -> bool {
        true
    }

    open spec fn sub_spec(self, rhs: Fixed) -> Fixed {
        Fixed { raw: saturate(self.raw - rhs.raw) }
    }
}

impl Sub<Fixed> for Fixed {
    type Output = Fixed;

    fn sub(self, rhs: Fixed) -> (r: Fixed) {
        Fixed { raw: saturated((self.raw as i128) - (rhs.raw as i128)) }
    }
}

impl NegSpecImpl for Fixed {
    open spec fn obeys_neg_spec() -> bool {
        true
    }

    open spec fn neg_req(self) -> bool {
        true
    }

    open spec fn neg_spec(self) -> Fixed {
        Fixed { raw: saturate(-self.raw) }
    }
}

impl Neg for Fixed {
    type Output = Fixed;

    fn neg(self) -> (r: Fixed) {
        Fixed { raw: saturated(-(self.raw as i128)) }
    }
}

impl MulSpecImpl<Fixed> for Fixed {
    open spec fn obeys_mul_spec() -> bool {
        true
    }

    open spec fn mul_req(self, rhs: Fixed) -> bool {
        true
    }

    open spec fn mul_spec(self, rhs: Fixed) -> Fixed {
        Fixed { raw: saturate((self.raw * rhs.raw) / 65536) }
    }
}

impl Mul<Fixed> for Fixed {
    type Output = Fixed;

    fn mul(self, rhs: Fixed) -> (r: Fixed) {
        let a: i128 = self.raw as i128;
        let b: i128 = rhs.raw as i128;
        assert(-0x4000_0000_0000_0000_0000_0000_0000_0000 <= a * b <= 0x4000_0000_0000_0000_0000_0000_0000_0000)
            by (nonlinear_arith)
            requires
                -0x8000_0000_0000_0000 <= a <= 0x8000_0000_0000_0000,
                -0x8000_0000_0000_0000 <= b <= 0x8000_0000_0000_0000,
        ;
        Fixed { raw: saturated(floor_div(a * b, 65536)) }
    }
}

impl DivSpecImpl<Fixed> for Fixed {
    open spec fn obeys_div_spec() -> bool {
        true
    }

    open spec fn div_req(self, rhs: Fixed) -> bool {
        rhs.raw != 0
    }

    open spec fn div_spec(self, rhs: Fixed) -> Fixed {
        Fixed { raw: saturate(floor_quotient(self.raw * 65536, rhs.raw as int)) }
    }
}

impl Div<Fixed> for Fixed {
    type Output = Fixed;

    fn div(self, rhs: Fixed) -> (r: Fixed) {
        let n: i128 = (self.raw as i128) * 65536;
        let d: i128 = rhs.raw as i128;
        let q: i128 = if d > 0 {
            floor_div(n, d)
        } else {
            floor_div(-n, -d)
        };
        Fixed { raw: saturated(q) }
    }
}

} // verus!
