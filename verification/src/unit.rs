//! Unit vectors in fixed point.
//!
//! A direction is normalised on integers, before anything is rounded: its
//! length is taken as the integer square root of the exact sum of the
//! squares of its components, scaled up so that the root has at least 31
//! bits, and every component of the unit vector is the exact quotient,
//! rounded down once. The length of the result then differs from one by
//! less than 4/65536, whatever the length of the direction.

use vstd::prelude::*;
use vstd::arithmetic::div_mod::{
    lemma_div_is_ordered,
    lemma_fundamental_div_mod,
    lemma_fundamental_div_mod_converse,
    lemma_mod_bound,
};
use crate::fixed::{
    floor_div,
    integer_sqrt,
    is_sqrt,
    isqrt,
    lemma_isqrt_is_root,
    lemma_product_bound,
    lemma_quotient_between,
    Fixed,
};
use crate::vector::vec3d::Vec3d;

verus! {

/// The greatest magnitude of a component of a direction that can be
/// normalised: 2 to the 63.
pub const DIRECTION_LIMIT: i128 = 0x8000_0000_0000_0000;

/// Whether a component of a direction can be normalised.
pub open spec fn normalisable(c: int) -> bool {
    -DIRECTION_LIMIT <= c <= DIRECTION_LIMIT
}

/// Whether every component has a magnitude below 2 to the 31.
pub open spec fn short(x: int, y: int, z: int) -> bool {
    &&& -0x8000_0000 < x < 0x8000_0000
    &&& -0x8000_0000 < y < 0x8000_0000
    &&& -0x8000_0000 < z < 0x8000_0000
}

/// The factor by which a direction is scaled up before its length is
/// taken: 2 to the 32 for a short direction, one for any other.
pub open spec fn unit_scale(x: int, y: int, z: int) -> int {
    if short(x, y, z) {
        0x1_0000_0000
    } else {
        1
    }
}

/// The sum of the squares of three numbers.
pub open spec fn square_sum(x: int, y: int, z: int) -> int {
    x * x + y * y + z * z
}

/// The length of the scaled direction: the integer square root of the
/// exact sum of the squares of its scaled components.
pub open spec fn scaled_length(x: int, y: int, z: int) -> int {
    isqrt(square_sum(x * unit_scale(x, y, z), y * unit_scale(x, y, z), z * unit_scale(x, y, z)))
}

/// The raw value of the component `c` of the unit vector along the
/// direction `(x, y, z)`: the scaled component times 65536 over the length
/// of the scaled direction, rounded down.
pub open spec fn unit_component(c: int, x: int, y: int, z: int) -> int {
    (c * unit_scale(x, y, z) * 65536) / scaled_length(x, y, z)
}

/// The unit vector along the direction `(x, y, z)`; the zero vector for
/// the direction that is zero.
pub open spec fn unit_spec(x: int, y: int, z: int) -> Vec3d<Fixed> {
    if x == 0 && y == 0 && z == 0 {
        Vec3d { x: Fixed { raw: 0 }, y: Fixed { raw: 0 }, z: Fixed { raw: 0 } }
    } else {
        Vec3d {
            x: Fixed { raw: unit_component(x, x, y, z) as i64 },
            y: Fixed { raw: unit_component(y, x, y, z) as i64 },
            z: Fixed { raw: unit_component(z, x, y, z) as i64 },
        }
    }
}

/// Whether the number `u` has the sign of the number `c`, or is zero.
pub open spec fn sign_kept(c: int, u: int) -> bool {
    (c >= 0 ==> u >= 0) && (c <= 0 ==> u <= 0)
}

/// A quotient by a positive number has the sign of the dividend, or is
/// zero.
pub proof fn lemma_quotient_sign(n: int, d: int)
    requires
        d > 0,
    ensures
        sign_kept(n, n / d),
{
    lemma_fundamental_div_mod_converse(0, d, 0, 0);
    if n >= 0 {
        lemma_div_is_ordered(0, n, d);
    }
    if n <= 0 {
        lemma_div_is_ordered(n, 0, d);
    }
}

/// Whether a vector has a length of one to within 4/65536: the sum of the
/// squares of its raw components lies between the squares of 65532 and of
/// 65540.
pub open spec fn near_unit(v: Vec3d<Fixed>) -> bool {
    4294443024 <= square_sum(v.x.raw as int, v.y.raw as int, v.z.raw as int) <= 4295491600
}

/// What rounding a component of a unit vector down leaves behind. For a
/// component `h` of a direction whose squares add up to `n`, with `l` the
/// integer square root of `n`, the rounded quotient `w` of `65536 * h` by
/// `l` has a magnitude of at most 65537, and the square of `65536 * h`
/// differs from that of `w * l` by at most 131075 times the square of `l`.
pub proof fn lemma_rounded_component(h: int, n: int, l: int)
    requires
        l >= 0x8000_0000,
        0 <= h * h <= n,
        n < (l + 1) * (l + 1),
    ensures
        -65537 <= (h * 65536) / l <= 65537,
        -131074 * (l * l) <= (h * 65536) * (h * 65536) - (((h * 65536) / l) * ((h * 65536) / l)) * (l * l) <= 131075
            * (l * l),
{
    let a = h * 65536;
    let w = a / l;
    let r = a % l;
    lemma_fundamental_div_mod(a, l);
    lemma_mod_bound(a, l);
    assert(a == w * l + r) by (nonlinear_arith)
        requires
            a == l * w + r,
    ;
    let top = 65536 * (l + 1);
    assert(a * a == 4294967296 * (h * h)) by (nonlinear_arith)
        requires
            a == h * 65536,
    ;
    assert(top * top == 4294967296 * ((l + 1) * (l + 1))) by (nonlinear_arith)
        requires
            top == 65536 * (l + 1),
    ;
    assert(a * a < top * top);
    assert(-top < a < top) by (nonlinear_arith)
        requires
            a * a < top * top,
            top > 0,
    ;
    // The quotient.
    assert(w * l < 65537 * l);
    assert(w < 65537) by (nonlinear_arith)
        requires
            w * l < 65537 * l,
            l > 0,
    ;
    assert(w * l > -65538 * l);
    assert(w > -65538) by (nonlinear_arith)
        requires
            w * l > -65538 * l,
            l > 0,
    ;
    // The difference of the squares.
    let ll = l * l;
    assert(a * a == (w * w) * ll + 2 * ((w * r) * l) + r * r) by (nonlinear_arith)
        requires
            a == w * l + r,
            ll == l * l,
    ;
    lemma_product_bound(w, r, 65537, l);
    assert(65537 * l >= 0);
    lemma_product_bound(w * r, l, 65537 * l, l);
    assert((65537 * l) * l == 65537 * ll) by (nonlinear_arith)
        requires
            ll == l * l,
    ;
    assert(0 <= r * r < ll) by (nonlinear_arith)
        requires
            0 <= r < l,
            ll == l * l,
    ;
}

/// The unit vector along a direction has a length of one to within
/// 4/65536. Here `(hx, hy, hz)` is the scaled direction and `l` the integer
/// square root of the sum of its squares, of at least 31 bits.
pub proof fn lemma_near_unit(hx: int, hy: int, hz: int, l: int)
    requires
        l >= 0x8000_0000,
        is_sqrt(square_sum(hx, hy, hz), l),
    ensures
        4294443024 <= square_sum((hx * 65536) / l, (hy * 65536) / l, (hz * 65536) / l) <= 4295491600,
{
    let n = square_sum(hx, hy, hz);
    let ll = l * l;
    assert(hx * hx >= 0 && hy * hy >= 0 && hz * hz >= 0) by (nonlinear_arith);
    lemma_rounded_component(hx, n, l);
    lemma_rounded_component(hy, n, l);
    lemma_rounded_component(hz, n, l);
    let wx = (hx * 65536) / l;
    let wy = (hy * 65536) / l;
    let wz = (hz * 65536) / l;
    let ax = hx * 65536;
    let ay = hy * 65536;
    let az = hz * 65536;
    assert(ax * ax == 4294967296 * (hx * hx)) by (nonlinear_arith)
        requires
            ax == hx * 65536,
    ;
    assert(ay * ay == 4294967296 * (hy * hy)) by (nonlinear_arith)
        requires
            ay == hy * 65536,
    ;
    assert(az * az == 4294967296 * (hz * hz)) by (nonlinear_arith)
        requires
            az == hz * 65536,
    ;
    let total = ax * ax + ay * ay + az * az;
    assert(total == 4294967296 * n);
    // The sum of the squares of the scaled components lies between the
    // square of the length and that square plus four times itself over 2
    // to the 32.
    assert((l + 1) * (l + 1) == ll + 2 * l + 1) by (nonlinear_arith)
        requires
            ll == l * l,
    ;
    assert(0x1_0000_0000 * l <= 2 * ll) by (nonlinear_arith)
        requires
            l >= 0x8000_0000,
            ll == l * l,
    ;
    assert(4294967296 * ll <= total <= 4294967296 * ll + 4 * ll);
    let w = wx * wx + wy * wy + wz * wz;
    assert(w * ll == (wx * wx) * ll + (wy * wy) * ll + (wz * wz) * ll) by (nonlinear_arith)
        requires
            w == wx * wx + wy * wy + wz * wz,
    ;
    assert(4294574071 * ll <= w * ll <= 4295360522 * ll);
    assert(4294574071 <= w <= 4295360522) by (nonlinear_arith)
        requires
            4294574071 * ll <= w * ll <= 4295360522 * ll,
            ll > 0,
    ;
}

/// The magnitude of a number.
pub open spec fn size(x: int) -> int {
    if x < 0 {
        -x
    } else {
        x
    }
}

/// The dot product of two vectors of integers.
pub open spec fn dot(ax: int, ay: int, az: int, bx: int, by: int, bz: int) -> int {
    ax * bx + ay * by + az * bz
}

/// Rounding the components of a vector down hardly turns it: where the
/// direction `(hx, hy, hz)` is at right angles to `(wx, wy, wz)`, the dot
/// product of its rounded quotients by `l` with `(wx, wy, wz)` is at most
/// the sum of the magnitudes of `wx`, `wy` and `wz`.
pub proof fn lemma_rounded_across(hx: int, hy: int, hz: int, l: int, wx: int, wy: int, wz: int)
    requires
        l > 0,
        dot(hx, hy, hz, wx, wy, wz) == 0,
    ensures
        -(size(wx) + size(wy) + size(wz)) <= dot((hx * 65536) / l, (hy * 65536) / l, (hz * 65536) / l, wx, wy, wz)
            <= size(wx) + size(wy) + size(wz),
{
    let ux = (hx * 65536) / l;
    let uy = (hy * 65536) / l;
    let uz = (hz * 65536) / l;
    let rx = (hx * 65536) % l;
    let ry = (hy * 65536) % l;
    let rz = (hz * 65536) % l;
    lemma_fundamental_div_mod(hx * 65536, l);
    lemma_fundamental_div_mod(hy * 65536, l);
    lemma_fundamental_div_mod(hz * 65536, l);
    lemma_mod_bound(hx * 65536, l);
    lemma_mod_bound(hy * 65536, l);
    lemma_mod_bound(hz * 65536, l);
    // The remainders times the other vector.
    lemma_product_bound(rx, wx, l, size(wx));
    lemma_product_bound(ry, wy, l, size(wy));
    lemma_product_bound(rz, wz, l, size(wz));
    let across = ux * wx + uy * wy + uz * wz;
    assert((hx * 65536) * wx == l * (ux * wx) + rx * wx) by (nonlinear_arith)
        requires
            hx * 65536 == l * ux + rx,
    ;
    assert((hy * 65536) * wy == l * (uy * wy) + ry * wy) by (nonlinear_arith)
        requires
            hy * 65536 == l * uy + ry,
    ;
    assert((hz * 65536) * wz == l * (uz * wz) + rz * wz) by (nonlinear_arith)
        requires
            hz * 65536 == l * uz + rz,
    ;
    assert((hx * 65536) * wx == 65536 * (hx * wx)) by (nonlinear_arith);
    assert((hy * 65536) * wy == 65536 * (hy * wy)) by (nonlinear_arith);
    assert((hz * 65536) * wz == 65536 * (hz * wz)) by (nonlinear_arith);
    assert(l * across == l * (ux * wx) + l * (uy * wy) + l * (uz * wz)) by (nonlinear_arith)
        requires
            across == ux * wx + uy * wy + uz * wz,
    ;
    let bound = size(wx) + size(wy) + size(wz);
    assert(l * bound == l * size(wx) + l * size(wy) + l * size(wz)) by (nonlinear_arith)
        requires
            bound == size(wx) + size(wy) + size(wz),
    ;
    assert(-(l * bound) <= l * across <= l * bound);
    assert(-bound <= across <= bound) by (nonlinear_arith)
        requires
            -(l * bound) <= l * across <= l * bound,
            l > 0,
    ;
}

/// The unit vector along a direction that is at right angles to a vector
/// is at right angles to it too, to within the sum of the magnitudes of
/// the components of that vector.
pub proof fn lemma_unit_across(x: int, y: int, z: int, wx: int, wy: int, wz: int)
    requires
        !(x == 0 && y == 0 && z == 0),
        dot(x, y, z, wx, wy, wz) == 0,
    ensures
        -(size(wx) + size(wy) + size(wz)) <= dot(
            unit_component(x, x, y, z),
            unit_component(y, x, y, z),
            unit_component(z, x, y, z),
            wx,
            wy,
            wz,
        ) <= size(wx) + size(wy) + size(wz),
{
    let k = unit_scale(x, y, z);
    let n = square_sum(x * k, y * k, z * k);
    assert((x * k) * (x * k) >= 0 && (y * k) * (y * k) >= 0 && (z * k) * (z * k) >= 0) by (nonlinear_arith);
    assert(n >= 1) by {
        if x != 0 {
            assert((x * k) * (x * k) >= 1) by (nonlinear_arith)
                requires
                    x != 0,
                    k >= 1,
            ;
        } else if y != 0 {
            assert((y * k) * (y * k) >= 1) by (nonlinear_arith)
                requires
                    y != 0,
                    k >= 1,
            ;
        } else {
            assert((z * k) * (z * k) >= 1) by (nonlinear_arith)
                requires
                    z != 0,
                    k >= 1,
            ;
        }
    }
    lemma_isqrt_is_root(n);
    let l = scaled_length(x, y, z);
    assert(l > 0) by (nonlinear_arith)
        requires
            (l + 1) * (l + 1) > n,
            n >= 1,
            l >= 0,
    ;
    let px = x * wx;
    let py = y * wy;
    let pz = z * wz;
    assert((x * k) * wx == k * px) by (nonlinear_arith)
        requires
            px == x * wx,
    ;
    assert((y * k) * wy == k * py) by (nonlinear_arith)
        requires
            py == y * wy,
    ;
    assert((z * k) * wz == k * pz) by (nonlinear_arith)
        requires
            pz == z * wz,
    ;
    assert(k * px + k * py + k * pz == 0) by (nonlinear_arith)
        requires
            px + py + pz == 0,
    ;
    lemma_rounded_across(x * k, y * k, z * k, l, wx, wy, wz);
}

fn square(v: i128) -> (s: u128)
    requires
        normalisable(v as int),
    ensures
        s == v * v,
        s <= 0x4000_0000_0000_0000_0000_0000_0000_0000,
{
    assert(0 <= v * v <= 0x4000_0000_0000_0000_0000_0000_0000_0000) by (nonlinear_arith)
        requires
            -0x8000_0000_0000_0000 <= v <= 0x8000_0000_0000_0000,
    ;
    (v * v) as u128
}

fn is_short(x: i128, y: i128, z: i128) -> (r: bool)
    ensures
        r == short(x as int, y as int, z as int),
{
    -0x8000_0000 < x && x < 0x8000_0000 && -0x8000_0000 < y && y < 0x8000_0000 && -0x8000_0000 < z && z
        < 0x8000_0000
}

/// The unit vector along the direction `(x, y, z)`; the zero vector for
/// the direction that is zero.
pub fn unit_vector(x: i128, y: i128, z: i128) -> (u: Vec3d<Fixed>)
    requires
        normalisable(x as int),
        normalisable(y as int),
        normalisable(z as int),
    ensures
        u == unit_spec(x as int, y as int, z as int),
        !(x == 0 && y == 0 && z == 0) ==> near_unit(u),
        !(x == 0 && y == 0 && z == 0) ==> {
            &&& u.x.raw == unit_component(x as int, x as int, y as int, z as int)
            &&& u.y.raw == unit_component(y as int, x as int, y as int, z as int)
            &&& u.z.raw == unit_component(z as int, x as int, y as int, z as int)
        },
        sign_kept(x as int, u.x.raw as int),
        sign_kept(y as int, u.y.raw as int),
        sign_kept(z as int, u.z.raw as int),
{
    if x == 0 && y == 0 && z == 0 {
        return Vec3d { x: Fixed { raw: 0 }, y: Fixed { raw: 0 }, z: Fixed { raw: 0 } };
    }
    let scaled = is_short(x, y, z);
    // A short direction is scaled up by 2 to the 32.
    let hx: i128 = if scaled {
        x * 0x1_0000_0000
    } else {
        x
    };
    let hy: i128 = if scaled {
        y * 0x1_0000_0000
    } else {
        y
    };
    let hz: i128 = if scaled {
        z * 0x1_0000_0000
    } else {
        z
    };
    assert(hx == x * unit_scale(x as int, y as int, z as int));
    assert(hy == y * unit_scale(x as int, y as int, z as int));
    assert(hz == z * unit_scale(x as int, y as int, z as int));
    let n: u128 = square(hx) + square(hy) + square(hz);
    let l: i128 = integer_sqrt(n) as i128;
    proof {
        // One scaled component has a magnitude of at least 2 to the 31, so
        // the length has at least 31 bits.
        assert(hx * hx >= 0 && hy * hy >= 0 && hz * hz >= 0) by (nonlinear_arith);
        assert(n >= 0x4000_0000_0000_0000) by {
            if hx >= 0x8000_0000 || hx <= -0x8000_0000 {
                assert(hx * hx >= 0x4000_0000_0000_0000) by (nonlinear_arith)
                    requires
                        hx >= 0x8000_0000 || hx <= -0x8000_0000,
                ;
            } else if hy >= 0x8000_0000 || hy <= -0x8000_0000 {
                assert(hy * hy >= 0x4000_0000_0000_0000) by (nonlinear_arith)
                    requires
                        hy >= 0x8000_0000 || hy <= -0x8000_0000,
                ;
            } else {
                assert(hz >= 0x8000_0000 || hz <= -0x8000_0000);
                assert(hz * hz >= 0x4000_0000_0000_0000) by (nonlinear_arith)
                    requires
                        hz >= 0x8000_0000 || hz <= -0x8000_0000,
                ;
            }
        }
        assert(l >= 0x8000_0000) by (nonlinear_arith)
            requires
                (l + 1) * (l + 1) > n,
                n >= 0x4000_0000_0000_0000,
                l >= 0,
        ;
        lemma_near_unit(hx as int, hy as int, hz as int, l as int);
        lemma_rounded_component(hx as int, n as int, l as int);
        lemma_rounded_component(hy as int, n as int, l as int);
        lemma_rounded_component(hz as int, n as int, l as int);
        lemma_quotient_sign(hx * 65536, l as int);
        lemma_quotient_sign(hy * 65536, l as int);
        lemma_quotient_sign(hz * 65536, l as int);
    }
    let ux: i128 = floor_div(hx * 65536, l);
    let uy: i128 = floor_div(hy * 65536, l);
    let uz: i128 = floor_div(hz * 65536, l);
    Vec3d { x: Fixed { raw: ux as i64 }, y: Fixed { raw: uy as i64 }, z: Fixed { raw: uz as i64 } }
}

} // verus!
