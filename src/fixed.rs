//! Fixed-point scalars and vectors.
//!
//! A scalar is an `i64` counting millionths of a world unit. Products are
//! rescaled with division truncated toward zero, and every result that would
//! leave the `i64` range saturates at its bound.

use vstd::prelude::*;

verus! {

/// Fixed-point units in one world unit.
pub const SCALE: i64 = 1_000_000;

/// Division truncated toward zero, as integer division does on machine integers.
pub open spec fn tdiv(a: int, d: int) -> int {
    if a >= 0 {
        a / d
    } else {
        -((-a) / d)
    }
}

/// The nearest value of `i64` to `x`.
pub open spec fn saturate(x: int) -> i64 {
    if x > i64::MAX {
        i64::MAX
    } else if x < i64::MIN {
        i64::MIN
    } else {
        x as i64
    }
}

/// The unsaturated fixed-point product of two scalars.
pub open spec fn fmul(a: int, b: int) -> int {
    tdiv(a * b, SCALE as int)
}

/// A point or direction in space, with a homogeneous fourth coordinate.
#[derive(Clone, Copy, Debug, PartialEq, Eq, Structural)]
pub struct Vec4 {
    pub x: i64,
    pub y: i64,
    pub z: i64,
    pub w: i64,
}

/// A three-component vector: a corner of a bounding box, or a colour.
#[derive(Clone, Copy, Debug, PartialEq, Eq, Structural)]
pub struct Vec3 {
    pub x: i64,
    pub y: i64,
    pub z: i64,
}

/// Builds a three-component vector.
pub fn vec3(x: i64, y: i64, z: i64) -> (r: Vec3)
    ensures
        r == (Vec3 { x, y, z }),
{
    Vec3 { x, y, z }
}

/// Builds a four-component vector.
pub fn vec4(x: i64, y: i64, z: i64, w: i64) -> (r: Vec4)
    ensures
        r == (Vec4 { x, y, z, w }),
{
    Vec4 { x, y, z, w }
}

/// The fixed-point product, widened so that four of them add up without overflow.
pub fn mul_wide(a: i64, b: i64) -> (r: i128)
    ensures
        r == fmul(a as int, b as int),
        -0x0800_0000_0000_0000_0000_0000_0000_0000 <= r <= 0x0800_0000_0000_0000_0000_0000_0000_0000,
{
    proof {
        let ai = a as int;
        let bi = b as int;
        assert(-0x8000_0000_0000_0000 <= ai <= 0x7fff_ffff_ffff_ffff);
        assert(-0x8000_0000_0000_0000 <= bi <= 0x7fff_ffff_ffff_ffff);
        assert(ai * bi <= 0x4000_0000_0000_0000_0000_0000_0000_0000) by (nonlinear_arith)
            requires
                -0x8000_0000_0000_0000 <= ai <= 0x7fff_ffff_ffff_ffff,
                -0x8000_0000_0000_0000 <= bi <= 0x7fff_ffff_ffff_ffff,
        ;
        assert(ai * bi >= -0x4000_0000_0000_0000_0000_0000_0000_0000) by (nonlinear_arith)
            requires
                -0x8000_0000_0000_0000 <= ai <= 0x7fff_ffff_ffff_ffff,
                -0x8000_0000_0000_0000 <= bi <= 0x7fff_ffff_ffff_ffff,
        ;
    }
    let p: i128 = (a as i128) * (b as i128);
    if p >= 0 {
        let q = p / 1_000_000i128;
        proof {
            assert(q <= p / 8) by {
                vstd::arithmetic::div_mod::lemma_div_is_ordered_by_denominator(p as int, 8, 1_000_000);
            }
        }
        q
    } else {
        let n: i128 = -p;
        let q = n / 1_000_000i128;
        proof {
            assert(q <= n / 8) by {
                vstd::arithmetic::div_mod::lemma_div_is_ordered_by_denominator(n as int, 8, 1_000_000);
            }
        }
        -q
    }
}

/// Saturates a wide intermediate to `i64`.
pub fn clamp_wide(x: i128) -> (r: i64)
    ensures
        r == saturate(x as int),
{
    if x > i64::MAX as i128 {
        i64::MAX
    } else if x < i64::MIN as i128 {
        i64::MIN
    } else {
        x as i64
    }
}

/// The saturating sum of two scalars.
pub fn sat_add(a: i64, b: i64) -> (r: i64)
    ensures
        r == saturate(a + b),
{
    clamp_wide(a as i128 + b as i128)
}

/// The saturating fixed-point product of two scalars.
pub fn fixed_mul(a: i64, b: i64) -> (r: i64)
    ensures
        r == saturate(fmul(a as int, b as int)),
{
    clamp_wide(mul_wide(a, b))
}

/// The saturating fixed-point dot product of two four-component rows.
pub fn dot4(a0: i64, a1: i64, a2: i64, a3: i64, b0: i64, b1: i64, b2: i64, b3: i64) -> (r: i64)
    ensures
        r == saturate(
            fmul(a0 as int, b0 as int) + fmul(a1 as int, b1 as int) + fmul(a2 as int, b2 as int)
                + fmul(a3 as int, b3 as int),
        ),
{
    let s: i128 = mul_wide(a0, b0) + mul_wide(a1, b1) + mul_wide(a2, b2) + mul_wide(a3, b3);
    clamp_wide(s)
}

/// Division truncated toward zero for a divisor of either sign.
pub open spec fn quot(a: int, d: int) -> int {
    if d > 0 {
        tdiv(a, d)
    } else {
        -tdiv(a, -d)
    }
}

/// The saturating difference of two scalars.
pub fn sat_sub(a: i64, b: i64) -> (r: i64)
    ensures
        r == saturate(a - b),
{
    clamp_wide(a as i128 - b as i128)
}

/// The saturating negation of a scalar.
pub fn sat_neg(a: i64) -> (r: i64)
    ensures
        r == saturate(-a),
{
    clamp_wide(-(a as i128))
}

/// `a / d` truncated toward zero, for operands well inside the wide range.
pub fn quot_wide(a: i128, d: i128) -> (r: i128)
    requires
        d != 0,
        -0x1_0000_0000_0000_0000_0000_0000 <= a <= 0x1_0000_0000_0000_0000_0000_0000,
        -0x1_0000_0000_0000_0000_0000_0000 <= d <= 0x1_0000_0000_0000_0000_0000_0000,
    ensures
        r == quot(a as int, d as int),
        -0x1_0000_0000_0000_0000_0000_0000 <= r <= 0x1_0000_0000_0000_0000_0000_0000,
{
    let m: i128 = if d > 0 { d } else { -d };
    let q: i128 = if a >= 0 {
        proof {
            vstd::arithmetic::div_mod::lemma_div_is_ordered_by_denominator(a as int, 1, m as int);
        }
        a / m
    } else {
        proof {
            vstd::arithmetic::div_mod::lemma_div_is_ordered_by_denominator(-a as int, 1, m as int);
        }
        -((-a) / m)
    };
    if d > 0 {
        q
    } else {
        -q
    }
}

/// Multiplying by one unit leaves a scalar unchanged, and multiplying by zero gives zero.
pub proof fn lemma_fmul_unit(m: int)
    ensures
        fmul(SCALE as int, m) == m,
        fmul(m, SCALE as int) == m,
        fmul(0, m) == 0,
        fmul(m, 0) == 0,
{
    let s = SCALE as int;
    if m >= 0 {
        vstd::arithmetic::div_mod::lemma_div_by_multiple(m, s);
    } else {
        vstd::arithmetic::div_mod::lemma_div_by_multiple(-m, s);
    }
    assert(s * m == m * s) by (nonlinear_arith);
    assert(-(m * s) == (-m) * s) by (nonlinear_arith);
}

/// Componentwise saturating sum.
pub open spec fn vec_add(a: Vec4, b: Vec4) -> Vec4 {
    Vec4 {
        x: saturate(a.x + b.x),
        y: saturate(a.y + b.y),
        z: saturate(a.z + b.z),
        w: saturate(a.w + b.w),
    }
}

/// Componentwise saturating difference.
pub open spec fn vec_sub(a: Vec4, b: Vec4) -> Vec4 {
    Vec4 {
        x: saturate(a.x - b.x),
        y: saturate(a.y - b.y),
        z: saturate(a.z - b.z),
        w: saturate(a.w - b.w),
    }
}

/// Componentwise saturating negation.
pub open spec fn vec_neg(a: Vec4) -> Vec4 {
    Vec4 { x: saturate(-a.x), y: saturate(-a.y), z: saturate(-a.z), w: saturate(-a.w) }
}

/// Componentwise saturating sum.
pub fn add_vec(a: &Vec4, b: &Vec4) -> (r: Vec4)
    ensures
        r == vec_add(*a, *b),
{
    Vec4 { x: sat_add(a.x, b.x), y: sat_add(a.y, b.y), z: sat_add(a.z, b.z), w: sat_add(a.w, b.w) }
}

/// Componentwise saturating difference.
pub fn sub_vec(a: &Vec4, b: &Vec4) -> (r: Vec4)
    ensures
        r == vec_sub(*a, *b),
{
    Vec4 { x: sat_sub(a.x, b.x), y: sat_sub(a.y, b.y), z: sat_sub(a.z, b.z), w: sat_sub(a.w, b.w) }
}

/// Componentwise saturating negation.
pub fn neg_vec(a: &Vec4) -> (r: Vec4)
    ensures
        r == vec_neg(*a),
{
    Vec4 { x: sat_neg(a.x), y: sat_neg(a.y), z: sat_neg(a.z), w: sat_neg(a.w) }
}

} // verus!
