//! Persistent 4x4 homogeneous transforms.
//!
//! A `GLMatrix` is stored by columns, the fourth column holding the
//! translation. Every operation returns a new matrix `op * self`: an operation
//! applied later acts after (outside of) the ones applied before it.
//!
//! Angles stay outside the integer model: a rotation is given by the fixed-point
//! cosine and sine of its angle, as is a perspective's field of view by the
//! tangent of its half.

use vstd::prelude::*;
use crate::fixed::{
    SCALE, Vec4, clamp_wide, dot4, fixed_mul, fmul, lemma_fmul_unit, mul_wide, neg_vec, quot,
    quot_wide, sat_add, sat_neg, sat_sub, saturate, sub_vec, tdiv, vec_neg, vec_sub,
};

verus! {

/// A 4x4 matrix of fixed-point entries, by columns.
#[derive(Clone, Copy, Debug, PartialEq, Eq, Structural)]
pub struct GLMatrix {
    pub c0: Vec4,
    pub c1: Vec4,
    pub c2: Vec4,
    pub c3: Vec4,
}

/// The saturating product of a matrix and a column vector.
pub open spec fn mat_vec(m: GLMatrix, v: Vec4) -> Vec4 {
    Vec4 {
        x: saturate(fmul(m.c0.x as int, v.x as int) + fmul(m.c1.x as int, v.y as int)
            + fmul(m.c2.x as int, v.z as int) + fmul(m.c3.x as int, v.w as int)),
        y: saturate(fmul(m.c0.y as int, v.x as int) + fmul(m.c1.y as int, v.y as int)
            + fmul(m.c2.y as int, v.z as int) + fmul(m.c3.y as int, v.w as int)),
        z: saturate(fmul(m.c0.z as int, v.x as int) + fmul(m.c1.z as int, v.y as int)
            + fmul(m.c2.z as int, v.z as int) + fmul(m.c3.z as int, v.w as int)),
        w: saturate(fmul(m.c0.w as int, v.x as int) + fmul(m.c1.w as int, v.y as int)
            + fmul(m.c2.w as int, v.z as int) + fmul(m.c3.w as int, v.w as int)),
    }
}

/// The matrix product `a * b`: column `j` of the result is `a` times column `j` of `b`.
pub open spec fn mat_product(a: GLMatrix, b: GLMatrix) -> GLMatrix {
    GLMatrix {
        c0: mat_vec(a, b.c0),
        c1: mat_vec(a, b.c1),
        c2: mat_vec(a, b.c2),
        c3: mat_vec(a, b.c3),
    }
}

/// The matrix whose rows are the given sixteen entries, four by four.
pub open spec fn from_rows(p: Seq<i64>) -> GLMatrix {
    GLMatrix {
        c0: Vec4 { x: p[0], y: p[4], z: p[8], w: p[12] },
        c1: Vec4 { x: p[1], y: p[5], z: p[9], w: p[13] },
        c2: Vec4 { x: p[2], y: p[6], z: p[10], w: p[14] },
        c3: Vec4 { x: p[3], y: p[7], z: p[11], w: p[15] },
    }
}

/// The neutral transform.
pub open spec fn identity_spec() -> GLMatrix {
    translating_spec(0, 0, 0)
}

/// Translation by `(x, y, z)`.
pub open spec fn translating_spec(x: i64, y: i64, z: i64) -> GLMatrix {
    GLMatrix {
        c0: Vec4 { x: SCALE, y: 0, z: 0, w: 0 },
        c1: Vec4 { x: 0, y: SCALE, z: 0, w: 0 },
        c2: Vec4 { x: 0, y: 0, z: SCALE, w: 0 },
        c3: Vec4 { x, y, z, w: SCALE },
    }
}

/// Scaling by `(x, y, z)` along the axes.
pub open spec fn scaling_spec(x: i64, y: i64, z: i64) -> GLMatrix {
    GLMatrix {
        c0: Vec4 { x, y: 0, z: 0, w: 0 },
        c1: Vec4 { x: 0, y, z: 0, w: 0 },
        c2: Vec4 { x: 0, y: 0, z, w: 0 },
        c3: Vec4 { x: 0, y: 0, z: 0, w: SCALE },
    }
}

/// Rotation about the x axis, given the cosine `c` and sine `s` of the angle.
pub open spec fn rotation_x_spec(c: i64, s: i64) -> GLMatrix {
    GLMatrix {
        c0: Vec4 { x: SCALE, y: 0, z: 0, w: 0 },
        c1: Vec4 { x: 0, y: c, z: s, w: 0 },
        c2: Vec4 { x: 0, y: (-s) as i64, z: c, w: 0 },
        c3: Vec4 { x: 0, y: 0, z: 0, w: SCALE },
    }
}

/// Rotation about the y axis, given the cosine `c` and sine `s` of the angle.
pub open spec fn rotation_y_spec(c: i64, s: i64) -> GLMatrix {
    GLMatrix {
        c0: Vec4 { x: c, y: 0, z: (-s) as i64, w: 0 },
        c1: Vec4 { x: 0, y: SCALE, z: 0, w: 0 },
        c2: Vec4 { x: s, y: 0, z: c, w: 0 },
        c3: Vec4 { x: 0, y: 0, z: 0, w: SCALE },
    }
}

/// Rotation about the z axis, given the cosine `c` and sine `s` of the angle.
pub open spec fn rotation_z_spec(c: i64, s: i64) -> GLMatrix {
    GLMatrix {
        c0: Vec4 { x: c, y: s, z: 0, w: 0 },
        c1: Vec4 { x: (-s) as i64, y: c, z: 0, w: 0 },
        c2: Vec4 { x: 0, y: 0, z: SCALE, w: 0 },
        c3: Vec4 { x: 0, y: 0, z: 0, w: SCALE },
    }
}

/// Builds the matrix whose rows are `points`, four entries at a time.
pub fn points_to_mat4(points: &[i64; 16]) -> (r: GLMatrix)
    ensures
        r == from_rows(points@),
{
    GLMatrix {
        c0: Vec4 { x: points[0], y: points[4], z: points[8], w: points[12] },
        c1: Vec4 { x: points[1], y: points[5], z: points[9], w: points[13] },
        c2: Vec4 { x: points[2], y: points[6], z: points[10], w: points[14] },
        c3: Vec4 { x: points[3], y: points[7], z: points[11], w: points[15] },
    }
}

/// The neutral transform.
pub fn identity_matrix() -> (r: GLMatrix)
    ensures
        r == identity_spec(),
{
    translating_matrix(0, 0, 0)
}

/// Translation by `(x, y, z)`.
pub fn translating_matrix(x: i64, y: i64, z: i64) -> (r: GLMatrix)
    ensures
        r == translating_spec(x, y, z),
{
    GLMatrix {
        c0: Vec4 { x: SCALE, y: 0, z: 0, w: 0 },
        c1: Vec4 { x: 0, y: SCALE, z: 0, w: 0 },
        c2: Vec4 { x: 0, y: 0, z: SCALE, w: 0 },
        c3: Vec4 { x, y, z, w: SCALE },
    }
}

/// Scaling by `(x, y, z)` along the axes.
pub fn scaling_matrix(x: i64, y: i64, z: i64) -> (r: GLMatrix)
    ensures
        r == scaling_spec(x, y, z),
{
    GLMatrix {
        c0: Vec4 { x, y: 0, z: 0, w: 0 },
        c1: Vec4 { x: 0, y, z: 0, w: 0 },
        c2: Vec4 { x: 0, y: 0, z, w: 0 },
        c3: Vec4 { x: 0, y: 0, z: 0, w: SCALE },
    }
}

/// Rotation about the x axis, given the cosine `c` and sine `s` of the angle.
pub fn rotation_matrix_x(c: i64, s: i64) -> (r: GLMatrix)
    requires
        s != i64::MIN,
    ensures
        r == rotation_x_spec(c, s),
{
    GLMatrix {
        c0: Vec4 { x: SCALE, y: 0, z: 0, w: 0 },
        c1: Vec4 { x: 0, y: c, z: s, w: 0 },
        c2: Vec4 { x: 0, y: -s, z: c, w: 0 },
        c3: Vec4 { x: 0, y: 0, z: 0, w: SCALE },
    }
}

/// Rotation about the y axis, given the cosine `c` and sine `s` of the angle.
pub fn rotation_matrix_y(c: i64, s: i64) -> (r: GLMatrix)
    requires
        s != i64::MIN,
    ensures
        r == rotation_y_spec(c, s),
{
    GLMatrix {
        c0: Vec4 { x: c, y: 0, z: -s, w: 0 },
        c1: Vec4 { x: 0, y: SCALE, z: 0, w: 0 },
        c2: Vec4 { x: s, y: 0, z: c, w: 0 },
        c3: Vec4 { x: 0, y: 0, z: 0, w: SCALE },
    }
}

/// Rotation about the z axis, given the cosine `c` and sine `s` of the angle.
pub fn rotation_matrix_z(c: i64, s: i64) -> (r: GLMatrix)
    requires
        s != i64::MIN,
    ensures
        r == rotation_z_spec(c, s),
{
    GLMatrix {
        c0: Vec4 { x: c, y: s, z: 0, w: 0 },
        c1: Vec4 { x: -s, y: c, z: 0, w: 0 },
        c2: Vec4 { x: 0, y: 0, z: SCALE, w: 0 },
        c3: Vec4 { x: 0, y: 0, z: 0, w: SCALE },
    }
}

impl GLMatrix {
    /// Builds the matrix whose rows are `points`, four entries at a time.
    pub fn new(points: [i64; 16]) -> (r: GLMatrix)
        ensures
            r == from_rows(points@),
    {
        points_to_mat4(&points)
    }

    /// This matrix applied to the column vector `v`.
    pub fn mul_vec(&self, v: &Vec4) -> (r: Vec4)
        ensures
            r == mat_vec(*self, *v),
    {
        Vec4 {
            x: dot4(self.c0.x, self.c1.x, self.c2.x, self.c3.x, v.x, v.y, v.z, v.w),
            y: dot4(self.c0.y, self.c1.y, self.c2.y, self.c3.y, v.x, v.y, v.z, v.w),
            z: dot4(self.c0.z, self.c1.z, self.c2.z, self.c3.z, v.x, v.y, v.z, v.w),
            w: dot4(self.c0.w, self.c1.w, self.c2.w, self.c3.w, v.x, v.y, v.z, v.w),
        }
    }

    /// The product `self * other`.
    pub fn mul_mat(&self, other: &GLMatrix) -> (r: GLMatrix)
        ensures
            r == mat_product(*self, *other),
    {
        GLMatrix {
            c0: self.mul_vec(&other.c0),
            c1: self.mul_vec(&other.c1),
            c2: self.mul_vec(&other.c2),
            c3: self.mul_vec(&other.c3),
        }
    }

    /// This transform followed by a translation by `(x, y, z)`.
    pub fn translate(&self, x: i64, y: i64, z: i64) -> (r: GLMatrix)
        ensures
            r == mat_product(translating_spec(x, y, z), *self),
    {
        translating_matrix(x, y, z).mul_mat(self)
    }

    /// This transform followed by a rotation about the x axis (cosine `c`, sine `s`).
    pub fn rotate_x(&self, c: i64, s: i64) -> (r: GLMatrix)
        requires
            s != i64::MIN,
        ensures
            r == mat_product(rotation_x_spec(c, s), *self),
    {
        rotation_matrix_x(c, s).mul_mat(self)
    }

    /// This transform followed by a rotation about the y axis (cosine `c`, sine `s`).
    pub fn rotate_y(&self, c: i64, s: i64) -> (r: GLMatrix)
        requires
            s != i64::MIN,
        ensures
            r == mat_product(rotation_y_spec(c, s), *self),
    {
        rotation_matrix_y(c, s).mul_mat(self)
    }

    /// This transform followed by a rotation about the z axis (cosine `c`, sine `s`).
    pub fn rotate_z(&self, c: i64, s: i64) -> (r: GLMatrix)
        requires
            s != i64::MIN,
        ensures
            r == mat_product(rotation_z_spec(c, s), *self),
    {
        rotation_matrix_z(c, s).mul_mat(self)
    }

    /// This transform followed by a rotation about `axis` (cosine `c`, sine `s`).
    pub fn rotate(&self, c: i64, s: i64, axis: &Vec4) -> (r: GLMatrix)
        requires
            norm_spec(*axis) != 0,
        ensures
            r == mat_product(rotation_spec(c, s, *axis), *self),
    {
        rotation_matrix(c, s, axis).mul_mat(self)
    }

    /// This transform followed by a scaling by `(x, y, z)`.
    pub fn scale(&self, x: i64, y: i64, z: i64) -> (r: GLMatrix)
        ensures
            r == mat_product(scaling_spec(x, y, z), *self),
    {
        scaling_matrix(x, y, z).mul_mat(self)
    }

    /// Replaces this matrix by `matrix`.
    pub fn update(&mut self, matrix: &GLMatrix)
        ensures
            *final(self) == *matrix,
    {
        *self = *matrix;
    }
}

/// Whether `r` is the integer square root of `n`.
pub open spec fn is_root(n: int, r: int) -> bool {
    0 <= r && r * r <= n < (r + 1) * (r + 1)
}

/// The integer square root of a natural number.
pub open spec fn int_sqrt(n: int) -> int {
    choose|r: int| is_root(n, r)
}

/// The squared length of the spatial part of `v`, in squared fixed-point units.
pub open spec fn sq_len(v: Vec4) -> int {
    v.x * v.x + v.y * v.y + v.z * v.z
}

/// The length of the spatial part of `v`, rounded down, in fixed-point units.
pub open spec fn norm_spec(v: Vec4) -> i64 {
    saturate(int_sqrt(sq_len(v)))
}

/// `v` divided by its length, every component included; `v` itself when its length
/// is zero.
pub open spec fn normalized(v: Vec4) -> Vec4 {
    let n = norm_spec(v) as int;
    if n == 0 {
        v
    } else {
        Vec4 {
            x: saturate(tdiv(v.x * SCALE, n)),
            y: saturate(tdiv(v.y * SCALE, n)),
            z: saturate(tdiv(v.z * SCALE, n)),
            w: saturate(tdiv(v.w * SCALE, n)),
        }
    }
}

/// The saturating fixed-point product.
pub open spec fn fm(a: i64, b: i64) -> i64 {
    saturate(fmul(a as int, b as int))
}

/// The cross product of the spatial parts, as a direction.
pub open spec fn cross_spec(u: Vec4, v: Vec4) -> Vec4 {
    Vec4 {
        x: saturate(fmul(u.y as int, v.z as int) - fmul(u.z as int, v.y as int)),
        y: saturate(fmul(u.z as int, v.x as int) - fmul(u.x as int, v.z as int)),
        z: saturate(fmul(u.x as int, v.y as int) - fmul(u.y as int, v.x as int)),
        w: 0,
    }
}

/// The dot product of all four components.
pub open spec fn dot_spec(u: Vec4, v: Vec4) -> i64 {
    saturate(fmul(u.x as int, v.x as int) + fmul(u.y as int, v.y as int) + fmul(u.z as int, v.z as int)
        + fmul(u.w as int, v.w as int))
}

/// Rotation by the angle with cosine `c` and sine `s` about the direction `a`,
/// which is first scaled to unit length.
pub open spec fn rotation_spec(c: i64, s: i64, a: Vec4) -> GLMatrix {
    let v = normalized(a);
    let mc = saturate(SCALE - c);
    let vx = v.x;
    let vy = v.y;
    let vz = v.z;
    from_rows(seq![
        saturate(fm(fm(vx, vx), mc) + c), saturate(fm(fm(vx, vy), mc) - fm(vz, s)),
        saturate(fm(fm(vx, vz), mc) + fm(vy, s)), 0,
        saturate(fm(fm(vx, vy), mc) + fm(vz, s)), saturate(fm(fm(vy, vy), mc) + c),
        saturate(fm(fm(vz, vy), mc) - fm(vx, s)), 0,
        saturate(fm(fm(vx, vz), mc) - fm(vy, s)), saturate(fm(fm(vy, vz), mc) + fm(vx, s)),
        saturate(fm(fm(vz, vz), mc) + c), 0,
        0, 0, 0, SCALE,
    ])
}

/// The orthographic projection of the box `[l, r] x [b, t] x [n, f]` onto the unit cube.
pub open spec fn ortographic_spec(l: i64, r: i64, b: i64, t: i64, n: i64, f: i64) -> GLMatrix {
    let s2 = 2 * SCALE * SCALE;
    from_rows(seq![
        saturate(quot(s2, r - l)), 0, 0, saturate(quot(-(r + l) * SCALE, r - l)),
        0, saturate(quot(s2, t - b)), 0, saturate(quot(-(t + b) * SCALE, t - b)),
        0, 0, saturate(quot(s2, f - n)), saturate(quot(-(f + n) * SCALE, f - n)),
        0, 0, 0, SCALE,
    ])
}

/// The matrix with every entry negated.
pub open spec fn mat_neg(m: GLMatrix) -> GLMatrix {
    GLMatrix { c0: vec_neg(m.c0), c1: vec_neg(m.c1), c2: vec_neg(m.c2), c3: vec_neg(m.c3) }
}

/// The half-height of the near plane of a perspective view.
pub open spec fn near_top(tan_half_fov: i64, n: i64) -> i64 {
    fm(if n < 0 { (-n) as i64 } else { n }, tan_half_fov)
}

/// The perspective projection with near plane `n`, far plane `f`, the tangent of
/// half the vertical field of view and the aspect ratio.
pub open spec fn perpective_spec(tan_half_fov: i64, aspect: i64, n: i64, f: i64) -> GLMatrix {
    let t = near_top(tan_half_fov, n);
    let r = fm(t, aspect);
    let p = from_rows(seq![
        n, 0, 0, 0,
        0, n, 0, 0,
        0, 0, saturate(n + f), saturate(-fm(f, n)),
        0, 0, SCALE, 0,
    ]);
    mat_product(mat_neg(ortographic_spec(saturate(-r), r, saturate(-t), t, n, f)), p)
}

/// The change of basis into the frame of a camera at `c` looking along `view` with
/// `up` as the approximate up direction.
pub open spec fn camera_view_spec(c: Vec4, view: Vec4, up: Vec4) -> GLMatrix {
    let w0 = vec_neg(view);
    let u = normalized(cross_spec(up, w0));
    let w = normalized(w0);
    let v = cross_spec(w, u);
    let d = vec_sub(c, Vec4 { x: 0, y: 0, z: 0, w: SCALE });
    from_rows(seq![
        u.x, u.y, u.z, dot_spec(vec_neg(u), d),
        v.x, v.y, v.z, dot_spec(vec_neg(v), d),
        w.x, w.y, w.z, dot_spec(vec_neg(w), d),
        0, 0, 0, SCALE,
    ])
}

/// The integer square root of `n`.
fn isqrt(n: u128) -> (r: u64)
    ensures
        is_root(n as int, r as int),
{
    let mut lo: u128 = 0;
    let mut hi: u128 = 0x1_0000_0000_0000_0000;
    proof {
        assert(n < 0x1_0000_0000_0000_0000 * 0x1_0000_0000_0000_0000) by (nonlinear_arith)
            requires n <= u128::MAX;
    }
    while hi - lo > 1
        invariant
            lo < hi <= 0x1_0000_0000_0000_0000,
            lo * lo <= n,
            n < hi * hi,
        decreases hi - lo,
    {
        let mid = lo + (hi - lo) / 2;
        proof {
            assert(mid * mid <= 0xffff_ffff_ffff_ffff * 0xffff_ffff_ffff_ffff) by (nonlinear_arith)
                requires mid <= 0xffff_ffff_ffff_ffff;
        }
        if mid * mid <= n {
            lo = mid;
        } else {
            hi = mid;
        }
    }
    lo as u64
}

/// The integer square root is unique.
proof fn lemma_root_unique(n: int, a: int, b: int)
    requires
        is_root(n, a),
        is_root(n, b),
    ensures
        a == b,
{
    if a < b {
        assert((a + 1) * (a + 1) <= b * b) by (nonlinear_arith)
            requires 0 <= a, a + 1 <= b;
    }
    if b < a {
        assert((b + 1) * (b + 1) <= a * a) by (nonlinear_arith)
            requires 0 <= b, b + 1 <= a;
    }
}

/// The length of the spatial part of `v`, rounded down, in fixed-point units.
pub fn norm(v: &Vec4) -> (r: i64)
    ensures
        r == norm_spec(*v),
        r >= 0,
{
    let x = v.x as i128;
    let y = v.y as i128;
    let z = v.z as i128;
    proof {
        assert(0 <= x * x <= 0x4000_0000_0000_0000_0000_0000_0000_0000) by (nonlinear_arith)
            requires -0x8000_0000_0000_0000 <= x <= 0x7fff_ffff_ffff_ffff;
        assert(0 <= y * y <= 0x4000_0000_0000_0000_0000_0000_0000_0000) by (nonlinear_arith)
            requires -0x8000_0000_0000_0000 <= y <= 0x7fff_ffff_ffff_ffff;
        assert(0 <= z * z <= 0x4000_0000_0000_0000_0000_0000_0000_0000) by (nonlinear_arith)
            requires -0x8000_0000_0000_0000 <= z <= 0x7fff_ffff_ffff_ffff;
    }
    let s: u128 = (x * x) as u128 + (y * y) as u128 + (z * z) as u128;
    let root = isqrt(s);
    proof {
        assert(is_root(sq_len(*v), int_sqrt(sq_len(*v))));
        lemma_root_unique(sq_len(*v), root as int, int_sqrt(sq_len(*v)));
    }
    if root > 0x7fff_ffff_ffff_ffff {
        i64::MAX
    } else {
        root as i64
    }
}

/// The fixed-point quotient `a / n`, for a positive divisor.
fn div_by_len(a: i64, n: i64) -> (r: i64)
    requires
        n > 0,
    ensures
        r == saturate(tdiv(a * SCALE, n as int)),
{
    let p: i128 = a as i128 * 1_000_000i128;
    let q = quot_wide(p, n as i128);
    clamp_wide(q)
}

/// `v` divided by its length, every component included; `v` itself when its length
/// is zero.
pub fn normalize_vector(v: &Vec4) -> (r: Vec4)
    ensures
        r == normalized(*v),
{
    let n = norm(v);
    if n == 0 {
        *v
    } else {
        Vec4 {
            x: div_by_len(v.x, n),
            y: div_by_len(v.y, n),
            z: div_by_len(v.z, n),
            w: div_by_len(v.w, n),
        }
    }
}

/// The cross product of the spatial parts of `u` and `v`, as a direction.
pub fn cross_product(u: &Vec4, v: &Vec4) -> (r: Vec4)
    ensures
        r == cross_spec(*u, *v),
{
    Vec4 {
        x: clamp_wide(mul_wide(u.y, v.z) - mul_wide(u.z, v.y)),
        y: clamp_wide(mul_wide(u.z, v.x) - mul_wide(u.x, v.z)),
        z: clamp_wide(mul_wide(u.x, v.y) - mul_wide(u.y, v.x)),
        w: 0,
    }
}

/// The dot product of two directions; points (a non-zero fourth coordinate) have none.
pub fn dot_product(u: &Vec4, v: &Vec4) -> (r: i64)
    requires
        u.w == 0,
        v.w == 0,
    ensures
        r == dot_spec(*u, *v),
{
    dot4(u.x, u.y, u.z, u.w, v.x, v.y, v.z, v.w)
}

/// The outward normal of the triangle `a, b, c`, unnormalised.
pub fn compute_normal(a: &Vec4, b: &Vec4, c: &Vec4) -> (r: Vec4)
    ensures
        r == vec_neg(cross_spec(vec_sub(*c, *a), vec_sub(*b, *a))),
{
    let u = sub_vec(c, a);
    let v = sub_vec(b, a);
    neg_vec(&cross_product(&u, &v))
}

/// Rotation by the angle with cosine `c` and sine `s` about the direction `axis`.
pub fn rotation_matrix(c: i64, s: i64, axis: &Vec4) -> (r: GLMatrix)
    requires
        norm_spec(*axis) != 0,
    ensures
        r == rotation_spec(c, s, *axis),
{
    let v = normalize_vector(axis);
    let mc = sat_sub(SCALE, c);
    let vx = v.x;
    let vy = v.y;
    let vz = v.z;
    let m = GLMatrix::new([
        sat_add(fixed_mul(fixed_mul(vx, vx), mc), c),
        sat_sub(fixed_mul(fixed_mul(vx, vy), mc), fixed_mul(vz, s)),
        sat_add(fixed_mul(fixed_mul(vx, vz), mc), fixed_mul(vy, s)),
        0,
        sat_add(fixed_mul(fixed_mul(vx, vy), mc), fixed_mul(vz, s)),
        sat_add(fixed_mul(fixed_mul(vy, vy), mc), c),
        sat_sub(fixed_mul(fixed_mul(vz, vy), mc), fixed_mul(vx, s)),
        0,
        sat_sub(fixed_mul(fixed_mul(vx, vz), mc), fixed_mul(vy, s)),
        sat_add(fixed_mul(fixed_mul(vy, vz), mc), fixed_mul(vx, s)),
        sat_add(fixed_mul(fixed_mul(vz, vz), mc), c),
        0,
        0,
        0,
        0,
        SCALE,
    ]);
    assert(m == rotation_spec(c, s, *axis));
    m
}

/// One row entry pair of an orthographic projection: `2 / (hi - lo)` and
/// `-(hi + lo) / (hi - lo)`.
fn ortho_pair(lo: i64, hi: i64) -> (r: (i64, i64))
    requires
        lo != hi,
    ensures
        r.0 == saturate(quot(2 * SCALE * SCALE, hi - lo)),
        r.1 == saturate(quot(-(hi + lo) * SCALE, hi - lo)),
{
    let d: i128 = hi as i128 - lo as i128;
    let sum: i128 = hi as i128 + lo as i128;
    let a = quot_wide(2_000_000_000_000i128, d);
    let b = quot_wide(-sum * 1_000_000i128, d);
    (clamp_wide(a), clamp_wide(b))
}

/// The orthographic projection of the box `[l, r] x [b, t] x [n, f]` onto the unit cube.
pub fn ortographic_matrix(l: i64, r: i64, b: i64, t: i64, n: i64, f: i64) -> (m: GLMatrix)
    requires
        l != r,
        b != t,
        n != f,
    ensures
        m == ortographic_spec(l, r, b, t, n, f),
{
    let (sx, tx) = ortho_pair(l, r);
    let (sy, ty) = ortho_pair(b, t);
    let (sz, tz) = ortho_pair(n, f);
    let m = GLMatrix::new([sx, 0, 0, tx, 0, sy, 0, ty, 0, 0, sz, tz, 0, 0, 0, SCALE]);
    assert(m == ortographic_spec(l, r, b, t, n, f));
    m
}

/// The perspective projection with near plane `n`, far plane `f`, the tangent of
/// half the vertical field of view and the aspect ratio.
pub fn perpective_matrix(tan_half_fov: i64, aspect: i64, n: i64, f: i64) -> (m: GLMatrix)
    requires
        n != i64::MIN,
        n != f,
        near_top(tan_half_fov, n) != 0,
        fm(near_top(tan_half_fov, n), aspect) != 0,
    ensures
        m == perpective_spec(tan_half_fov, aspect, n, f),
{
    let an = if n < 0 { -n } else { n };
    let t = fixed_mul(an, tan_half_fov);
    let b = sat_neg(t);
    let r = fixed_mul(t, aspect);
    let l = sat_neg(r);
    let p = GLMatrix::new([
        n, 0, 0, 0,
        0, n, 0, 0,
        0, 0, sat_add(n, f), sat_neg(fixed_mul(f, n)),
        0, 0, SCALE, 0,
    ]);
    let o = ortographic_matrix(l, r, b, t, n, f);
    let neg = GLMatrix { c0: neg_vec(&o.c0), c1: neg_vec(&o.c1), c2: neg_vec(&o.c2), c3: neg_vec(&o.c3) };
    neg.mul_mat(&p)
}

/// The change of basis into the frame of a camera at the point `position_c` looking
/// along the direction `view_vector`, with `up_vector` as the approximate up direction.
pub fn camera_view_matrix(position_c: &Vec4, view_vector: &Vec4, up_vector: &Vec4) -> (m: GLMatrix)
    requires
        position_c.w == SCALE,
        view_vector.w == 0,
    ensures
        m == camera_view_spec(*position_c, *view_vector, *up_vector),
{
    let w0 = neg_vec(view_vector);
    let u = normalize_vector(&cross_product(up_vector, &w0));
    let w = normalize_vector(&w0);
    let v = cross_product(&w, &u);
    let origin_o = Vec4 { x: 0, y: 0, z: 0, w: SCALE };
    let c = sub_vec(position_c, &origin_o);
    let nu = neg_vec(&u);
    let nv = neg_vec(&v);
    let nw = neg_vec(&w);
    proof {
        lemma_normalized_keeps_direction(cross_spec(*up_vector, w0));
        lemma_normalized_keeps_direction(w0);
    }
    let m = GLMatrix::new([
        u.x, u.y, u.z, dot_product(&nu, &c),
        v.x, v.y, v.z, dot_product(&nv, &c),
        w.x, w.y, w.z, dot_product(&nw, &c),
        0, 0, 0, SCALE,
    ]);
    assert(m == camera_view_spec(*position_c, *view_vector, *up_vector));
    m
}

/// Scaling a direction to unit length keeps it a direction.
proof fn lemma_normalized_keeps_direction(v: Vec4)
    requires
        v.w == 0,
    ensures
        normalized(v).w == 0,
{
}

/// A value placed in space by one transform, which every transform operation replaces.
pub trait MatrixTransform: Sized {
    /// The transform that places this value.
    spec fn transform(&self) -> GLMatrix;

    /// This value with its transform replaced by `m` and nothing else changed.
    spec fn with_transform(&self, m: GLMatrix) -> Self;

    /// The transform that places this value.
    fn get_matrix(&self) -> (r: &GLMatrix)
        ensures
            *r == self.transform(),
    ;

    /// Replaces the transform in place.
    fn update_matrix(&mut self, matrix: &GLMatrix)
        ensures
            *final(self) == old(self).with_transform(*matrix),
    ;

    /// This value with its transform replaced.
    fn from_matrix(self, matrix: &GLMatrix) -> (r: Self)
        ensures
            r == self.with_transform(*matrix),
    ;

    /// This value followed by a translation by `(x, y, z)`.
    fn translate(self, x: i64, y: i64, z: i64) -> (r: Self)
        ensures
            r == self.with_transform(mat_product(translating_spec(x, y, z), self.transform())),
    {
        let m = self.get_matrix().translate(x, y, z);
        self.from_matrix(&m)
    }

    /// This value followed by a rotation about the x axis (cosine `c`, sine `s`).
    fn rotate_x(self, c: i64, s: i64) -> (r: Self)
        requires
            s != i64::MIN,
        ensures
            r == self.with_transform(mat_product(rotation_x_spec(c, s), self.transform())),
    {
        let m = self.get_matrix().rotate_x(c, s);
        self.from_matrix(&m)
    }

    /// This value followed by a rotation about the y axis (cosine `c`, sine `s`).
    fn rotate_y(self, c: i64, s: i64) -> (r: Self)
        requires
            s != i64::MIN,
        ensures
            r == self.with_transform(mat_product(rotation_y_spec(c, s), self.transform())),
    {
        let m = self.get_matrix().rotate_y(c, s);
        self.from_matrix(&m)
    }

    /// This value followed by a rotation about the z axis (cosine `c`, sine `s`).
    fn rotate_z(self, c: i64, s: i64) -> (r: Self)
        requires
            s != i64::MIN,
        ensures
            r == self.with_transform(mat_product(rotation_z_spec(c, s), self.transform())),
    {
        let m = self.get_matrix().rotate_z(c, s);
        self.from_matrix(&m)
    }

    /// This value followed by a rotation about `axis` (cosine `c`, sine `s`).
    fn rotate(self, c: i64, s: i64, axis: &Vec4) -> (r: Self)
        requires
            norm_spec(*axis) != 0,
        ensures
            r == self.with_transform(mat_product(rotation_spec(c, s, *axis), self.transform())),
    {
        let m = self.get_matrix().rotate(c, s, axis);
        self.from_matrix(&m)
    }

    /// This value followed by a scaling by `(x, y, z)`.
    fn scale(self, x: i64, y: i64, z: i64) -> (r: Self)
        ensures
            r == self.with_transform(mat_product(scaling_spec(x, y, z), self.transform())),
    {
        let m = self.get_matrix().scale(x, y, z);
        self.from_matrix(&m)
    }
}

/// The neutral transform maps every vector to itself.
pub proof fn lemma_identity_mat_vec(v: Vec4)
    ensures
        mat_vec(identity_spec(), v) == v,
{
    lemma_fmul_unit(v.x as int);
    lemma_fmul_unit(v.y as int);
    lemma_fmul_unit(v.z as int);
    lemma_fmul_unit(v.w as int);
}

/// The neutral transform is a left identity of the product.
pub proof fn lemma_identity_left(m: GLMatrix)
    ensures
        mat_product(identity_spec(), m) == m,
{
    lemma_identity_mat_vec(m.c0);
    lemma_identity_mat_vec(m.c1);
    lemma_identity_mat_vec(m.c2);
    lemma_identity_mat_vec(m.c3);
}

/// Translating by zero and scaling by one both give back the matrix unchanged.
pub proof fn lemma_neutral_transforms(m: GLMatrix)
    ensures
        mat_product(translating_spec(0, 0, 0), m) == m,
        mat_product(scaling_spec(SCALE, SCALE, SCALE), m) == m,
{
    lemma_identity_left(m);
    assert(scaling_spec(SCALE, SCALE, SCALE) == identity_spec());
}

} // verus!
