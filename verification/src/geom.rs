//! Fixed-point vectors and 4x4 transform matrices.

use vstd::prelude::*;

use crate::fx::fx_add;
use crate::fx::fx_div;
use crate::fx::fx_mul;
use crate::fx::fx_sub;
use crate::fx::fxa;
use crate::fx::fxd;
use crate::fx::fxm;
use crate::fx::fxsb;
use crate::fx::is_isqrt;
use crate::fx::isqrt;
use crate::fx::isqrt_s;
use crate::fx::lemma_isqrt_unique;
use crate::fx::sat_s;
use crate::fx::FX_SAT;

verus! {

/// A 2-D fixed-point vector (UV coordinates, screen points).
#[derive(Clone, Copy, PartialEq, Eq, Structural, Debug)]
pub struct Vec2fx {
    pub x: i64,
    pub y: i64,
}

/// A 3-D fixed-point vector (positions, normals, colors as reals).
#[derive(Clone, Copy, PartialEq, Eq, Structural, Debug)]
pub struct Vec3fx {
    pub x: i64,
    pub y: i64,
    pub z: i64,
}

/// A homogeneous 4-D fixed-point vector (clip-space positions).
#[derive(Clone, Copy, PartialEq, Eq, Structural, Debug)]
pub struct Vec4fx {
    pub x: i64,
    pub y: i64,
    pub z: i64,
    pub w: i64,
}

/// A 4x4 fixed-point matrix, row-major: `mRC` is row `R`, column `C`.
#[derive(Clone, Copy, PartialEq, Eq, Structural, Debug)]
pub struct Mat4 {
    pub m00: i64, pub m01: i64, pub m02: i64, pub m03: i64,
    pub m10: i64, pub m11: i64, pub m12: i64, pub m13: i64,
    pub m20: i64, pub m21: i64, pub m22: i64, pub m23: i64,
    pub m30: i64, pub m31: i64, pub m32: i64, pub m33: i64,
}

/// Four-term fixed-point dot product.
pub open spec fn dot4_s(a0: i64, a1: i64, a2: i64, a3: i64, b0: i64, b1: i64, b2: i64, b3: i64) -> i64 {
    fxa(fxa(fxa(fxm(a0, b0), fxm(a1, b1)), fxm(a2, b2)), fxm(a3, b3))
}

fn dot4(a0: i64, a1: i64, a2: i64, a3: i64, b0: i64, b1: i64, b2: i64, b3: i64) -> (r: i64)
    ensures
        r == dot4_s(a0, a1, a2, a3, b0, b1, b2, b3),
{
    fx_add(fx_add(fx_add(fx_mul(a0, b0), fx_mul(a1, b1)), fx_mul(a2, b2)), fx_mul(a3, b3))
}

/// Barycentric combination of three scalars with the given weights.
pub open spec fn interp3_s(a: i64, b: i64, c: i64, w0: i64, w1: i64, w2: i64) -> i64 {
    fxa(fxa(fxm(a, w0), fxm(b, w1)), fxm(c, w2))
}

/// Interpolate one scalar attribute over a triangle.
pub fn interp3(a: i64, b: i64, c: i64, w0: i64, w1: i64, w2: i64) -> (r: i64)
    ensures
        r == interp3_s(a, b, c, w0, w1, w2),
{
    fx_add(fx_add(fx_mul(a, w0), fx_mul(b, w1)), fx_mul(c, w2))
}

pub open spec fn v3_add_s(a: Vec3fx, b: Vec3fx) -> Vec3fx {
    Vec3fx { x: fxa(a.x, b.x), y: fxa(a.y, b.y), z: fxa(a.z, b.z) }
}

pub fn v3_add(a: Vec3fx, b: Vec3fx) -> (r: Vec3fx)
    ensures
        r == v3_add_s(a, b),
{
    Vec3fx { x: fx_add(a.x, b.x), y: fx_add(a.y, b.y), z: fx_add(a.z, b.z) }
}

pub open spec fn v3_sub_s(a: Vec3fx, b: Vec3fx) -> Vec3fx {
    Vec3fx { x: fxsb(a.x, b.x), y: fxsb(a.y, b.y), z: fxsb(a.z, b.z) }
}

pub fn v3_sub(a: Vec3fx, b: Vec3fx) -> (r: Vec3fx)
    ensures
        r == v3_sub_s(a, b),
{
    Vec3fx { x: fx_sub(a.x, b.x), y: fx_sub(a.y, b.y), z: fx_sub(a.z, b.z) }
}

pub open spec fn v3_scale_s(a: Vec3fx, s: i64) -> Vec3fx {
    Vec3fx { x: fxm(a.x, s), y: fxm(a.y, s), z: fxm(a.z, s) }
}

pub fn v3_scale(a: Vec3fx, s: i64) -> (r: Vec3fx)
    ensures
        r == v3_scale_s(a, s),
{
    Vec3fx { x: fx_mul(a.x, s), y: fx_mul(a.y, s), z: fx_mul(a.z, s) }
}

/// Fixed-point dot product of 3-D vectors.
pub open spec fn v3_dot_s(a: Vec3fx, b: Vec3fx) -> i64 {
    fxa(fxa(fxm(a.x, b.x), fxm(a.y, b.y)), fxm(a.z, b.z))
}

pub fn v3_dot(a: Vec3fx, b: Vec3fx) -> (r: i64)
    ensures
        r == v3_dot_s(a, b),
{
    fx_add(fx_add(fx_mul(a.x, b.x), fx_mul(a.y, b.y)), fx_mul(a.z, b.z))
}

/// Fixed-point cross product of 3-D vectors.
pub open spec fn v3_cross_s(a: Vec3fx, b: Vec3fx) -> Vec3fx {
    Vec3fx {
        x: fxsb(fxm(a.y, b.z), fxm(a.z, b.y)),
        y: fxsb(fxm(a.z, b.x), fxm(a.x, b.z)),
        z: fxsb(fxm(a.x, b.y), fxm(a.y, b.x)),
    }
}

pub fn v3_cross(a: Vec3fx, b: Vec3fx) -> (r: Vec3fx)
    ensures
        r == v3_cross_s(a, b),
{
    Vec3fx {
        x: fx_sub(fx_mul(a.y, b.z), fx_mul(a.z, b.y)),
        y: fx_sub(fx_mul(a.z, b.x), fx_mul(a.x, b.z)),
        z: fx_sub(fx_mul(a.x, b.y), fx_mul(a.y, b.x)),
    }
}

/// The fixed-point magnitude of a vector: the integer square root of the
/// raw sum of squares is exactly the 16.16 representation of the length.
pub open spec fn v3_mag_s(v: Vec3fx) -> i64 {
    sat_s(isqrt_s((v.x as int) * (v.x as int) + (v.y as int) * (v.y as int) + (v.z as int) * (v.z as int))) as i64
}

pub fn v3_mag(v: Vec3fx) -> (r: i64)
    ensures
        r == v3_mag_s(v),
        r >= 0,
{
    proof {
        assert((v.x as int) * (v.x as int) >= 0 && (v.x as int) * (v.x as int) <= 0x4000_0000_0000_0000_0000_0000_0000_0000int
            && (v.y as int) * (v.y as int) >= 0 && (v.y as int) * (v.y as int) <= 0x4000_0000_0000_0000_0000_0000_0000_0000int
            && (v.z as int) * (v.z as int) >= 0 && (v.z as int) * (v.z as int) <= 0x4000_0000_0000_0000_0000_0000_0000_0000int)
            by (nonlinear_arith)
            requires
                -0x8000_0000_0000_0000 <= v.x as int <= 0x7fff_ffff_ffff_ffff,
                -0x8000_0000_0000_0000 <= v.y as int <= 0x7fff_ffff_ffff_ffff,
                -0x8000_0000_0000_0000 <= v.z as int <= 0x7fff_ffff_ffff_ffff,
        {}
    }
    let xx: u128 = ((v.x as i128) * (v.x as i128)) as u128;
    let yy: u128 = ((v.y as i128) * (v.y as i128)) as u128;
    let zz: u128 = ((v.z as i128) * (v.z as i128)) as u128;
    let root: u128 = isqrt(xx + yy + zz);
    proof {
        let n = xx + yy + zz;
        assert(is_isqrt(n as int, root as int));
        if root > FX_SAT as u128 {
            assert(isqrt_s(n as int) == root as int) by {
                lemma_isqrt_unique(n as int, isqrt_s(n as int), root as int);
            }
        }
    }
    if root > FX_SAT as u128 {
        FX_SAT
    } else {
        root as i64
    }
}

/// Normalize to unit length; the zero vector stays zero (`fx_div` by a
/// zero magnitude yields zero for zero numerators).
pub open spec fn v3_norm_s(v: Vec3fx) -> Vec3fx {
    let m = v3_mag_s(v);
    Vec3fx { x: fxd(v.x, m), y: fxd(v.y, m), z: fxd(v.z, m) }
}

pub fn v3_norm(v: Vec3fx) -> (r: Vec3fx)
    ensures
        r == v3_norm_s(v),
{
    let m = v3_mag(v);
    Vec3fx { x: fx_div(v.x, m), y: fx_div(v.y, m), z: fx_div(v.z, m) }
}

/// Extend a 3-D vector into homogeneous space with the given `w`.
pub open spec fn v3_extend_s(v: Vec3fx, w: i64) -> Vec4fx {
    Vec4fx { x: v.x, y: v.y, z: v.z, w: w }
}

pub fn v3_extend(v: Vec3fx, w: i64) -> (r: Vec4fx)
    ensures
        r == v3_extend_s(v, w),
{
    Vec4fx { x: v.x, y: v.y, z: v.z, w: w }
}

/// Drop the `w` component.
pub open spec fn v4_truncate_s(v: Vec4fx) -> Vec3fx {
    Vec3fx { x: v.x, y: v.y, z: v.z }
}

pub fn v4_truncate(v: Vec4fx) -> (r: Vec3fx)
    ensures
        r == v4_truncate_s(v),
{
    Vec3fx { x: v.x, y: v.y, z: v.z }
}

/// Perspective divide: the spatial components divided by `w`.
pub open spec fn v4_project_s(v: Vec4fx) -> Vec3fx {
    Vec3fx { x: fxd(v.x, v.w), y: fxd(v.y, v.w), z: fxd(v.z, v.w) }
}

pub fn v4_project(v: Vec4fx) -> (r: Vec3fx)
    ensures
        r == v4_project_s(v),
{
    Vec3fx { x: fx_div(v.x, v.w), y: fx_div(v.y, v.w), z: fx_div(v.z, v.w) }
}

/// The identity transform.
pub open spec fn mat4_identity_s() -> Mat4 {
    Mat4 {
        m00: crate::fx::FX_ONE, m01: 0, m02: 0, m03: 0,
        m10: 0, m11: crate::fx::FX_ONE, m12: 0, m13: 0,
        m20: 0, m21: 0, m22: crate::fx::FX_ONE, m23: 0,
        m30: 0, m31: 0, m32: 0, m33: crate::fx::FX_ONE,
    }
}

pub fn mat4_identity() -> (r: Mat4)
    ensures
        r == mat4_identity_s(),
{
    Mat4 {
        m00: crate::fx::FX_ONE, m01: 0, m02: 0, m03: 0,
        m10: 0, m11: crate::fx::FX_ONE, m12: 0, m13: 0,
        m20: 0, m21: 0, m22: crate::fx::FX_ONE, m23: 0,
        m30: 0, m31: 0, m32: 0, m33: crate::fx::FX_ONE,
    }
}

/// Matrix transpose.
pub open spec fn mat4_transpose_s(a: Mat4) -> Mat4 {
    Mat4 {
        m00: a.m00, m01: a.m10, m02: a.m20, m03: a.m30,
        m10: a.m01, m11: a.m11, m12: a.m21, m13: a.m31,
        m20: a.m02, m21: a.m12, m22: a.m22, m23: a.m32,
        m30: a.m03, m31: a.m13, m32: a.m23, m33: a.m33,
    }
}

pub fn mat4_transpose(a: Mat4) -> (r: Mat4)
    ensures
        r == mat4_transpose_s(a),
{
    Mat4 {
        m00: a.m00, m01: a.m10, m02: a.m20, m03: a.m30,
        m10: a.m01, m11: a.m11, m12: a.m21, m13: a.m31,
        m20: a.m02, m21: a.m12, m22: a.m22, m23: a.m32,
        m30: a.m03, m31: a.m13, m32: a.m23, m33: a.m33,
    }
}

/// Matrix product, row by column.
pub open spec fn mat4_mul_s(a: Mat4, b: Mat4) -> Mat4 {
    Mat4 {
        m00: dot4_s(a.m00, a.m01, a.m02, a.m03, b.m00, b.m10, b.m20, b.m30),
        m01: dot4_s(a.m00, a.m01, a.m02, a.m03, b.m01, b.m11, b.m21, b.m31),
        m02: dot4_s(a.m00, a.m01, a.m02, a.m03, b.m02, b.m12, b.m22, b.m32),
        m03: dot4_s(a.m00, a.m01, a.m02, a.m03, b.m03, b.m13, b.m23, b.m33),
        m10: dot4_s(a.m10, a.m11, a.m12, a.m13, b.m00, b.m10, b.m20, b.m30),
        m11: dot4_s(a.m10, a.m11, a.m12, a.m13, b.m01, b.m11, b.m21, b.m31),
        m12: dot4_s(a.m10, a.m11, a.m12, a.m13, b.m02, b.m12, b.m22, b.m32),
        m13: dot4_s(a.m10, a.m11, a.m12, a.m13, b.m03, b.m13, b.m23, b.m33),
        m20: dot4_s(a.m20, a.m21, a.m22, a.m23, b.m00, b.m10, b.m20, b.m30),
        m21: dot4_s(a.m20, a.m21, a.m22, a.m23, b.m01, b.m11, b.m21, b.m31),
        m22: dot4_s(a.m20, a.m21, a.m22, a.m23, b.m02, b.m12, b.m22, b.m32),
        m23: dot4_s(a.m20, a.m21, a.m22, a.m23, b.m03, b.m13, b.m23, b.m33),
        m30: dot4_s(a.m30, a.m31, a.m32, a.m33, b.m00, b.m10, b.m20, b.m30),
        m31: dot4_s(a.m30, a.m31, a.m32, a.m33, b.m01, b.m11, b.m21, b.m31),
        m32: dot4_s(a.m30, a.m31, a.m32, a.m33, b.m02, b.m12, b.m22, b.m32),
        m33: dot4_s(a.m30, a.m31, a.m32, a.m33, b.m03, b.m13, b.m23, b.m33),
    }
}

pub fn mat4_mul(a: Mat4, b: Mat4) -> (r: Mat4)
    ensures
        r == mat4_mul_s(a, b),
{
    Mat4 {
        m00: dot4(a.m00, a.m01, a.m02, a.m03, b.m00, b.m10, b.m20, b.m30),
        m01: dot4(a.m00, a.m01, a.m02, a.m03, b.m01, b.m11, b.m21, b.m31),
        m02: dot4(a.m00, a.m01, a.m02, a.m03, b.m02, b.m12, b.m22, b.m32),
        m03: dot4(a.m00, a.m01, a.m02, a.m03, b.m03, b.m13, b.m23, b.m33),
        m10: dot4(a.m10, a.m11, a.m12, a.m13, b.m00, b.m10, b.m20, b.m30),
        m11: dot4(a.m10, a.m11, a.m12, a.m13, b.m01, b.m11, b.m21, b.m31),
        m12: dot4(a.m10, a.m11, a.m12, a.m13, b.m02, b.m12, b.m22, b.m32),
        m13: dot4(a.m10, a.m11, a.m12, a.m13, b.m03, b.m13, b.m23, b.m33),
        m20: dot4(a.m20, a.m21, a.m22, a.m23, b.m00, b.m10, b.m20, b.m30),
        m21: dot4(a.m20, a.m21, a.m22, a.m23, b.m01, b.m11, b.m21, b.m31),
        m22: dot4(a.m20, a.m21, a.m22, a.m23, b.m02, b.m12, b.m22, b.m32),
        m23: dot4(a.m20, a.m21, a.m22, a.m23, b.m03, b.m13, b.m23, b.m33),
        m30: dot4(a.m30, a.m31, a.m32, a.m33, b.m00, b.m10, b.m20, b.m30),
        m31: dot4(a.m30, a.m31, a.m32, a.m33, b.m01, b.m11, b.m21, b.m31),
        m32: dot4(a.m30, a.m31, a.m32, a.m33, b.m02, b.m12, b.m22, b.m32),
        m33: dot4(a.m30, a.m31, a.m32, a.m33, b.m03, b.m13, b.m23, b.m33),
    }
}

/// Matrix applied to a homogeneous vector.
pub open spec fn mat4_apply_s(a: Mat4, v: Vec4fx) -> Vec4fx {
    Vec4fx {
        x: dot4_s(a.m00, a.m01, a.m02, a.m03, v.x, v.y, v.z, v.w),
        y: dot4_s(a.m10, a.m11, a.m12, a.m13, v.x, v.y, v.z, v.w),
        z: dot4_s(a.m20, a.m21, a.m22, a.m23, v.x, v.y, v.z, v.w),
        w: dot4_s(a.m30, a.m31, a.m32, a.m33, v.x, v.y, v.z, v.w),
    }
}

pub fn mat4_apply(a: Mat4, v: Vec4fx) -> (r: Vec4fx)
    ensures
        r == mat4_apply_s(a, v),
{
    Vec4fx {
        x: dot4(a.m00, a.m01, a.m02, a.m03, v.x, v.y, v.z, v.w),
        y: dot4(a.m10, a.m11, a.m12, a.m13, v.x, v.y, v.z, v.w),
        z: dot4(a.m20, a.m21, a.m22, a.m23, v.x, v.y, v.z, v.w),
        w: dot4(a.m30, a.m31, a.m32, a.m33, v.x, v.y, v.z, v.w),
    }
}

/// 2x2 fixed-point determinant `a*b - c*d`.
pub open spec fn det2_s(a: i64, b: i64, c: i64, d: i64) -> i64 {
    fxsb(fxm(a, b), fxm(c, d))
}

fn det2(a: i64, b: i64, c: i64, d: i64) -> (r: i64)
    ensures
        r == det2_s(a, b, c, d),
{
    fx_sub(fx_mul(a, b), fx_mul(c, d))
}

/// Alternating three-term cofactor `a*x - b*y + c*z`.
pub open spec fn cof3_s(a: i64, x: i64, b: i64, y: i64, c: i64, z: i64) -> i64 {
    fxa(fxsb(fxm(a, x), fxm(b, y)), fxm(c, z))
}

fn cof3(a: i64, x: i64, b: i64, y: i64, c: i64, z: i64) -> (r: i64)
    ensures
        r == cof3_s(a, x, b, y, c, z),
{
    fx_add(fx_sub(fx_mul(a, x), fx_mul(b, y)), fx_mul(c, z))
}

/// The fixed-point determinant, via the six 2x2 minors of the top and
/// bottom row pairs.
pub open spec fn mat4_det_s(a: Mat4) -> i64 {
    let s0 = det2_s(a.m00, a.m11, a.m10, a.m01);
    let s1 = det2_s(a.m00, a.m12, a.m10, a.m02);
    let s2 = det2_s(a.m00, a.m13, a.m10, a.m03);
    let s3 = det2_s(a.m01, a.m12, a.m11, a.m02);
    let s4 = det2_s(a.m01, a.m13, a.m11, a.m03);
    let s5 = det2_s(a.m02, a.m13, a.m12, a.m03);
    let c5 = det2_s(a.m22, a.m33, a.m32, a.m23);
    let c4 = det2_s(a.m21, a.m33, a.m31, a.m23);
    let c3 = det2_s(a.m21, a.m32, a.m31, a.m22);
    let c2 = det2_s(a.m20, a.m33, a.m30, a.m23);
    let c1 = det2_s(a.m20, a.m32, a.m30, a.m22);
    let c0 = det2_s(a.m20, a.m31, a.m30, a.m21);
    fxa(cof3_s(s0, c5, s1, c4, s2, c3), cof3_s(s3, c2, s4, c1, s5, c0))
}

/// The inverse when the fixed-point determinant is nonzero; `None` for a
/// singular matrix.
pub open spec fn mat4_invert_s(a: Mat4) -> Option<Mat4> {
    let s0 = det2_s(a.m00, a.m11, a.m10, a.m01);
    let s1 = det2_s(a.m00, a.m12, a.m10, a.m02);
    let s2 = det2_s(a.m00, a.m13, a.m10, a.m03);
    let s3 = det2_s(a.m01, a.m12, a.m11, a.m02);
    let s4 = det2_s(a.m01, a.m13, a.m11, a.m03);
    let s5 = det2_s(a.m02, a.m13, a.m12, a.m03);
    let c5 = det2_s(a.m22, a.m33, a.m32, a.m23);
    let c4 = det2_s(a.m21, a.m33, a.m31, a.m23);
    let c3 = det2_s(a.m21, a.m32, a.m31, a.m22);
    let c2 = det2_s(a.m20, a.m33, a.m30, a.m23);
    let c1 = det2_s(a.m20, a.m32, a.m30, a.m22);
    let c0 = det2_s(a.m20, a.m31, a.m30, a.m21);
    let det = fxa(cof3_s(s0, c5, s1, c4, s2, c3), cof3_s(s3, c2, s4, c1, s5, c0));
    if det == 0 {
        None
    } else {
        Some(Mat4 {
            m00: fxd(cof3_s(a.m11, c5, a.m12, c4, a.m13, c3), det),
            m01: fxd(fxsb(0, cof3_s(a.m01, c5, a.m02, c4, a.m03, c3)), det),
            m02: fxd(cof3_s(a.m31, s5, a.m32, s4, a.m33, s3), det),
            m03: fxd(fxsb(0, cof3_s(a.m21, s5, a.m22, s4, a.m23, s3)), det),
            m10: fxd(fxsb(0, cof3_s(a.m10, c5, a.m12, c2, a.m13, c1)), det),
            m11: fxd(cof3_s(a.m00, c5, a.m02, c2, a.m03, c1), det),
            m12: fxd(fxsb(0, cof3_s(a.m30, s5, a.m32, s2, a.m33, s1)), det),
            m13: fxd(cof3_s(a.m20, s5, a.m22, s2, a.m23, s1), det),
            m20: fxd(cof3_s(a.m10, c4, a.m11, c2, a.m13, c0), det),
            m21: fxd(fxsb(0, cof3_s(a.m00, c4, a.m01, c2, a.m03, c0)), det),
            m22: fxd(cof3_s(a.m30, s4, a.m31, s2, a.m33, s0), det),
            m23: fxd(fxsb(0, cof3_s(a.m20, s4, a.m21, s2, a.m23, s0)), det),
            m30: fxd(fxsb(0, cof3_s(a.m10, c3, a.m11, c1, a.m12, c0)), det),
            m31: fxd(cof3_s(a.m00, c3, a.m01, c1, a.m02, c0), det),
            m32: fxd(fxsb(0, cof3_s(a.m30, s3, a.m31, s1, a.m32, s0)), det),
            m33: fxd(cof3_s(a.m20, s3, a.m21, s1, a.m22, s0), det),
        })
    }
}

/// Invert a transform; fails exactly on a zero fixed-point determinant.
#[verifier::rlimit(50)]
pub fn mat4_invert(a: Mat4) -> (r: Option<Mat4>)
    ensures
        r == mat4_invert_s(a),
        r is Some <==> mat4_det_s(a) != 0,
{
    let s0 = det2(a.m00, a.m11, a.m10, a.m01);
    let s1 = det2(a.m00, a.m12, a.m10, a.m02);
    let s2 = det2(a.m00, a.m13, a.m10, a.m03);
    let s3 = det2(a.m01, a.m12, a.m11, a.m02);
    let s4 = det2(a.m01, a.m13, a.m11, a.m03);
    let s5 = det2(a.m02, a.m13, a.m12, a.m03);
    let c5 = det2(a.m22, a.m33, a.m32, a.m23);
    let c4 = det2(a.m21, a.m33, a.m31, a.m23);
    let c3 = det2(a.m21, a.m32, a.m31, a.m22);
    let c2 = det2(a.m20, a.m33, a.m30, a.m23);
    let c1 = det2(a.m20, a.m32, a.m30, a.m22);
    let c0 = det2(a.m20, a.m31, a.m30, a.m21);
    let det = fx_add(cof3(s0, c5, s1, c4, s2, c3), cof3(s3, c2, s4, c1, s5, c0));
    if det == 0 {
        None
    } else {
        Some(Mat4 {
            m00: fx_div(cof3(a.m11, c5, a.m12, c4, a.m13, c3), det),
            m01: fx_div(fx_sub(0, cof3(a.m01, c5, a.m02, c4, a.m03, c3)), det),
            m02: fx_div(cof3(a.m31, s5, a.m32, s4, a.m33, s3), det),
            m03: fx_div(fx_sub(0, cof3(a.m21, s5, a.m22, s4, a.m23, s3)), det),
            m10: fx_div(fx_sub(0, cof3(a.m10, c5, a.m12, c2, a.m13, c1)), det),
            m11: fx_div(cof3(a.m00, c5, a.m02, c2, a.m03, c1), det),
            m12: fx_div(fx_sub(0, cof3(a.m30, s5, a.m32, s2, a.m33, s1)), det),
            m13: fx_div(cof3(a.m20, s5, a.m22, s2, a.m23, s1), det),
            m20: fx_div(cof3(a.m10, c4, a.m11, c2, a.m13, c0), det),
            m21: fx_div(fx_sub(0, cof3(a.m00, c4, a.m01, c2, a.m03, c0)), det),
            m22: fx_div(cof3(a.m30, s4, a.m31, s2, a.m33, s0), det),
            m23: fx_div(fx_sub(0, cof3(a.m20, s4, a.m21, s2, a.m23, s0)), det),
            m30: fx_div(fx_sub(0, cof3(a.m10, c3, a.m11, c1, a.m12, c0)), det),
            m31: fx_div(cof3(a.m00, c3, a.m01, c1, a.m02, c0), det),
            m32: fx_div(fx_sub(0, cof3(a.m30, s3, a.m31, s1, a.m32, s0)), det),
            m33: fx_div(cof3(a.m20, s3, a.m21, s1, a.m22, s0), det),
        })
    }
}

/// A 3x3 fixed-point matrix, row-major.
#[derive(Clone, Copy, PartialEq, Eq, Structural, Debug)]
pub struct Mat3 {
    pub m00: i64, pub m01: i64, pub m02: i64,
    pub m10: i64, pub m11: i64, pub m12: i64,
    pub m20: i64, pub m21: i64, pub m22: i64,
}

/// Three-term fixed-point dot product.
pub open spec fn dot3_s(a0: i64, a1: i64, a2: i64, b0: i64, b1: i64, b2: i64) -> i64 {
    fxa(fxa(fxm(a0, b0), fxm(a1, b1)), fxm(a2, b2))
}

fn dot3(a0: i64, a1: i64, a2: i64, b0: i64, b1: i64, b2: i64) -> (r: i64)
    ensures
        r == dot3_s(a0, a1, a2, b0, b1, b2),
{
    fx_add(fx_add(fx_mul(a0, b0), fx_mul(a1, b1)), fx_mul(a2, b2))
}

/// A 3x3 matrix with the three given rows.
pub open spec fn mat3_rows_s(r0: Vec3fx, r1: Vec3fx, r2: Vec3fx) -> Mat3 {
    Mat3 {
        m00: r0.x, m01: r0.y, m02: r0.z,
        m10: r1.x, m11: r1.y, m12: r1.z,
        m20: r2.x, m21: r2.y, m22: r2.z,
    }
}

/// Build a 3x3 matrix from rows.
pub fn mat3_rows(r0: Vec3fx, r1: Vec3fx, r2: Vec3fx) -> (r: Mat3)
    ensures
        r == mat3_rows_s(r0, r1, r2),
{
    Mat3 {
        m00: r0.x, m01: r0.y, m02: r0.z,
        m10: r1.x, m11: r1.y, m12: r1.z,
        m20: r2.x, m21: r2.y, m22: r2.z,
    }
}

/// 3x3 matrix applied to a vector.
pub open spec fn mat3_apply_s(a: Mat3, v: Vec3fx) -> Vec3fx {
    Vec3fx {
        x: dot3_s(a.m00, a.m01, a.m02, v.x, v.y, v.z),
        y: dot3_s(a.m10, a.m11, a.m12, v.x, v.y, v.z),
        z: dot3_s(a.m20, a.m21, a.m22, v.x, v.y, v.z),
    }
}

pub fn mat3_apply(a: Mat3, v: Vec3fx) -> (r: Vec3fx)
    ensures
        r == mat3_apply_s(a, v),
{
    Vec3fx {
        x: dot3(a.m00, a.m01, a.m02, v.x, v.y, v.z),
        y: dot3(a.m10, a.m11, a.m12, v.x, v.y, v.z),
        z: dot3(a.m20, a.m21, a.m22, v.x, v.y, v.z),
    }
}

/// The fixed-point determinant of a 3x3 matrix.
pub open spec fn mat3_det_s(a: Mat3) -> i64 {
    cof3_s(
        a.m00,
        det2_s(a.m11, a.m22, a.m12, a.m21),
        a.m01,
        det2_s(a.m10, a.m22, a.m12, a.m20),
        a.m02,
        det2_s(a.m10, a.m21, a.m11, a.m20),
    )
}

/// The 3x3 inverse when the fixed-point determinant is nonzero.
pub open spec fn mat3_invert_s(a: Mat3) -> Option<Mat3> {
    let det = mat3_det_s(a);
    if det == 0 {
        None
    } else {
        Some(Mat3 {
            m00: fxd(det2_s(a.m11, a.m22, a.m12, a.m21), det),
            m01: fxd(det2_s(a.m02, a.m21, a.m01, a.m22), det),
            m02: fxd(det2_s(a.m01, a.m12, a.m02, a.m11), det),
            m10: fxd(det2_s(a.m12, a.m20, a.m10, a.m22), det),
            m11: fxd(det2_s(a.m00, a.m22, a.m02, a.m20), det),
            m12: fxd(det2_s(a.m02, a.m10, a.m00, a.m12), det),
            m20: fxd(det2_s(a.m10, a.m21, a.m11, a.m20), det),
            m21: fxd(det2_s(a.m01, a.m20, a.m00, a.m21), det),
            m22: fxd(det2_s(a.m00, a.m11, a.m01, a.m10), det),
        })
    }
}

/// Invert a 3x3 matrix; fails exactly on a zero fixed-point
/// determinant.
pub fn mat3_invert(a: Mat3) -> (r: Option<Mat3>)
    ensures
        r == mat3_invert_s(a),
        r is Some <==> mat3_det_s(a) != 0,
{
    let det = cof3(
        a.m00,
        det2(a.m11, a.m22, a.m12, a.m21),
        a.m01,
        det2(a.m10, a.m22, a.m12, a.m20),
        a.m02,
        det2(a.m10, a.m21, a.m11, a.m20),
    );
    if det == 0 {
        None
    } else {
        Some(Mat3 {
            m00: fx_div(det2(a.m11, a.m22, a.m12, a.m21), det),
            m01: fx_div(det2(a.m02, a.m21, a.m01, a.m22), det),
            m02: fx_div(det2(a.m01, a.m12, a.m02, a.m11), det),
            m10: fx_div(det2(a.m12, a.m20, a.m10, a.m22), det),
            m11: fx_div(det2(a.m00, a.m22, a.m02, a.m20), det),
            m12: fx_div(det2(a.m02, a.m10, a.m00, a.m12), det),
            m20: fx_div(det2(a.m10, a.m21, a.m11, a.m20), det),
            m21: fx_div(det2(a.m01, a.m20, a.m00, a.m21), det),
            m22: fx_div(det2(a.m00, a.m11, a.m01, a.m10), det),
        })
    }
}

} // verus!