//! The transform builder: view (look-at), projection and viewport
//! matrices, composed as `viewport * projection * view`.

use vstd::prelude::*;

use crate::fx::fx_add;
use crate::fx::fx_sub;
use crate::fx::fxa;
use crate::fx::fxsb;
use crate::fx::sdiv;
use crate::fx::FX_ONE;
use crate::geom::mat4_mul;
use crate::geom::mat4_mul_s;
use crate::geom::v3_cross;
use crate::geom::v3_cross_s;
use crate::geom::v3_norm;
use crate::geom::v3_norm_s;
use crate::geom::v3_sub;
use crate::geom::v3_sub_s;
use crate::geom::Mat4;
use crate::geom::Vec3fx;
use crate::geom::Vec4fx;

verus! {

/// Depth range upper end: stored depth values run from 0 to 255.
pub const DEPTH_FX: i64 = 16711680;

/// Half the depth range (127.5) in fixed point.
pub const DEPTH_HALF_FX: i64 = 8355840;

/// Halve a fixed-point value, truncating toward zero.
pub open spec fn fx_half_s(v: i64) -> i64 {
    sdiv(v as int, 2) as i64
}

/// Halve a fixed-point value, truncating toward zero.
pub fn fx_half(v: i64) -> (r: i64)
    ensures
        r == fx_half_s(v),
{
    proof {
        crate::fx::lemma_sdiv_bounds(v as int, 2);
    }
    let q: i128 = crate::fx::sdiv128(v as i128, 2);
    q as i64
}

/// The viewport matrix: scales normalized device coordinates in
/// `[-1, 1]` into the pixel rectangle at `(x, y)` of size
/// `width x height`, and depth into `[0, 255]`.  All arguments are
/// fixed-point pixel units.
pub open spec fn viewport_s(x: i64, y: i64, width: i64, height: i64) -> Mat4 {
    Mat4 {
        m00: fx_half_s(width), m01: 0, m02: 0, m03: fxa(x, fx_half_s(width)),
        m10: 0, m11: fx_half_s(height), m12: 0, m13: fxa(y, fx_half_s(height)),
        m20: 0, m21: 0, m22: DEPTH_HALF_FX, m23: DEPTH_HALF_FX,
        m30: 0, m31: 0, m32: 0, m33: FX_ONE,
    }
}

/// Build the viewport matrix.
pub fn viewport(x: i64, y: i64, width: i64, height: i64) -> (r: Mat4)
    ensures
        r == viewport_s(x, y, width, height),
{
    let hw = fx_half(width);
    let hh = fx_half(height);
    Mat4 {
        m00: hw, m01: 0, m02: 0, m03: fx_add(x, hw),
        m10: 0, m11: hh, m12: 0, m13: fx_add(y, hh),
        m20: 0, m21: 0, m22: DEPTH_HALF_FX, m23: DEPTH_HALF_FX,
        m30: 0, m31: 0, m32: 0, m33: FX_ONE,
    }
}

/// The projection matrix: the identity with entry (3,2) set to `coeff`,
/// the reciprocal-distance term of the perspective divide; `coeff == 0`
/// is an orthographic projection.
pub open spec fn projection_s(coeff: i64) -> Mat4 {
    Mat4 {
        m00: FX_ONE, m01: 0, m02: 0, m03: 0,
        m10: 0, m11: FX_ONE, m12: 0, m13: 0,
        m20: 0, m21: 0, m22: FX_ONE, m23: 0,
        m30: 0, m31: 0, m32: coeff, m33: FX_ONE,
    }
}

/// Build the projection matrix.
pub fn projection(coeff: i64) -> (r: Mat4)
    ensures
        r == projection_s(coeff),
{
    Mat4 {
        m00: FX_ONE, m01: 0, m02: 0, m03: 0,
        m10: 0, m11: FX_ONE, m12: 0, m13: 0,
        m20: 0, m21: 0, m22: FX_ONE, m23: 0,
        m30: 0, m31: 0, m32: coeff, m33: FX_ONE,
    }
}

/// The camera basis of a look-at transform: `z` points from the center
/// toward the eye, `x` and `y` complete a right-handed frame around the
/// `up` hint.
pub open spec fn lookat_basis_s(eye: Vec3fx, center: Vec3fx, up: Vec3fx) -> (Vec3fx, Vec3fx, Vec3fx) {
    let z = v3_norm_s(v3_sub_s(eye, center));
    let x = v3_norm_s(v3_cross_s(up, z));
    let y = v3_norm_s(v3_cross_s(z, x));
    (x, y, z)
}

/// The look-at view matrix: rotation by the transposed camera basis
/// composed with a translation moving `center` to the origin.  `up` must
/// not be parallel to `eye - center`; a parallel `up` degenerates the
/// cross product and the result is meaningless (though still defined,
/// since all arithmetic here is total).
pub open spec fn lookat_s(eye: Vec3fx, center: Vec3fx, up: Vec3fx) -> Mat4 {
    let (x, y, z) = lookat_basis_s(eye, center, up);
    let minv = Mat4 {
        m00: x.x, m01: x.y, m02: x.z, m03: 0,
        m10: y.x, m11: y.y, m12: y.z, m13: 0,
        m20: z.x, m21: z.y, m22: z.z, m23: 0,
        m30: 0, m31: 0, m32: 0, m33: FX_ONE,
    };
    let tr = Mat4 {
        m00: FX_ONE, m01: 0, m02: 0, m03: fxsb(0, center.x),
        m10: 0, m11: FX_ONE, m12: 0, m13: fxsb(0, center.y),
        m20: 0, m21: 0, m22: FX_ONE, m23: fxsb(0, center.z),
        m30: 0, m31: 0, m32: 0, m33: FX_ONE,
    };
    mat4_mul_s(minv, tr)
}

/// Build the look-at view matrix.
pub fn lookat(eye: Vec3fx, center: Vec3fx, up: Vec3fx) -> (r: Mat4)
    ensures
        r == lookat_s(eye, center, up),
{
    let z = v3_norm(v3_sub(eye, center));
    let x = v3_norm(v3_cross(up, z));
    let y = v3_norm(v3_cross(z, x));
    let minv = Mat4 {
        m00: x.x, m01: x.y, m02: x.z, m03: 0,
        m10: y.x, m11: y.y, m12: y.z, m13: 0,
        m20: z.x, m21: z.y, m22: z.z, m23: 0,
        m30: 0, m31: 0, m32: 0, m33: FX_ONE,
    };
    let tr = Mat4 {
        m00: FX_ONE, m01: 0, m02: 0, m03: fx_sub(0, center.x),
        m10: 0, m11: FX_ONE, m12: 0, m13: fx_sub(0, center.y),
        m20: 0, m21: 0, m22: FX_ONE, m23: fx_sub(0, center.z),
        m30: 0, m31: 0, m32: 0, m33: FX_ONE,
    };
    mat4_mul(minv, tr)
}


/// Any point of the normalized-device cube (coordinates in `[-1, 1]`,
/// `w == 1`), carried through a viewport built for a canvas rectangle
/// and the perspective divide, lands inside that rectangle with depth
/// in `[0, 255]` -- the round-trip of a point the transform pipeline
/// considers visible stays within the configured canvas bounds.
pub proof fn lemma_viewport_maps_into_canvas(x: i64, y: i64, w: i64, h: i64, v: Vec4fx)
    requires
        0 <= x,
        0 <= y,
        0 <= w,
        0 <= h,
        x + w <= 1073741824,
        y + h <= 1073741824,
        v.w == FX_ONE,
        -FX_ONE <= v.x <= FX_ONE,
        -FX_ONE <= v.y <= FX_ONE,
        -FX_ONE <= v.z <= FX_ONE,
    ensures
        ({
            let p = crate::geom::v4_project_s(crate::geom::mat4_apply_s(viewport_s(x, y, w, h), v));
            &&& x <= p.x <= x + w
            &&& y <= p.y <= y + h
            &&& 0 <= p.z <= DEPTH_FX
        }),
{
    let m = viewport_s(x, y, w, h);
    let hw = fx_half_s(w);
    let hh = fx_half_s(h);
    let k = FX_ONE as int;
    vstd::arithmetic::div_mod::lemma_fundamental_div_mod(w as int, 2);
    vstd::arithmetic::div_mod::lemma_mod_division_less_than_divisor(w as int, 2);
    vstd::arithmetic::div_mod::lemma_fundamental_div_mod(h as int, 2);
    vstd::arithmetic::div_mod::lemma_mod_division_less_than_divisor(h as int, 2);
    assert(0 <= hw && 2 * (hw as int) <= w);
    assert(0 <= hh && 2 * (hh as int) <= h);
    // each scaled coordinate stays within half the rectangle
    assert(-((hw as int) * k) <= (hw as int) * (v.x as int) <= (hw as int) * k) by (nonlinear_arith)
        requires
            0 <= hw as int,
            -65536 <= v.x as int <= 65536,
            k == 65536,
    {}
    assert(-((hh as int) * k) <= (hh as int) * (v.y as int) <= (hh as int) * k) by (nonlinear_arith)
        requires
            0 <= hh as int,
            -65536 <= v.y as int <= 65536,
            k == 65536,
    {}
    assert(-((DEPTH_HALF_FX as int) * k) <= (DEPTH_HALF_FX as int) * (v.z as int) <= (
    DEPTH_HALF_FX as int) * k) by (nonlinear_arith)
        requires
            -65536 <= v.z as int <= 65536,
            k == 65536,
    {}
    crate::fx::lemma_sdiv_within((hw as int) * (v.x as int), k, hw as int);
    crate::fx::lemma_sdiv_within((hh as int) * (v.y as int), k, hh as int);
    crate::fx::lemma_sdiv_within((DEPTH_HALF_FX as int) * (v.z as int), k, DEPTH_HALF_FX as int);
    // multiplying a value by one is exact
    vstd::arithmetic::div_mod::lemma_div_by_multiple(x as int + hw as int, k);
    vstd::arithmetic::div_mod::lemma_div_by_multiple(y as int + hh as int, k);
    vstd::arithmetic::div_mod::lemma_div_by_multiple(DEPTH_HALF_FX as int, k);
    vstd::arithmetic::div_mod::lemma_div_by_multiple(FX_ONE as int, k);
    let av = crate::geom::mat4_apply_s(m, v);
    assert(av.w == FX_ONE);
    assert(x as int <= av.x as int <= x as int + w as int);
    assert(y as int <= av.y as int <= y as int + h as int);
    assert(0 <= av.z as int <= DEPTH_FX as int);
    // the perspective divide by w == 1 is exact
    vstd::arithmetic::div_mod::lemma_div_by_multiple(av.x as int, k);
    vstd::arithmetic::div_mod::lemma_div_by_multiple(av.y as int, k);
    vstd::arithmetic::div_mod::lemma_div_by_multiple(av.z as int, k);
    let p = crate::geom::v4_project_s(av);
    assert(p.x == av.x);
    assert(p.y == av.y);
    assert(p.z == av.z);
}

} // verus!
