//! The triangle rasterizer: screen-space bounding box, exact
//! barycentric coverage via 2-D cross products, perspective-correct
//! depth, depth test, and the per-pixel shader call.
//!
//! The whole rasterizer is specified as a pure fold over the bounding
//! box pixels (`triangle_s`); the executable `triangle` computes
//! exactly that fold.

use vstd::prelude::*;

use crate::buffer::fx_trunc;
use crate::buffer::fx_trunc_s;
use crate::buffer::pix_index;
use crate::buffer::GrayBuffer;
use crate::buffer::Rgb;
use crate::buffer::RgbBuffer;
use crate::fx::sat_s;
use crate::fx::sdiv;
use crate::fx::FX_ONE;
use crate::fx::FX_SAT;
use crate::geom::interp3;
use crate::geom::interp3_s;
use crate::geom::v4_project;
use crate::geom::v4_project_s;
use crate::geom::Vec3fx;
use crate::geom::Vec4fx;
use crate::shader::Shader;
use crate::transform::DEPTH_FX;
use crate::RenderError;

verus! {

/// Degeneracy threshold for the barycentric denominator: cross products
/// whose magnitude does not exceed this (about 0.01 in squared
/// fixed-point units) mark the triangle as having no usable area.
pub const EPS_CROSS: i128 = 42949672;

/// The three homogeneous clip-space corners of one triangle.
#[derive(Clone, Copy, PartialEq, Eq, Structural, Debug)]
pub struct ClipTri {
    pub v0: Vec4fx,
    pub v1: Vec4fx,
    pub v2: Vec4fx,
}

/// Rasterizer state threaded through the per-pixel fold: a possible
/// fatal error, the color data and the depth data.
pub type RasterState = (Result<(), RenderError>, Seq<Rgb>, Seq<u8>);

/// Smaller of two integers.
pub open spec fn imin(a: int, b: int) -> int {
    if a <= b {
        a
    } else {
        b
    }
}

/// Larger of two integers.
pub open spec fn imax(a: int, b: int) -> int {
    if a >= b {
        a
    } else {
        b
    }
}

/// First cross-product component of the barycentric construction.
pub open spec fn bary_ux_s(p0: Vec3fx, p1: Vec3fx, p2: Vec3fx, px: int, py: int) -> int {
    (p1.x - p0.x) * (p0.y - py) - (p0.x - px) * (p1.y - p0.y)
}

/// Second cross-product component of the barycentric construction.
pub open spec fn bary_uy_s(p0: Vec3fx, p1: Vec3fx, p2: Vec3fx, px: int, py: int) -> int {
    (p0.x - px) * (p2.y - p0.y) - (p2.x - p0.x) * (p0.y - py)
}

/// The barycentric denominator: twice the triangle's signed screen
/// area.
pub open spec fn bary_uz_s(p0: Vec3fx, p1: Vec3fx, p2: Vec3fx) -> int {
    (p2.x - p0.x) * (p1.y - p0.y) - (p1.x - p0.x) * (p2.y - p0.y)
}

/// The pixel is covered: the denominator clears the degeneracy
/// threshold and all three barycentric numerators share its sign, so
/// all three real-valued weights are at least zero.
pub open spec fn bary_covered_s(ux: int, uy: int, uz: int) -> bool {
    &&& (uz > EPS_CROSS as int || uz < -(EPS_CROSS as int))
    &&& (if uz > 0 {
        uz - ux - uy >= 0 && uy >= 0 && ux >= 0
    } else {
        uz - ux - uy <= 0 && uy <= 0 && ux <= 0
    })
}

/// One fixed-point barycentric weight: the rational `n / uz` in 16.16.
pub open spec fn bary_weight_s(n: int, uz: int) -> i64
    recommends
        uz != 0,
{
    sat_s(sdiv(n * (FX_ONE as int), uz)) as i64
}

/// The three fixed-point weights handed to the fragment stage.
pub open spec fn bary_weights_s(ux: int, uy: int, uz: int) -> Vec3fx
    recommends
        uz != 0,
{
    Vec3fx { x: bary_weight_s(uz - ux - uy, uz), y: bary_weight_s(uy, uz), z: bary_weight_s(ux, uz) }
}

/// The stored depth byte: the perspective-correct `z / w`, clamped to
/// `[0, 255]` and truncated to whole units.
pub open spec fn depth_byte_s(z: i64, w: i64) -> u8 {
    let q = crate::fx::fxd(z, w);
    if q < 0 {
        0
    } else if q > DEPTH_FX {
        255
    } else {
        sdiv(q as int, FX_ONE as int) as u8
    }
}

/// Process one candidate pixel `(x, y)`: barycentric coverage test,
/// perspective-correct depth, depth test, fragment call, and the
/// conditional color/depth write.  An already-failed state passes
/// through unchanged.
pub open spec fn pixel_step_s<S: Shader>(s: S, t: ClipTri, wd: int, x: int, y: int, st: RasterState) -> RasterState {
    if st.0 is Err {
        st
    } else {
        let p0 = v4_project_s(t.v0);
        let p1 = v4_project_s(t.v1);
        let p2 = v4_project_s(t.v2);
        let px = x * (FX_ONE as int);
        let py = y * (FX_ONE as int);
        let ux = bary_ux_s(p0, p1, p2, px, py);
        let uy = bary_uy_s(p0, p1, p2, px, py);
        let uz = bary_uz_s(p0, p1, p2);
        if !bary_covered_s(ux, uy, uz) {
            st
        } else {
            let c = bary_weights_s(ux, uy, uz);
            let z = interp3_s(t.v0.z, t.v1.z, t.v2.z, c.x, c.y, c.z);
            let w = interp3_s(t.v0.w, t.v1.w, t.v2.w, c.x, c.y, c.z);
            let d = depth_byte_s(z, w);
            if st.2[pix_index(wd, x, y)] >= d {
                st
            } else {
                match s.frag_spec(c) {
                    Result::Err(e) => (Result::Err(e), st.1, st.2),
                    Result::Ok(f) => if f.keep {
                        (
                            Result::Ok(()),
                            st.1.update(pix_index(wd, x, y), f.color),
                            st.2.update(pix_index(wd, x, y), d),
                        )
                    } else {
                        st
                    },
                }
            }
        }
    }
}

/// Fold `pixel_step_s` down one pixel column, rows `y` up to `yend`.
pub open spec fn col_fold_s<S: Shader>(s: S, t: ClipTri, wd: int, x: int, y: int, yend: int, st: RasterState) -> RasterState
    decreases yend - y,
{
    if y >= yend {
        st
    } else {
        col_fold_s(s, t, wd, x, y + 1, yend, pixel_step_s(s, t, wd, x, y, st))
    }
}

/// Fold whole pixel columns, `x` up to `xend`.
pub open spec fn box_fold_s<S: Shader>(s: S, t: ClipTri, wd: int, x: int, xend: int, y0: int, yend: int, st: RasterState) -> RasterState
    decreases xend - x,
{
    if x >= xend {
        st
    } else {
        box_fold_s(s, t, wd, x + 1, xend, y0, yend, col_fold_s(s, t, wd, x, y0, yend, st))
    }
}

/// The whole triangle: skip it entirely when any screen coordinate is
/// negative (triangles are assumed pre-clipped to the positive
/// quadrant); otherwise fold the pixel steps over the screen bounding
/// box clamped to the canvas.
pub open spec fn triangle_s<S: Shader>(s: S, t: ClipTri, wd: int, ht: int, st: RasterState) -> RasterState {
    let p0 = v4_project_s(t.v0);
    let p1 = v4_project_s(t.v1);
    let p2 = v4_project_s(t.v2);
    if p0.x < 0 || p0.y < 0 || p1.x < 0 || p1.y < 0 || p2.x < 0 || p2.y < 0 {
        st
    } else {
        let x0 = imin(imin(fx_trunc_s(p0.x), fx_trunc_s(p1.x)), fx_trunc_s(p2.x));
        let x1 = imin(imax(imax(fx_trunc_s(p0.x), fx_trunc_s(p1.x)), fx_trunc_s(p2.x)), wd - 1);
        let y0 = imin(imin(fx_trunc_s(p0.y), fx_trunc_s(p1.y)), fx_trunc_s(p2.y));
        let y1 = imin(imax(imax(fx_trunc_s(p0.y), fx_trunc_s(p1.y)), fx_trunc_s(p2.y)), ht - 1);
        box_fold_s(s, t, wd, x0, x1 + 1, y0, y1 + 1, st)
    }
}

/// Exact 2-D cross product `a * b - c * d` over bounded inputs.
fn cross2(a: i128, b: i128, c: i128, d: i128) -> (r: i128)
    requires
        -0x1_0000_0000_0000 <= a <= 0x1_0000_0000_0000,
        -0x1_0000_0000_0000 <= b <= 0x1_0000_0000_0000,
        -0x1_0000_0000_0000 <= c <= 0x1_0000_0000_0000,
        -0x1_0000_0000_0000 <= d <= 0x1_0000_0000_0000,
    ensures
        r as int == (a as int) * (b as int) - (c as int) * (d as int),
        -0x2_0000_0000_0000_0000_0000_0000int <= r as int <= 0x2_0000_0000_0000_0000_0000_0000int,
{
    proof {
        assert((a as int) * (b as int) <= 0x1_0000_0000_0000_0000_0000_0000int
            && (a as int) * (b as int) >= -0x1_0000_0000_0000_0000_0000_0000int
            && (c as int) * (d as int) <= 0x1_0000_0000_0000_0000_0000_0000int
            && (c as int) * (d as int) >= -0x1_0000_0000_0000_0000_0000_0000int)
            by (nonlinear_arith)
            requires
                -0x1_0000_0000_0000 <= a as int <= 0x1_0000_0000_0000,
                -0x1_0000_0000_0000 <= b as int <= 0x1_0000_0000_0000,
                -0x1_0000_0000_0000 <= c as int <= 0x1_0000_0000_0000,
                -0x1_0000_0000_0000 <= d as int <= 0x1_0000_0000_0000,
        {}
    }
    a * b - c * d
}

/// One fixed-point barycentric weight from a numerator and the
/// denominator.
fn bary_weight(n: i128, uz: i128) -> (r: i64)
    requires
        uz != 0,
        -0x1000_0000_0000_0000_0000_0000_0000 <= n <= 0x1000_0000_0000_0000_0000_0000_0000,
    ensures
        r as int == bary_weight_s(n as int, uz as int) as int,
{
    let m: i128 = n * 65536;
    let q: i128 = crate::fx::sdiv128(m, uz);
    proof {
        crate::fx::lemma_sdiv_bounds(m as int, uz as int);
    }
    if q > FX_SAT as i128 {
        FX_SAT
    } else if q < -(FX_SAT as i128) {
        -FX_SAT
    } else {
        q as i64
    }
}

/// The stored depth byte for interpolated clip `z` and `w`.
fn depth_byte(z: i64, w: i64) -> (r: u8)
    ensures
        r == depth_byte_s(z, w),
{
    let q = crate::fx::fx_div(z, w);
    if q < 0 {
        0
    } else if q > DEPTH_FX {
        255
    } else {
        proof {
            crate::fx::lemma_sdiv_within(q as int, FX_ONE as int, 255);
        }
        let t = fx_trunc(q);
        t as u8
    }
}

/// Rasterize one in-canvas candidate pixel, starting from a clean
/// (error-free) state.
fn raster_pixel<S: Shader>(shader: &S, t: &ClipTri, x: usize, y: usize, cb: &mut RgbBuffer, db: &mut GrayBuffer) -> (r: Result<(), RenderError>)
    requires
        shader.wf(),
        old(cb).wf(),
        old(db).wf(),
        old(cb).spec_width() == old(db).spec_width(),
        old(cb).spec_height() == old(db).spec_height(),
        x < old(cb).spec_width(),
        y < old(cb).spec_height(),
    ensures
        final(cb).wf(),
        final(db).wf(),
        final(cb).spec_width() == old(cb).spec_width(),
        final(cb).spec_height() == old(cb).spec_height(),
        final(db).spec_width() == old(db).spec_width(),
        final(db).spec_height() == old(db).spec_height(),
        (r, final(cb).view_data(), final(db).view_data()) == pixel_step_s(
            *shader,
            *t,
            old(cb).spec_width(),
            x as int,
            y as int,
            (Result::<(), RenderError>::Ok(()), old(cb).view_data(), old(db).view_data()),
        ),
{
    let p0 = v4_project(t.v0);
    let p1 = v4_project(t.v1);
    let p2 = v4_project(t.v2);
    let px: i64 = (x as i64) * 65536;
    let py: i64 = (y as i64) * 65536;
    let dx10: i128 = (p1.x as i128) - (p0.x as i128);
    let dy10: i128 = (p1.y as i128) - (p0.y as i128);
    let dx20: i128 = (p2.x as i128) - (p0.x as i128);
    let dy20: i128 = (p2.y as i128) - (p0.y as i128);
    let dxp: i128 = (p0.x as i128) - (px as i128);
    let dyp: i128 = (p0.y as i128) - (py as i128);
    let ux = cross2(dx10, dyp, dxp, dy10);
    let uy = cross2(dxp, dy20, dx20, dyp);
    let uz = cross2(dx20, dy10, dx10, dy20);
    let n0: i128 = uz - ux - uy;
    let degenerate = -EPS_CROSS <= uz && uz <= EPS_CROSS;
    let covered = !degenerate && (if uz > 0 {
        n0 >= 0 && uy >= 0 && ux >= 0
    } else {
        n0 <= 0 && uy <= 0 && ux <= 0
    });
    if !covered {
        return Result::Ok(());
    }
    let c0 = bary_weight(n0, uz);
    let c1 = bary_weight(uy, uz);
    let c2 = bary_weight(ux, uz);
    let c = Vec3fx { x: c0, y: c1, z: c2 };
    let z = interp3(t.v0.z, t.v1.z, t.v2.z, c0, c1, c2);
    let w = interp3(t.v0.w, t.v1.w, t.v2.w, c0, c1, c2);
    let d = depth_byte(z, w);
    if db.get_pixel(x, y) >= d {
        return Result::Ok(());
    }
    match shader.fragment(c) {
        Result::Err(e) => Result::Err(e),
        Result::Ok(f) => {
            if f.keep {
                cb.put_pixel(x, y, f.color);
                db.put_pixel(x, y, d);
            }
            Result::Ok(())
        },
    }
}

/// Rasterize one triangle into the color and depth buffers.  The
/// result and the buffers afterward are exactly the pixel fold
/// `triangle_s`; on an error the buffers hold the pixels written before
/// the failing one, and the render must be abandoned.
pub fn triangle<S: Shader>(t: &ClipTri, shader: &S, cb: &mut RgbBuffer, db: &mut GrayBuffer) -> (r: Result<(), RenderError>)
    requires
        shader.wf(),
        old(cb).wf(),
        old(db).wf(),
        old(cb).spec_width() == old(db).spec_width(),
        old(cb).spec_height() == old(db).spec_height(),
    ensures
        final(cb).wf(),
        final(db).wf(),
        final(cb).spec_width() == old(cb).spec_width(),
        final(cb).spec_height() == old(cb).spec_height(),
        final(db).spec_width() == old(db).spec_width(),
        final(db).spec_height() == old(db).spec_height(),
        (r, final(cb).view_data(), final(db).view_data()) == triangle_s(
            *shader,
            *t,
            old(cb).spec_width(),
            old(cb).spec_height(),
            (Result::<(), RenderError>::Ok(()), old(cb).view_data(), old(db).view_data()),
        ),
{
    let ghost wd = old(cb).spec_width();
    let ghost ht = old(cb).spec_height();
    let ghost st0: RasterState = (Result::<(), RenderError>::Ok(()), old(cb).view_data(), old(db).view_data());
    let p0 = v4_project(t.v0);
    let p1 = v4_project(t.v1);
    let p2 = v4_project(t.v2);
    if p0.x < 0 || p0.y < 0 || p1.x < 0 || p1.y < 0 || p2.x < 0 || p2.y < 0 {
        return Result::Ok(());
    }
    let t0x = fx_trunc(p0.x);
    let t1x = fx_trunc(p1.x);
    let t2x = fx_trunc(p2.x);
    let t0y = fx_trunc(p0.y);
    let t1y = fx_trunc(p1.y);
    let t2y = fx_trunc(p2.y);
    let x0: i64 = if t0x <= t1x && t0x <= t2x {
        t0x
    } else if t1x <= t2x {
        t1x
    } else {
        t2x
    };
    let xm: i64 = if t0x >= t1x && t0x >= t2x {
        t0x
    } else if t1x >= t2x {
        t1x
    } else {
        t2x
    };
    let y0: i64 = if t0y <= t1y && t0y <= t2y {
        t0y
    } else if t1y <= t2y {
        t1y
    } else {
        t2y
    };
    let ym: i64 = if t0y >= t1y && t0y >= t2y {
        t0y
    } else if t1y >= t2y {
        t1y
    } else {
        t2y
    };
    let wlim: i64 = cb.width() as i64 - 1;
    let hlim: i64 = cb.height() as i64 - 1;
    let x1: i64 = if xm <= wlim {
        xm
    } else {
        wlim
    };
    let y1: i64 = if ym <= hlim {
        ym
    } else {
        hlim
    };
    proof {
        assert(x0 as int == imin(imin(fx_trunc_s(p0.x), fx_trunc_s(p1.x)), fx_trunc_s(p2.x)));
        assert(x1 as int == imin(imax(imax(fx_trunc_s(p0.x), fx_trunc_s(p1.x)), fx_trunc_s(p2.x)), wd - 1));
        assert(y0 as int == imin(imin(fx_trunc_s(p0.y), fx_trunc_s(p1.y)), fx_trunc_s(p2.y)));
        assert(y1 as int == imin(imax(imax(fx_trunc_s(p0.y), fx_trunc_s(p1.y)), fx_trunc_s(p2.y)), ht - 1));
    }
    let mut err: Result<(), RenderError> = Result::Ok(());
    let mut x: i64 = x0;
    while x <= x1
        invariant
            shader.wf(),
            cb.wf(),
            db.wf(),
            cb.spec_width() == wd,
            cb.spec_height() == ht,
            db.spec_width() == wd,
            db.spec_height() == ht,
            0 <= x0,
            x0 <= x,
            x1 < wd,
            0 <= y0,
            y1 < ht,
            box_fold_s(
                *shader,
                *t,
                wd,
                x as int,
                x1 + 1,
                y0 as int,
                y1 + 1,
                (err, cb.view_data(), db.view_data()),
            ) == box_fold_s(*shader, *t, wd, x0 as int, x1 + 1, y0 as int, y1 + 1, st0),
        decreases x1 + 1 - x,
    {
        let mut y: i64 = y0;
        while y <= y1
            invariant
                shader.wf(),
                cb.wf(),
                db.wf(),
                cb.spec_width() == wd,
                cb.spec_height() == ht,
                db.spec_width() == wd,
                db.spec_height() == ht,
                0 <= x0,
                x0 <= x,
                x <= x1,
                x1 < wd,
                0 <= y0,
                y0 <= y,
                y1 < ht,
                box_fold_s(
                    *shader,
                    *t,
                    wd,
                    x as int + 1,
                    x1 + 1,
                    y0 as int,
                    y1 + 1,
                    col_fold_s(
                        *shader,
                        *t,
                        wd,
                        x as int,
                        y as int,
                        y1 + 1,
                        (err, cb.view_data(), db.view_data()),
                    ),
                ) == box_fold_s(*shader, *t, wd, x0 as int, x1 + 1, y0 as int, y1 + 1, st0),
            decreases y1 + 1 - y,
        {
            let ghost st_before: RasterState = (err, cb.view_data(), db.view_data());
            if err.is_ok() {
                proof {
                    assert(err->Ok_0 == ());
                    assert(err == Result::<(), RenderError>::Ok(err->Ok_0));
                }
                err = raster_pixel(shader, t, x as usize, y as usize, cb, db);
            }
            proof {
                let st_after: RasterState = (err, cb.view_data(), db.view_data());
                assert(pixel_step_s(*shader, *t, wd, x as int, y as int, st_before) == st_after);
                assert(col_fold_s(*shader, *t, wd, x as int, y as int, y1 + 1, st_before)
                    == col_fold_s(*shader, *t, wd, x as int, y as int + 1, y1 + 1, st_after));
            }
            y += 1;
        }
        x += 1;
    }
    proof {
        assert(triangle_s(*shader, *t, wd, ht, st0) == box_fold_s(
            *shader,
            *t,
            wd,
            x0 as int,
            x1 + 1,
            y0 as int,
            y1 + 1,
            st0,
        ));
    }
    err
}

/// The edge function: positive when `(px, py)` lies to the left of the
/// directed line from `a` to `b`.
pub open spec fn edge_s(ax: int, ay: int, bx: int, by: int, px: int, py: int) -> int {
    (bx - ax) * (py - ay) - (by - ay) * (px - ax)
}

/// The point lies strictly inside the triangle: all three edge
/// functions strictly agree with the triangle's orientation.
pub open spec fn strictly_inside_s(p0: Vec3fx, p1: Vec3fx, p2: Vec3fx, px: int, py: int) -> bool {
    let area = edge_s(p0.x as int, p0.y as int, p1.x as int, p1.y as int, p2.x as int, p2.y as int);
    let e01 = edge_s(p0.x as int, p0.y as int, p1.x as int, p1.y as int, px, py);
    let e12 = edge_s(p1.x as int, p1.y as int, p2.x as int, p2.y as int, px, py);
    let e20 = edge_s(p2.x as int, p2.y as int, p0.x as int, p0.y as int, px, py);
    (area > 0 && e01 > 0 && e12 > 0 && e20 > 0) || (area < 0 && e01 < 0 && e12 < 0 && e20 < 0)
}

/// The point lies strictly beyond at least one edge of the triangle.
pub open spec fn strictly_outside_s(p0: Vec3fx, p1: Vec3fx, p2: Vec3fx, px: int, py: int) -> bool {
    let area = edge_s(p0.x as int, p0.y as int, p1.x as int, p1.y as int, p2.x as int, p2.y as int);
    let e01 = edge_s(p0.x as int, p0.y as int, p1.x as int, p1.y as int, px, py);
    let e12 = edge_s(p1.x as int, p1.y as int, p2.x as int, p2.y as int, px, py);
    let e20 = edge_s(p2.x as int, p2.y as int, p0.x as int, p0.y as int, px, py);
    (area > 0 && (e01 < 0 || e12 < 0 || e20 < 0)) || (area < 0 && (e01 > 0 || e12 > 0 || e20 > 0))
}

/// The barycentric numerators are exactly the (negated) edge functions:
/// the cross-product construction computes the classical edge-function
/// weights, and the three numerators sum exactly to the denominator.
pub proof fn lemma_bary_numerators_are_edges(p0: Vec3fx, p1: Vec3fx, p2: Vec3fx, px: int, py: int)
    ensures
        bary_ux_s(p0, p1, p2, px, py) == -edge_s(
            p0.x as int, p0.y as int, p1.x as int, p1.y as int, px, py),
        bary_uy_s(p0, p1, p2, px, py) == -edge_s(
            p2.x as int, p2.y as int, p0.x as int, p0.y as int, px, py),
        bary_uz_s(p0, p1, p2) == -edge_s(
            p0.x as int, p0.y as int, p1.x as int, p1.y as int, p2.x as int, p2.y as int),
        bary_uz_s(p0, p1, p2) - bary_ux_s(p0, p1, p2, px, py) - bary_uy_s(p0, p1, p2, px, py)
            == -edge_s(p1.x as int, p1.y as int, p2.x as int, p2.y as int, px, py),
{
    let ax = p0.x as int;
    let ay = p0.y as int;
    let bx = p1.x as int;
    let by = p1.y as int;
    let cx = p2.x as int;
    let cy = p2.y as int;
    assert((bx - ax) * (ay - py) - (ax - px) * (by - ay) == -((bx - ax) * (py - ay) - (by - ay) * (
    px - ax))) by (nonlinear_arith);
    assert((ax - px) * (cy - ay) - (cx - ax) * (ay - py) == -((ax - cx) * (py - cy) - (ay - cy) * (
    px - cx))) by (nonlinear_arith);
    assert((cx - ax) * (by - ay) - (bx - ax) * (cy - ay) == -((bx - ax) * (cy - ay) - (by - ay) * (
    cx - ax))) by (nonlinear_arith);
    assert(((cx - ax) * (by - ay) - (bx - ax) * (cy - ay)) - ((bx - ax) * (ay - py) - (ax - px) * (
    by - ay)) - ((ax - px) * (cy - ay) - (cx - ax) * (ay - py)) == -((cx - bx) * (py - by) - (cy
        - by) * (px - bx))) by (nonlinear_arith);
}

/// For a point strictly inside a non-degenerate triangle, all three
/// real-valued barycentric weights are strictly positive (each
/// numerator strictly agrees in sign with the denominator), and the
/// numerators sum exactly to the denominator, so the weights sum
/// exactly to 1.  For a point strictly outside, at least one weight is
/// strictly negative.
pub proof fn lemma_barycentric_weights(p0: Vec3fx, p1: Vec3fx, p2: Vec3fx, px: int, py: int)
    ensures
        ({
            let ux = bary_ux_s(p0, p1, p2, px, py);
            let uy = bary_uy_s(p0, p1, p2, px, py);
            let uz = bary_uz_s(p0, p1, p2);
            &&& (uz - ux - uy) + uy + ux == uz
            &&& (strictly_inside_s(p0, p1, p2, px, py) ==> (uz - ux - uy) * uz > 0 && uy * uz > 0
                && ux * uz > 0)
            &&& (strictly_outside_s(p0, p1, p2, px, py) ==> (uz - ux - uy) * uz < 0 || uy * uz < 0
                || ux * uz < 0)
        }),
{
    lemma_bary_numerators_are_edges(p0, p1, p2, px, py);
    let ux = bary_ux_s(p0, p1, p2, px, py);
    let uy = bary_uy_s(p0, p1, p2, px, py);
    let uz = bary_uz_s(p0, p1, p2);
    let area = edge_s(p0.x as int, p0.y as int, p1.x as int, p1.y as int, p2.x as int, p2.y as int);
    let e01 = edge_s(p0.x as int, p0.y as int, p1.x as int, p1.y as int, px, py);
    let e12 = edge_s(p1.x as int, p1.y as int, p2.x as int, p2.y as int, px, py);
    let e20 = edge_s(p2.x as int, p2.y as int, p0.x as int, p0.y as int, px, py);
    if strictly_inside_s(p0, p1, p2, px, py) {
        assert((-e12) * (-area) > 0 && (-e20) * (-area) > 0 && (-e01) * (-area) > 0)
            by (nonlinear_arith)
            requires
                (area > 0 && e01 > 0 && e12 > 0 && e20 > 0) || (area < 0 && e01 < 0 && e12 < 0
                    && e20 < 0),
        {}
    }
    if strictly_outside_s(p0, p1, p2, px, py) {
        assert((-e12) * (-area) < 0 || (-e20) * (-area) < 0 || (-e01) * (-area) < 0)
            by (nonlinear_arith)
            requires
                (area > 0 && (e01 < 0 || e12 < 0 || e20 < 0)) || (area < 0 && (e01 > 0 || e12 > 0
                    || e20 > 0)),
        {}
    }
}

/// The barycentric data of one integer pixel against one clip triangle.
pub open spec fn pixel_ux_s(t: ClipTri, x: int, y: int) -> int {
    bary_ux_s(
        v4_project_s(t.v0),
        v4_project_s(t.v1),
        v4_project_s(t.v2),
        x * (FX_ONE as int),
        y * (FX_ONE as int),
    )
}

/// See `pixel_ux_s`.
pub open spec fn pixel_uy_s(t: ClipTri, x: int, y: int) -> int {
    bary_uy_s(
        v4_project_s(t.v0),
        v4_project_s(t.v1),
        v4_project_s(t.v2),
        x * (FX_ONE as int),
        y * (FX_ONE as int),
    )
}

/// See `pixel_ux_s`.
pub open spec fn pixel_uz_s(t: ClipTri) -> int {
    bary_uz_s(v4_project_s(t.v0), v4_project_s(t.v1), v4_project_s(t.v2))
}

/// The rasterizer covers this pixel.
pub open spec fn pixel_covered_s(t: ClipTri, x: int, y: int) -> bool {
    bary_covered_s(pixel_ux_s(t, x, y), pixel_uy_s(t, x, y), pixel_uz_s(t))
}

/// The fixed-point weights handed to the fragment stage at this pixel.
pub open spec fn pixel_weights_s(t: ClipTri, x: int, y: int) -> Vec3fx {
    bary_weights_s(pixel_ux_s(t, x, y), pixel_uy_s(t, x, y), pixel_uz_s(t))
}

/// The perspective-correct depth byte of this pixel.
pub open spec fn pixel_depth_s(t: ClipTri, x: int, y: int) -> u8 {
    let c = pixel_weights_s(t, x, y);
    depth_byte_s(
        interp3_s(t.v0.z, t.v1.z, t.v2.z, c.x, c.y, c.z),
        interp3_s(t.v0.w, t.v1.w, t.v2.w, c.x, c.y, c.z),
    )
}

/// What this pixel's color becomes under one triangle, as a function
/// of its own previous color and depth alone.
pub open spec fn pixel_new_color_s<S: Shader>(s: S, t: ClipTri, x: int, y: int, oc: Rgb, od: u8) -> Rgb {
    if pixel_covered_s(t, x, y) && od < pixel_depth_s(t, x, y) {
        match s.frag_spec(pixel_weights_s(t, x, y)) {
            Result::Ok(f) => if f.keep {
                f.color
            } else {
                oc
            },
            Result::Err(_) => oc,
        }
    } else {
        oc
    }
}

/// What this pixel's depth becomes under one triangle, as a function
/// of its own previous depth alone.
pub open spec fn pixel_new_depth_s<S: Shader>(s: S, t: ClipTri, x: int, y: int, od: u8) -> u8 {
    if pixel_covered_s(t, x, y) && od < pixel_depth_s(t, x, y) {
        match s.frag_spec(pixel_weights_s(t, x, y)) {
            Result::Ok(f) => if f.keep {
                pixel_depth_s(t, x, y)
            } else {
                od
            },
            Result::Err(_) => od,
        }
    } else {
        od
    }
}

/// A shader whose fragment stage succeeds on every weight vector.
pub open spec fn total_shader_s<S: Shader>(s: S) -> bool {
    forall|bc: Vec3fx| #[trigger] s.frag_spec(bc) is Ok
}

/// Distinct in-canvas pixels have distinct flat indices.
pub proof fn lemma_pix_index_injective(wd: int, x1: int, y1: int, x2: int, y2: int)
    requires
        0 <= x1 < wd,
        0 <= x2 < wd,
        x1 != x2 || y1 != y2,
    ensures
        pix_index(wd, x1, y1) != pix_index(wd, x2, y2),
{
    assert(y1 * wd + x1 != y2 * wd + x2) by (nonlinear_arith)
        requires
            0 <= x1 < wd,
            0 <= x2 < wd,
            x1 != x2 || y1 != y2,
    {}
}

/// One pixel step rewrites exactly its own index, and what it writes
/// there is a function of that index's previous color and depth alone.
pub proof fn lemma_pixel_step_pointwise<S: Shader>(s: S, t: ClipTri, wd: int, x: int, y: int, st: RasterState)
    requires
        st.0 is Ok,
        0 <= pix_index(wd, x, y) < st.1.len(),
        st.1.len() == st.2.len(),
    ensures
        ({
            let r = pixel_step_s(s, t, wd, x, y, st);
            let pix = pix_index(wd, x, y);
            &&& r.1.len() == st.1.len()
            &&& r.2.len() == st.2.len()
            &&& r.1[pix] == pixel_new_color_s(s, t, x, y, st.1[pix], st.2[pix])
            &&& r.2[pix] == pixel_new_depth_s(s, t, x, y, st.2[pix])
            &&& forall|q: int|
                0 <= q < st.1.len() && q != pix ==> r.1[q] == st.1[q] && r.2[q] == st.2[q]
            &&& (r.0 is Err <==> (pixel_covered_s(t, x, y) && st.2[pix] < pixel_depth_s(t, x, y)
                && s.frag_spec(pixel_weights_s(t, x, y)) is Err))
        }),
{
}

/// Folding one column touches only that column's pixels, and the value
/// left at any pixel equals the single pixel step applied to the
/// original state.
pub proof fn lemma_col_pointwise<S: Shader>(s: S, t: ClipTri, wd: int, ht: int, x: int, y: int, yend: int, st: RasterState, qx: int, qy: int)
    requires
        total_shader_s(s),
        st.0 is Ok,
        st.1.len() == wd * ht,
        st.2.len() == wd * ht,
        0 <= x < wd,
        0 <= y,
        yend <= ht,
        0 <= qx < wd,
        0 <= qy < ht,
    ensures
        ({
            let r = col_fold_s(s, t, wd, x, y, yend, st);
            let pix = pix_index(wd, qx, qy);
            &&& r.0 is Ok
            &&& r.1.len() == st.1.len()
            &&& r.2.len() == st.2.len()
            &&& r.1[pix] == (if qx == x && y <= qy < yend {
                pixel_new_color_s(s, t, qx, qy, st.1[pix], st.2[pix])
            } else {
                st.1[pix]
            })
            &&& r.2[pix] == (if qx == x && y <= qy < yend {
                pixel_new_depth_s(s, t, qx, qy, st.2[pix])
            } else {
                st.2[pix]
            })
        }),
    decreases yend - y,
{
    let pix = pix_index(wd, qx, qy);
    crate::buffer::lemma_pix_index_bounds2(wd, ht, qx, qy);
    if y >= yend {
    } else {
        crate::buffer::lemma_pix_index_bounds2(wd, ht, x, y);
        lemma_pixel_step_pointwise(s, t, wd, x, y, st);
        let st1 = pixel_step_s(s, t, wd, x, y, st);
        assert(st1.0 is Ok);
        lemma_col_pointwise(s, t, wd, ht, x, y + 1, yend, st1, qx, qy);
        if qx == x && qy == y {
            assert(y <= qy < yend);
            assert(col_fold_s(s, t, wd, x, y + 1, yend, st1).1[pix] == st1.1[pix]);
        } else {
            lemma_pix_index_injective(wd, x, y, qx, qy);
            assert(st1.1[pix] == st.1[pix]);
            assert(st1.2[pix] == st.2[pix]);
        }
    }
}

/// Folding whole columns: the value left at any pixel equals the
/// single pixel step applied to the original state, when the pixel
/// lies in the folded box, and its original value otherwise.
pub proof fn lemma_box_pointwise<S: Shader>(s: S, t: ClipTri, wd: int, ht: int, x: int, xend: int, y0: int, yend: int, st: RasterState, qx: int, qy: int)
    requires
        total_shader_s(s),
        st.0 is Ok,
        st.1.len() == wd * ht,
        st.2.len() == wd * ht,
        0 <= x,
        xend <= wd,
        0 <= y0,
        yend <= ht,
        0 <= qx < wd,
        0 <= qy < ht,
    ensures
        ({
            let r = box_fold_s(s, t, wd, x, xend, y0, yend, st);
            let pix = pix_index(wd, qx, qy);
            &&& r.0 is Ok
            &&& r.1.len() == st.1.len()
            &&& r.2.len() == st.2.len()
            &&& r.1[pix] == (if x <= qx < xend && y0 <= qy < yend {
                pixel_new_color_s(s, t, qx, qy, st.1[pix], st.2[pix])
            } else {
                st.1[pix]
            })
            &&& r.2[pix] == (if x <= qx < xend && y0 <= qy < yend {
                pixel_new_depth_s(s, t, qx, qy, st.2[pix])
            } else {
                st.2[pix]
            })
        }),
    decreases xend - x,
{
    let pix = pix_index(wd, qx, qy);
    crate::buffer::lemma_pix_index_bounds2(wd, ht, qx, qy);
    if x >= xend {
    } else {
        lemma_col_pointwise(s, t, wd, ht, x, y0, yend, st, qx, qy);
        let st1 = col_fold_s(s, t, wd, x, y0, yend, st);
        lemma_box_pointwise(s, t, wd, ht, x + 1, xend, y0, yend, st1, qx, qy);
    }
}

/// The clamped screen bounding box of a triangle admits this pixel.
pub open spec fn in_raster_box_s(t: ClipTri, wd: int, ht: int, x: int, y: int) -> bool {
    let p0 = v4_project_s(t.v0);
    let p1 = v4_project_s(t.v1);
    let p2 = v4_project_s(t.v2);
    &&& !(p0.x < 0 || p0.y < 0 || p1.x < 0 || p1.y < 0 || p2.x < 0 || p2.y < 0)
    &&& imin(imin(fx_trunc_s(p0.x), fx_trunc_s(p1.x)), fx_trunc_s(p2.x)) <= x
    &&& x <= imin(imax(imax(fx_trunc_s(p0.x), fx_trunc_s(p1.x)), fx_trunc_s(p2.x)), wd - 1)
    &&& imin(imin(fx_trunc_s(p0.y), fx_trunc_s(p1.y)), fx_trunc_s(p2.y)) <= y
    &&& y <= imin(imax(imax(fx_trunc_s(p0.y), fx_trunc_s(p1.y)), fx_trunc_s(p2.y)), ht - 1)
}

/// The whole-triangle fold, pixel by pixel: with a shader whose
/// fragment stage always succeeds, every pixel of the canvas ends at
/// the single pixel step of its own previous color and depth when it
/// lies in the triangle's clamped bounding box, and stays untouched
/// otherwise.
pub proof fn lemma_triangle_pointwise<S: Shader>(s: S, t: ClipTri, wd: int, ht: int, st: RasterState, qx: int, qy: int)
    requires
        total_shader_s(s),
        st.0 is Ok,
        st.1.len() == wd * ht,
        st.2.len() == wd * ht,
        0 <= qx < wd,
        0 <= qy < ht,
    ensures
        ({
            let r = triangle_s(s, t, wd, ht, st);
            let pix = pix_index(wd, qx, qy);
            &&& r.0 is Ok
            &&& r.1.len() == st.1.len()
            &&& r.2.len() == st.2.len()
            &&& r.1[pix] == (if in_raster_box_s(t, wd, ht, qx, qy) {
                pixel_new_color_s(s, t, qx, qy, st.1[pix], st.2[pix])
            } else {
                st.1[pix]
            })
            &&& r.2[pix] == (if in_raster_box_s(t, wd, ht, qx, qy) {
                pixel_new_depth_s(s, t, qx, qy, st.2[pix])
            } else {
                st.2[pix]
            })
        }),
{
    let p0 = v4_project_s(t.v0);
    let p1 = v4_project_s(t.v1);
    let p2 = v4_project_s(t.v2);
    if p0.x < 0 || p0.y < 0 || p1.x < 0 || p1.y < 0 || p2.x < 0 || p2.y < 0 {
    } else {
        let x0 = imin(imin(fx_trunc_s(p0.x), fx_trunc_s(p1.x)), fx_trunc_s(p2.x));
        let x1 = imin(imax(imax(fx_trunc_s(p0.x), fx_trunc_s(p1.x)), fx_trunc_s(p2.x)), wd - 1);
        let y0 = imin(imin(fx_trunc_s(p0.y), fx_trunc_s(p1.y)), fx_trunc_s(p2.y));
        let y1 = imin(imax(imax(fx_trunc_s(p0.y), fx_trunc_s(p1.y)), fx_trunc_s(p2.y)), ht - 1);
        crate::fx::lemma_sdiv_bounds(p0.x as int, FX_ONE as int);
        crate::fx::lemma_sdiv_bounds(p1.x as int, FX_ONE as int);
        crate::fx::lemma_sdiv_bounds(p2.x as int, FX_ONE as int);
        crate::fx::lemma_sdiv_bounds(p0.y as int, FX_ONE as int);
        crate::fx::lemma_sdiv_bounds(p1.y as int, FX_ONE as int);
        crate::fx::lemma_sdiv_bounds(p2.y as int, FX_ONE as int);
        assert(0 <= x0);
        assert(0 <= y0);
        lemma_box_pointwise(s, t, wd, ht, x0, x1 + 1, y0, y1 + 1, st, qx, qy);
    }
}

/// One pixel step never decreases any stored depth.
pub proof fn lemma_pixel_step_depth_monotone<S: Shader>(s: S, t: ClipTri, wd: int, x: int, y: int, st: RasterState, q: int)
    requires
        st.1.len() == st.2.len(),
        0 <= pix_index(wd, x, y) < st.2.len(),
        0 <= q < st.2.len(),
    ensures
        ({
            let r = pixel_step_s(s, t, wd, x, y, st);
            &&& r.1.len() == st.1.len()
            &&& r.2.len() == st.2.len()
            &&& r.2[q] >= st.2[q]
        }),
{
    let r = pixel_step_s(s, t, wd, x, y, st);
    let pix = pix_index(wd, x, y);
    if q == pix {
        assert(r.2[q] >= st.2[q]);
    } else {
        assert(r.2[q] == st.2[q]);
    }
}

/// A column fold never decreases any stored depth.
pub proof fn lemma_col_depth_monotone<S: Shader>(s: S, t: ClipTri, wd: int, ht: int, x: int, y: int, yend: int, st: RasterState, q: int)
    requires
        st.1.len() == wd * ht,
        st.2.len() == wd * ht,
        0 <= x < wd,
        0 <= y,
        yend <= ht,
        0 <= q < st.2.len(),
    ensures
        ({
            let r = col_fold_s(s, t, wd, x, y, yend, st);
            &&& r.1.len() == st.1.len()
            &&& r.2.len() == st.2.len()
            &&& r.2[q] >= st.2[q]
        }),
    decreases yend - y,
{
    if y >= yend {
    } else {
        crate::buffer::lemma_pix_index_bounds2(wd, ht, x, y);
        lemma_pixel_step_depth_monotone(s, t, wd, x, y, st, q);
        lemma_col_depth_monotone(s, t, wd, ht, x, y + 1, yend, pixel_step_s(s, t, wd, x, y, st), q);
    }
}

/// The box fold never decreases any stored depth.
pub proof fn lemma_box_depth_monotone<S: Shader>(s: S, t: ClipTri, wd: int, ht: int, x: int, xend: int, y0: int, yend: int, st: RasterState, q: int)
    requires
        st.1.len() == wd * ht,
        st.2.len() == wd * ht,
        0 <= x,
        xend <= wd,
        0 <= y0,
        yend <= ht,
        0 <= q < st.2.len(),
    ensures
        ({
            let r = box_fold_s(s, t, wd, x, xend, y0, yend, st);
            &&& r.1.len() == st.1.len()
            &&& r.2.len() == st.2.len()
            &&& r.2[q] >= st.2[q]
        }),
    decreases xend - x,
{
    if x >= xend {
    } else {
        lemma_col_depth_monotone(s, t, wd, ht, x, y0, yend, st, q);
        lemma_box_depth_monotone(
            s,
            t,
            wd,
            ht,
            x + 1,
            xend,
            y0,
            yend,
            col_fold_s(s, t, wd, x, y0, yend, st),
            q,
        );
    }
}

/// Depth-buffer monotonicity: across one rasterized triangle, no
/// pixel's stored depth ever decreases -- a pixel is overwritten only
/// by a strictly greater depth under the "closer wins" convention.
pub proof fn lemma_depth_monotone<S: Shader>(s: S, t: ClipTri, wd: int, ht: int, st: RasterState, q: int)
    requires
        st.1.len() == wd * ht,
        st.2.len() == wd * ht,
        0 <= q < st.2.len(),
    ensures
        ({
            let r = triangle_s(s, t, wd, ht, st);
            &&& r.1.len() == st.1.len()
            &&& r.2.len() == st.2.len()
            &&& r.2[q] >= st.2[q]
        }),
{
    let p0 = v4_project_s(t.v0);
    let p1 = v4_project_s(t.v1);
    let p2 = v4_project_s(t.v2);
    if p0.x < 0 || p0.y < 0 || p1.x < 0 || p1.y < 0 || p2.x < 0 || p2.y < 0 {
    } else {
        let x0 = imin(imin(fx_trunc_s(p0.x), fx_trunc_s(p1.x)), fx_trunc_s(p2.x));
        let x1 = imin(imax(imax(fx_trunc_s(p0.x), fx_trunc_s(p1.x)), fx_trunc_s(p2.x)), wd - 1);
        let y0 = imin(imin(fx_trunc_s(p0.y), fx_trunc_s(p1.y)), fx_trunc_s(p2.y));
        let y1 = imin(imax(imax(fx_trunc_s(p0.y), fx_trunc_s(p1.y)), fx_trunc_s(p2.y)), ht - 1);
        crate::fx::lemma_sdiv_bounds(p0.x as int, FX_ONE as int);
        crate::fx::lemma_sdiv_bounds(p1.x as int, FX_ONE as int);
        crate::fx::lemma_sdiv_bounds(p2.x as int, FX_ONE as int);
        crate::fx::lemma_sdiv_bounds(p0.y as int, FX_ONE as int);
        crate::fx::lemma_sdiv_bounds(p1.y as int, FX_ONE as int);
        crate::fx::lemma_sdiv_bounds(p2.y as int, FX_ONE as int);
        lemma_box_depth_monotone(s, t, wd, ht, x0, x1 + 1, y0, y1 + 1, st, q);
    }
}

/// Two overlapping triangles at different depths: at any pixel covered
/// by both, where both fragments are kept and both pass the depth test
/// against the starting buffer, the nearer triangle's color and depth
/// stand after drawing both -- in either order.
pub proof fn lemma_nearer_triangle_wins<S1: Shader, S2: Shader>(s1: S1, s2: S2, t1: ClipTri, t2: ClipTri, wd: int, ht: int, st: RasterState, qx: int, qy: int)
    requires
        total_shader_s(s1),
        total_shader_s(s2),
        st.0 is Ok,
        st.1.len() == wd * ht,
        st.2.len() == wd * ht,
        0 <= qx < wd,
        0 <= qy < ht,
        in_raster_box_s(t1, wd, ht, qx, qy),
        in_raster_box_s(t2, wd, ht, qx, qy),
        pixel_covered_s(t1, qx, qy),
        pixel_covered_s(t2, qx, qy),
        st.2[pix_index(wd, qx, qy)] < pixel_depth_s(t1, qx, qy),
        pixel_depth_s(t1, qx, qy) < pixel_depth_s(t2, qx, qy),
        s1.frag_spec(pixel_weights_s(t1, qx, qy))->Ok_0.keep,
        s2.frag_spec(pixel_weights_s(t2, qx, qy))->Ok_0.keep,
    ensures
        ({
            let pix = pix_index(wd, qx, qy);
            let far_then_near = triangle_s(s2, t2, wd, ht, triangle_s(s1, t1, wd, ht, st));
            let near_then_far = triangle_s(s1, t1, wd, ht, triangle_s(s2, t2, wd, ht, st));
            &&& far_then_near.1[pix] == s2.frag_spec(pixel_weights_s(t2, qx, qy))->Ok_0.color
            &&& far_then_near.2[pix] == pixel_depth_s(t2, qx, qy)
            &&& near_then_far.1[pix] == s2.frag_spec(pixel_weights_s(t2, qx, qy))->Ok_0.color
            &&& near_then_far.2[pix] == pixel_depth_s(t2, qx, qy)
        }),
{
    let pix = pix_index(wd, qx, qy);
    let ra = triangle_s(s1, t1, wd, ht, st);
    lemma_triangle_pointwise(s1, t1, wd, ht, st, qx, qy);
    lemma_triangle_pointwise(s2, t2, wd, ht, ra, qx, qy);
    let rb = triangle_s(s2, t2, wd, ht, st);
    lemma_triangle_pointwise(s2, t2, wd, ht, st, qx, qy);
    lemma_triangle_pointwise(s1, t1, wd, ht, rb, qx, qy);
}

/// Two shaders whose fragment stages agree on every weight vector
/// drive one pixel step identically.
pub proof fn lemma_pixel_step_congruent<S1: Shader, S2: Shader>(s1: S1, s2: S2, t: ClipTri, wd: int, x: int, y: int, st: RasterState)
    requires
        forall|bc: Vec3fx| #[trigger] s1.frag_spec(bc) == s2.frag_spec(bc),
    ensures
        pixel_step_s(s1, t, wd, x, y, st) == pixel_step_s(s2, t, wd, x, y, st),
{
}

/// Fragment-stage agreement carries through a column fold.
pub proof fn lemma_col_fold_congruent<S1: Shader, S2: Shader>(s1: S1, s2: S2, t: ClipTri, wd: int, x: int, y: int, yend: int, st: RasterState)
    requires
        forall|bc: Vec3fx| #[trigger] s1.frag_spec(bc) == s2.frag_spec(bc),
    ensures
        col_fold_s(s1, t, wd, x, y, yend, st) == col_fold_s(s2, t, wd, x, y, yend, st),
    decreases yend - y,
{
    if y >= yend {
    } else {
        lemma_pixel_step_congruent(s1, s2, t, wd, x, y, st);
        lemma_col_fold_congruent(s1, s2, t, wd, x, y + 1, yend, pixel_step_s(s1, t, wd, x, y, st));
    }
}

/// Fragment-stage agreement carries through the box fold.
pub proof fn lemma_box_fold_congruent<S1: Shader, S2: Shader>(s1: S1, s2: S2, t: ClipTri, wd: int, x: int, xend: int, y0: int, yend: int, st: RasterState)
    requires
        forall|bc: Vec3fx| #[trigger] s1.frag_spec(bc) == s2.frag_spec(bc),
    ensures
        box_fold_s(s1, t, wd, x, xend, y0, yend, st) == box_fold_s(s2, t, wd, x, xend, y0, yend, st),
    decreases xend - x,
{
    if x >= xend {
    } else {
        lemma_col_fold_congruent(s1, s2, t, wd, x, y0, yend, st);
        lemma_box_fold_congruent(
            s1,
            s2,
            t,
            wd,
            x + 1,
            xend,
            y0,
            yend,
            col_fold_s(s1, t, wd, x, y0, yend, st),
        );
    }
}

/// Two shaders whose fragment stages agree rasterize a triangle
/// identically: the rasterizer reads a shader only through `frag_spec`.
pub proof fn lemma_triangle_congruent<S1: Shader, S2: Shader>(s1: S1, s2: S2, t: ClipTri, wd: int, ht: int, st: RasterState)
    requires
        forall|bc: Vec3fx| #[trigger] s1.frag_spec(bc) == s2.frag_spec(bc),
    ensures
        triangle_s(s1, t, wd, ht, st) == triangle_s(s2, t, wd, ht, st),
{
    let p0 = v4_project_s(t.v0);
    let p1 = v4_project_s(t.v1);
    let p2 = v4_project_s(t.v2);
    if p0.x < 0 || p0.y < 0 || p1.x < 0 || p1.y < 0 || p2.x < 0 || p2.y < 0 {
    } else {
        let x0 = imin(imin(fx_trunc_s(p0.x), fx_trunc_s(p1.x)), fx_trunc_s(p2.x));
        let x1 = imin(imax(imax(fx_trunc_s(p0.x), fx_trunc_s(p1.x)), fx_trunc_s(p2.x)), wd - 1);
        let y0 = imin(imin(fx_trunc_s(p0.y), fx_trunc_s(p1.y)), fx_trunc_s(p2.y));
        let y1 = imin(imax(imax(fx_trunc_s(p0.y), fx_trunc_s(p1.y)), fx_trunc_s(p2.y)), ht - 1);
        lemma_box_fold_congruent(s1, s2, t, wd, x0, x1 + 1, y0, y1 + 1, st);
    }
}

/// A strictly interior pixel of a triangle whose denominator clears
/// the degeneracy threshold is covered by the rasterizer; and for any
/// covered pixel, each fixed-point weight handed to the fragment stage
/// lies in `[0, 1]`.
pub proof fn lemma_covered_weights_in_unit_range(p0: Vec3fx, p1: Vec3fx, p2: Vec3fx, px: int, py: int)
    ensures
        ({
            let ux = bary_ux_s(p0, p1, p2, px, py);
            let uy = bary_uy_s(p0, p1, p2, px, py);
            let uz = bary_uz_s(p0, p1, p2);
            &&& (strictly_inside_s(p0, p1, p2, px, py) && (uz > EPS_CROSS as int || uz < -(
                EPS_CROSS as int)) ==> bary_covered_s(ux, uy, uz))
            &&& (bary_covered_s(ux, uy, uz) ==> {
                let c = bary_weights_s(ux, uy, uz);
                &&& 0 <= c.x <= FX_ONE
                &&& 0 <= c.y <= FX_ONE
                &&& 0 <= c.z <= FX_ONE
            })
        }),
{
    let ux = bary_ux_s(p0, p1, p2, px, py);
    let uy = bary_uy_s(p0, p1, p2, px, py);
    let uz = bary_uz_s(p0, p1, p2);
    if strictly_inside_s(p0, p1, p2, px, py) && (uz > EPS_CROSS as int || uz < -(
    EPS_CROSS as int)) {
        lemma_barycentric_weights(p0, p1, p2, px, py);
        assert((uz - ux - uy) * uz > 0 && uy * uz > 0 && ux * uz > 0);
        if uz > 0 {
            assert(uz - ux - uy > 0 && uy > 0 && ux > 0) by (nonlinear_arith)
                requires
                    uz > 0,
                    (uz - ux - uy) * uz > 0,
                    uy * uz > 0,
                    ux * uz > 0,
            {}
        } else {
            assert(uz - ux - uy < 0 && uy < 0 && ux < 0) by (nonlinear_arith)
                requires
                    uz < 0,
                    (uz - ux - uy) * uz > 0,
                    uy * uz > 0,
                    ux * uz > 0,
            {}
        }
    }
    if bary_covered_s(ux, uy, uz) {
        lemma_one_weight_in_unit_range(uz - ux - uy, uz);
        lemma_one_weight_in_unit_range(uy, uz);
        lemma_one_weight_in_unit_range(ux, uz);
    }
}

/// A numerator that agrees in sign with the denominator and does not
/// exceed it gives a fixed-point weight in `[0, 1]`.
proof fn lemma_one_weight_in_unit_range(n: int, uz: int)
    requires
        uz != 0,
        (uz > 0 && 0 <= n <= uz) || (uz < 0 && uz <= n <= 0),
    ensures
        0 <= bary_weight_s(n, uz) <= FX_ONE,
{
    let k = FX_ONE as int;
    if uz > 0 {
        assert(0 <= n * k <= k * uz) by (nonlinear_arith)
            requires
                0 <= n <= uz,
                k > 0,
        {}
        crate::fx::lemma_sdiv_within(n * k, uz, k);
        crate::fx::lemma_sdiv_bounds(n * k, uz);
    } else {
        assert(-(k * (-uz)) <= n * k <= 0) by (nonlinear_arith)
            requires
                uz <= n <= 0,
                k > 0,
        {}
        crate::fx::lemma_sdiv_within(n * k, -uz, k);
        assert(sdiv(n * k, uz) == sdiv(-(n * k), -uz));
        crate::fx::lemma_sdiv_bounds(-(n * k), -uz);
        crate::fx::lemma_sdiv_within(-(n * k), -uz, k);
    }
}

} // verus!
