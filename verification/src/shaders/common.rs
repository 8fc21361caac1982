//! Arithmetic shared by the shader variants: byte shading, tangent-space
//! normal reconstruction, and the Phong terms.

use vstd::prelude::*;

use crate::buffer::Rgb;
use crate::fx::fx_add;
use crate::fx::fx_div;
use crate::fx::fx_mul;
use crate::fx::fx_sub;
use crate::fx::fxa;
use crate::fx::fxd;
use crate::fx::fxm;
use crate::fx::fxsb;
use crate::fx::sdiv;
use crate::fx::FX_ONE;
use crate::geom::interp3;
use crate::geom::interp3_s;
use crate::geom::mat3_apply;
use crate::geom::mat3_apply_s;
use crate::geom::mat3_invert;
use crate::geom::mat3_invert_s;
use crate::geom::mat3_rows;
use crate::geom::mat3_rows_s;
use crate::geom::mat4_apply;
use crate::geom::mat4_apply_s;
use crate::geom::v3_add;
use crate::geom::v3_add_s;
use crate::geom::v3_dot;
use crate::geom::v3_dot_s;
use crate::geom::v3_extend;
use crate::geom::v3_extend_s;
use crate::geom::v3_norm;
use crate::geom::v3_norm_s;
use crate::geom::v3_scale;
use crate::geom::v3_scale_s;
use crate::geom::v3_sub;
use crate::geom::v3_sub_s;
use crate::geom::v4_truncate;
use crate::geom::v4_truncate_s;
use crate::geom::Mat4;
use crate::geom::Vec2fx;
use crate::geom::Vec3fx;
use crate::geom::Vec4fx;
use crate::RenderError;

verus! {

/// The fixed-point representation of 255, the top of the color and
/// depth byte range.
pub const BYTE_MAX_FX: i64 = 16711680;

/// Clamp a fixed-point value into `[0, 255]` and truncate to a byte
/// (the saturating float-to-byte cast of a shade computation).
pub open spec fn byte_of_fx_s(v: i64) -> u8 {
    if v < 0 {
        0
    } else if sdiv(v as int, FX_ONE as int) > 255 {
        255
    } else {
        sdiv(v as int, FX_ONE as int) as u8
    }
}

/// Clamp a fixed-point value into `[0, 255]` and truncate to a byte.
pub fn byte_of_fx(v: i64) -> (r: u8)
    ensures
        r == byte_of_fx_s(v),
{
    if v < 0 {
        0
    } else {
        proof {
            crate::fx::lemma_sdiv_bounds(v as int, FX_ONE as int);
        }
        let t = crate::buffer::fx_trunc(v);
        if t > 255 {
            255
        } else {
            t as u8
        }
    }
}

/// Zero for negative values (`max(0, v)`).
pub open spec fn fx_max0_s(v: i64) -> i64 {
    if v < 0 {
        0
    } else {
        v
    }
}

/// Zero for negative values.
pub fn fx_max0(v: i64) -> (r: i64)
    ensures
        r == fx_max0_s(v),
{
    if v < 0 {
        0
    } else {
        v
    }
}

/// Scale a color channel byte by a fixed-point intensity.
pub open spec fn mul_byte_s(c: u8, i: i64) -> u8 {
    byte_of_fx_s(fxm(((c as i64) * 65536) as i64, i))
}

/// Scale a color channel byte by a fixed-point intensity.
pub fn mul_byte(c: u8, i: i64) -> (r: u8)
    ensures
        r == mul_byte_s(c, i),
{
    byte_of_fx(fx_mul((c as i64) * 65536, i))
}

/// Multiply a whole color by one intensity.
pub open spec fn shade_rgb_s(c: Rgb, i: i64) -> Rgb {
    Rgb { r: mul_byte_s(c.r, i), g: mul_byte_s(c.g, i), b: mul_byte_s(c.b, i) }
}

/// Multiply a whole color by one intensity.
pub fn shade_rgb(c: Rgb, i: i64) -> (r: Rgb)
    ensures
        r == shade_rgb_s(c, i),
{
    Rgb { r: mul_byte(c.r, i), g: mul_byte(c.g, i), b: mul_byte(c.b, i) }
}

/// Decode one normal-map channel from the byte range `[0, 255]` into
/// the signed fixed-point range `[-1, 1]` (`v / 255 * 2 - 1`).
pub open spec fn decode_chan_s(v: u8) -> i64 {
    let q = fxd(((v as i64) * 65536) as i64, BYTE_MAX_FX);
    fxsb(fxa(q, q), FX_ONE)
}

/// Decode one normal-map channel.
pub fn decode_chan(v: u8) -> (r: i64)
    ensures
        r == decode_chan_s(v),
{
    let q = fx_div((v as i64) * 65536, BYTE_MAX_FX);
    fx_sub(fx_add(q, q), FX_ONE)
}

/// Decode a tangent-space normal-map texel into a signed vector.
pub open spec fn decode_normal_s(c: Rgb) -> Vec3fx {
    Vec3fx { x: decode_chan_s(c.r), y: decode_chan_s(c.g), z: decode_chan_s(c.b) }
}

/// Decode a tangent-space normal-map texel.
pub fn decode_normal(c: Rgb) -> (r: Vec3fx)
    ensures
        r == decode_normal_s(c),
{
    Vec3fx { x: decode_chan(c.r), y: decode_chan(c.g), z: decode_chan(c.b) }
}

/// Set one slot (0, 1 or 2) of a per-triangle varying triple stored as
/// a vector.
pub open spec fn v3_set_s(v: Vec3fx, n: int, val: i64) -> Vec3fx {
    if n == 0 {
        Vec3fx { x: val, ..v }
    } else if n == 1 {
        Vec3fx { y: val, ..v }
    } else {
        Vec3fx { z: val, ..v }
    }
}

/// Set one slot of a varying triple.
pub fn v3_set(v: Vec3fx, n: usize, val: i64) -> (r: Vec3fx)
    requires
        n < 3,
    ensures
        r == v3_set_s(v, n as int, val),
{
    if n == 0 {
        Vec3fx { x: val, ..v }
    } else if n == 1 {
        Vec3fx { y: val, ..v }
    } else {
        Vec3fx { z: val, ..v }
    }
}

/// Interpolate a 2-D attribute over the triangle.
pub open spec fn interp_v2_s(a: Vec2fx, b: Vec2fx, c: Vec2fx, bc: Vec3fx) -> Vec2fx {
    Vec2fx { x: interp3_s(a.x, b.x, c.x, bc.x, bc.y, bc.z), y: interp3_s(a.y, b.y, c.y, bc.x, bc.y, bc.z) }
}

/// Interpolate a 2-D attribute over the triangle.
pub fn interp_v2(a: Vec2fx, b: Vec2fx, c: Vec2fx, bc: Vec3fx) -> (r: Vec2fx)
    ensures
        r == interp_v2_s(a, b, c, bc),
{
    Vec2fx { x: interp3(a.x, b.x, c.x, bc.x, bc.y, bc.z), y: interp3(a.y, b.y, c.y, bc.x, bc.y, bc.z) }
}

/// Interpolate a 3-D attribute over the triangle.
pub open spec fn interp_v3_s(a: Vec3fx, b: Vec3fx, c: Vec3fx, bc: Vec3fx) -> Vec3fx {
    Vec3fx {
        x: interp3_s(a.x, b.x, c.x, bc.x, bc.y, bc.z),
        y: interp3_s(a.y, b.y, c.y, bc.x, bc.y, bc.z),
        z: interp3_s(a.z, b.z, c.z, bc.x, bc.y, bc.z),
    }
}

/// Interpolate a 3-D attribute over the triangle.
pub fn interp_v3(a: Vec3fx, b: Vec3fx, c: Vec3fx, bc: Vec3fx) -> (r: Vec3fx)
    ensures
        r == interp_v3_s(a, b, c, bc),
{
    Vec3fx {
        x: interp3(a.x, b.x, c.x, bc.x, bc.y, bc.z),
        y: interp3(a.y, b.y, c.y, bc.x, bc.y, bc.z),
        z: interp3(a.z, b.z, c.z, bc.x, bc.y, bc.z),
    }
}

/// A direction carried into clip space by a transform: the transform
/// applied with `w == 0`, truncated and normalized.
pub open spec fn transformed_light_s(m: Mat4, light: Vec3fx) -> Vec3fx {
    v3_norm_s(v4_truncate_s(mat4_apply_s(m, v3_extend_s(light, 0))))
}

/// A direction carried into clip space by a transform.
pub fn transformed_light(m: Mat4, light: Vec3fx) -> (r: Vec3fx)
    ensures
        r == transformed_light_s(m, light),
{
    v3_norm(v4_truncate(mat4_apply(m, v3_extend(light, 0))))
}

/// Reconstruct the world-space normal at one pixel from the triangle's
/// tangent basis: solve the edge/UV system by a 3x3 inverse, build the
/// tangent frame around the interpolated surface normal `bn`, and
/// carry the decoded normal-map direction through it.  Fails exactly
/// when the edge matrix has zero fixed-point determinant.
pub open spec fn tangent_normal_s(
    bn: Vec3fx,
    ndc0: Vec3fx,
    ndc1: Vec3fx,
    ndc2: Vec3fx,
    uv0: Vec2fx,
    uv1: Vec2fx,
    uv2: Vec2fx,
    texel: Rgb,
) -> Result<Vec3fx, RenderError> {
    let a = mat3_rows_s(v3_sub_s(ndc1, ndc0), v3_sub_s(ndc2, ndc0), bn);
    match mat3_invert_s(a) {
        Option::None => Result::Err(RenderError::SingularMatrix),
        Option::Some(ai) => {
            let iv = mat3_apply_s(ai, Vec3fx { x: fxsb(uv1.x, uv0.x), y: fxsb(uv2.x, uv0.x), z: 0 });
            let jv = mat3_apply_s(ai, Vec3fx { x: fxsb(uv1.y, uv0.y), y: fxsb(uv2.y, uv0.y), z: 0 });
            let ti = v3_norm_s(iv);
            let tj = v3_norm_s(jv);
            let d = v3_norm_s(decode_normal_s(texel));
            Result::Ok(
                v3_add_s(v3_add_s(v3_scale_s(ti, d.x), v3_scale_s(tj, d.y)), v3_scale_s(bn, d.z)),
            )
        },
    }
}

/// Reconstruct the world-space normal at one pixel from the tangent
/// basis.
pub fn tangent_normal(
    bn: Vec3fx,
    ndc0: Vec3fx,
    ndc1: Vec3fx,
    ndc2: Vec3fx,
    uv0: Vec2fx,
    uv1: Vec2fx,
    uv2: Vec2fx,
    texel: Rgb,
) -> (r: Result<Vec3fx, RenderError>)
    ensures
        r == tangent_normal_s(bn, ndc0, ndc1, ndc2, uv0, uv1, uv2, texel),
{
    let a = mat3_rows(v3_sub(ndc1, ndc0), v3_sub(ndc2, ndc0), bn);
    match mat3_invert(a) {
        Option::None => Result::Err(RenderError::SingularMatrix),
        Option::Some(ai) => {
            let iv = mat3_apply(ai, Vec3fx { x: fx_sub(uv1.x, uv0.x), y: fx_sub(uv2.x, uv0.x), z: 0 });
            let jv = mat3_apply(ai, Vec3fx { x: fx_sub(uv1.y, uv0.y), y: fx_sub(uv2.y, uv0.y), z: 0 });
            let ti = v3_norm(iv);
            let tj = v3_norm(jv);
            let d = v3_norm(decode_normal(texel));
            Result::Ok(v3_add(v3_add(v3_scale(ti, d.x), v3_scale(tj, d.y)), v3_scale(bn, d.z)))
        },
    }
}

/// Fixed-point exponentiation by a byte exponent (`b^e`, `b^0 == 1`).
pub open spec fn fx_pow_s(b: i64, e: nat) -> i64
    decreases e,
{
    if e == 0 {
        FX_ONE
    } else {
        fxm(b, fx_pow_s(b, (e - 1) as nat))
    }
}

/// Fixed-point exponentiation by a byte exponent.
pub fn fx_pow(b: i64, e: u8) -> (r: i64)
    ensures
        r == fx_pow_s(b, e as nat),
{
    let mut acc: i64 = FX_ONE;
    let mut i: u8 = 0;
    while i < e
        invariant
            i <= e,
            acc == fx_pow_s(b, i as nat),
        decreases e - i,
    {
        acc = fx_mul(b, acc);
        i += 1;
    }
    acc
}

/// The specular reflection term: reflect the light about the normal,
/// clamp the z component at zero, and raise it to the sampled exponent.
pub open spec fn phong_spec_s(n: Vec3fx, light: Vec3fx, pw: u8) -> i64 {
    let r = v3_norm_s(
        v3_sub_s(v3_scale_s(n, fxm(((2 * FX_ONE) as i64), v3_dot_s(n, light))), light),
    );
    fx_pow_s(fx_max0_s(r.z), pw as nat)
}

/// The specular reflection term.
pub fn phong_spec(n: Vec3fx, light: Vec3fx, pw: u8) -> (r: i64)
    ensures
        r == phong_spec_s(n, light, pw),
{
    let rv = v3_norm(v3_sub(v3_scale(n, fx_mul(2 * FX_ONE, v3_dot(n, light))), light));
    fx_pow(fx_max0(rv.z), pw)
}

/// The diffuse term: the light/normal alignment, clamped at zero.
pub open spec fn phong_diff_s(n: Vec3fx, light: Vec3fx) -> i64 {
    fx_max0_s(v3_dot_s(n, light))
}

/// The diffuse term.
pub fn phong_diff(n: Vec3fx, light: Vec3fx) -> (r: i64)
    ensures
        r == phong_diff_s(n, light),
{
    fx_max0(v3_dot(n, light))
}

/// Per-triangle varying storage: one 2-D value per vertex slot.
#[derive(Clone, Copy, PartialEq, Eq, Structural, Debug)]
pub struct Tri2 {
    pub a: Vec2fx,
    pub b: Vec2fx,
    pub c: Vec2fx,
}

/// Per-triangle varying storage: one 3-D value per vertex slot.
#[derive(Clone, Copy, PartialEq, Eq, Structural, Debug)]
pub struct Tri3 {
    pub a: Vec3fx,
    pub b: Vec3fx,
    pub c: Vec3fx,
}

/// Per-triangle varying storage: one homogeneous value per vertex slot.
#[derive(Clone, Copy, PartialEq, Eq, Structural, Debug)]
pub struct Tri4 {
    pub a: Vec4fx,
    pub b: Vec4fx,
    pub c: Vec4fx,
}

/// An all-zero 2-D varying triple.
pub open spec fn tri2_zero_s() -> Tri2 {
    Tri2 { a: Vec2fx { x: 0, y: 0 }, b: Vec2fx { x: 0, y: 0 }, c: Vec2fx { x: 0, y: 0 } }
}

/// An all-zero 2-D varying triple.
pub fn tri2_zero() -> (r: Tri2)
    ensures
        r == tri2_zero_s(),
{
    Tri2 { a: Vec2fx { x: 0, y: 0 }, b: Vec2fx { x: 0, y: 0 }, c: Vec2fx { x: 0, y: 0 } }
}

/// An all-zero 3-D varying triple.
pub open spec fn tri3_zero_s() -> Tri3 {
    Tri3 {
        a: Vec3fx { x: 0, y: 0, z: 0 },
        b: Vec3fx { x: 0, y: 0, z: 0 },
        c: Vec3fx { x: 0, y: 0, z: 0 },
    }
}

/// An all-zero 3-D varying triple.
pub fn tri3_zero() -> (r: Tri3)
    ensures
        r == tri3_zero_s(),
{
    Tri3 {
        a: Vec3fx { x: 0, y: 0, z: 0 },
        b: Vec3fx { x: 0, y: 0, z: 0 },
        c: Vec3fx { x: 0, y: 0, z: 0 },
    }
}

/// An all-zero homogeneous varying triple.
pub open spec fn tri4_zero_s() -> Tri4 {
    Tri4 {
        a: Vec4fx { x: 0, y: 0, z: 0, w: 0 },
        b: Vec4fx { x: 0, y: 0, z: 0, w: 0 },
        c: Vec4fx { x: 0, y: 0, z: 0, w: 0 },
    }
}

/// An all-zero homogeneous varying triple.
pub fn tri4_zero() -> (r: Tri4)
    ensures
        r == tri4_zero_s(),
{
    Tri4 {
        a: Vec4fx { x: 0, y: 0, z: 0, w: 0 },
        b: Vec4fx { x: 0, y: 0, z: 0, w: 0 },
        c: Vec4fx { x: 0, y: 0, z: 0, w: 0 },
    }
}

/// Replace the slot `n` of a 2-D varying triple.
pub open spec fn tri2_set_s(t: Tri2, n: int, v: Vec2fx) -> Tri2 {
    if n == 0 {
        Tri2 { a: v, ..t }
    } else if n == 1 {
        Tri2 { b: v, ..t }
    } else {
        Tri2 { c: v, ..t }
    }
}

/// Replace the slot `n` of a 2-D varying triple.
pub fn tri2_set(t: Tri2, n: usize, v: Vec2fx) -> (r: Tri2)
    requires
        n < 3,
    ensures
        r == tri2_set_s(t, n as int, v),
{
    if n == 0 {
        Tri2 { a: v, ..t }
    } else if n == 1 {
        Tri2 { b: v, ..t }
    } else {
        Tri2 { c: v, ..t }
    }
}

/// Replace the slot `n` of a 3-D varying triple.
pub open spec fn tri3_set_s(t: Tri3, n: int, v: Vec3fx) -> Tri3 {
    if n == 0 {
        Tri3 { a: v, ..t }
    } else if n == 1 {
        Tri3 { b: v, ..t }
    } else {
        Tri3 { c: v, ..t }
    }
}

/// Replace the slot `n` of a 3-D varying triple.
pub fn tri3_set(t: Tri3, n: usize, v: Vec3fx) -> (r: Tri3)
    requires
        n < 3,
    ensures
        r == tri3_set_s(t, n as int, v),
{
    if n == 0 {
        Tri3 { a: v, ..t }
    } else if n == 1 {
        Tri3 { b: v, ..t }
    } else {
        Tri3 { c: v, ..t }
    }
}

/// Replace the slot `n` of a homogeneous varying triple.
pub open spec fn tri4_set_s(t: Tri4, n: int, v: Vec4fx) -> Tri4 {
    if n == 0 {
        Tri4 { a: v, ..t }
    } else if n == 1 {
        Tri4 { b: v, ..t }
    } else {
        Tri4 { c: v, ..t }
    }
}

/// Replace the slot `n` of a homogeneous varying triple.
pub fn tri4_set(t: Tri4, n: usize, v: Vec4fx) -> (r: Tri4)
    requires
        n < 3,
    ensures
        r == tri4_set_s(t, n as int, v),
{
    if n == 0 {
        Tri4 { a: v, ..t }
    } else if n == 1 {
        Tri4 { b: v, ..t }
    } else {
        Tri4 { c: v, ..t }
    }
}

} // verus!
