//! The shadow-aware shader of the camera pass: reprojects each pixel
//! into the shadow pass's clip space, compares its depth (plus a bias
//! against self-shadowing acne) with the shadow buffer, and attenuates
//! the lit color when the pixel is occluded from the light.

use vstd::prelude::*;

use crate::buffer::GrayBuffer;
use crate::buffer::Rgb;
use crate::buffer::RgbBuffer;
use crate::fx::fx_add;
use crate::fx::fx_mul;
use crate::fx::fxa;
use crate::fx::fxm;
use crate::fx::FX_ONE;
use crate::geom::mat4_apply;
use crate::geom::mat4_apply_s;
use crate::geom::mat4_det_s;
use crate::geom::mat4_invert;
use crate::geom::mat4_invert_s;
use crate::geom::mat4_transpose;
use crate::geom::mat4_transpose_s;
use crate::geom::v3_norm;
use crate::geom::v3_norm_s;
use crate::geom::v3_extend;
use crate::geom::v3_extend_s;
use crate::geom::v4_project;
use crate::geom::v4_project_s;
use crate::geom::v4_truncate;
use crate::geom::v4_truncate_s;
use crate::geom::Mat4;
use crate::geom::Vec3fx;
use crate::geom::Vec4fx;
use crate::model::face_slot;
use crate::model::face_slot_s;
use crate::model::info_in_bounds;
use crate::model::Model;
use crate::shader::FragOut;
use crate::shader::Shader;
use crate::shaders::common::byte_of_fx;
use crate::shaders::common::byte_of_fx_s;
use crate::shaders::common::interp_v2;
use crate::shaders::common::interp_v2_s;
use crate::shaders::common::interp_v3;
use crate::shaders::common::interp_v3_s;
use crate::shaders::common::phong_diff;
use crate::shaders::common::phong_diff_s;
use crate::shaders::common::phong_spec;
use crate::shaders::common::phong_spec_s;
use crate::shaders::common::tangent_normal;
use crate::shaders::common::tangent_normal_s;
use crate::shaders::common::transformed_light;
use crate::shaders::common::transformed_light_s;
use crate::shaders::common::tri2_set;
use crate::shaders::common::tri2_set_s;
use crate::shaders::common::tri2_zero;
use crate::shaders::common::tri2_zero_s;
use crate::shaders::common::tri3_set;
use crate::shaders::common::tri3_set_s;
use crate::shaders::common::tri3_zero;
use crate::shaders::common::tri3_zero_s;
use crate::shaders::common::tri4_set;
use crate::shaders::common::tri4_set_s;
use crate::shaders::common::tri4_zero;
use crate::shaders::common::tri4_zero_s;
use crate::shaders::common::Tri2;
use crate::shaders::common::Tri3;
use crate::shaders::common::Tri4;
use crate::RenderError;

verus! {

/// Depth bias (5.0) added before the shadow comparison, against
/// self-shadowing acne.
pub const SHADOW_BIAS_FX: i64 = 327680;

/// Attenuation (0.3) applied to the lit terms of an occluded pixel.
pub const SHADOW_DIM_FX: i64 = 19661;

/// The fixed weight of the diffuse term (1.2).
pub const SHADOW_DIFF_WEIGHT_FX: i64 = 78643;

/// The fixed weight of the specular term (0.6).
pub const SHADOW_SPEC_WEIGHT_FX: i64 = 39322;

/// The fixed ambient offset of the shadowed shade (20.0).
pub const SHADOW_AMBIENT_FX: i64 = 1310720;

/// The attenuation factor for one pixel: full light exactly when the
/// stored shadow-buffer depth lies strictly below the reprojected
/// depth plus the bias (the pixel is the light's nearest surface), the
/// dim factor otherwise.
pub open spec fn shadow_factor_s(stored: u8, depth: i64) -> i64 {
    if ((stored as i64) * 65536) < fxa(depth, SHADOW_BIAS_FX) {
        FX_ONE
    } else {
        SHADOW_DIM_FX
    }
}

/// The attenuation factor for one pixel.
pub fn shadow_factor(stored: u8, depth: i64) -> (r: i64)
    ensures
        r == shadow_factor_s(stored, depth),
        r == FX_ONE || r == SHADOW_DIM_FX,
        r == FX_ONE <==> ((stored as i64) * 65536) < fxa(depth, SHADOW_BIAS_FX),
{
    if (stored as i64) * 65536 < fx_add(depth, SHADOW_BIAS_FX) {
        FX_ONE
    } else {
        SHADOW_DIM_FX
    }
}

/// Shadow monotonicity: of two fragments reprojected to the same
/// shadow-buffer texel, if the farther-from-the-camera-plane one
/// (smaller stored scale depth) is unshadowed, a fragment at least as
/// close to the light is unshadowed too; and a fragment whose
/// reprojected depth plus the bias does not exceed the stored depth
/// always receives the dim factor.
pub proof fn lemma_shadow_monotone(stored: u8, d1: i64, d2: i64)
    requires
        d1 <= d2,
    ensures
        shadow_factor_s(stored, d1) == FX_ONE ==> shadow_factor_s(stored, d2) == FX_ONE,
        ((stored as i64) * 65536) >= fxa(d2, SHADOW_BIAS_FX) ==> shadow_factor_s(stored, d2)
            == SHADOW_DIM_FX,
{
}

/// One output channel: `20 + c * shadow * (1.2 * diff + 0.6 * spec)`,
/// clamped to a byte.
pub open spec fn shadow_channel_s(c: u8, shadow: i64, diff: i64, spec: i64) -> u8 {
    byte_of_fx_s(
        fxa(
            SHADOW_AMBIENT_FX,
            fxm(
                ((c as i64) * 65536) as i64,
                fxm(shadow, fxa(fxm(SHADOW_DIFF_WEIGHT_FX, diff), fxm(SHADOW_SPEC_WEIGHT_FX, spec))),
            ),
        ),
    )
}

/// One output channel of the shadowed shade.
pub fn shadow_channel(c: u8, shadow: i64, diff: i64, spec: i64) -> (r: u8)
    ensures
        r == shadow_channel_s(c, shadow, diff, spec),
{
    byte_of_fx(
        fx_add(
            SHADOW_AMBIENT_FX,
            fx_mul(
                (c as i64) * 65536,
                fx_mul(
                    shadow,
                    fx_add(fx_mul(SHADOW_DIFF_WEIGHT_FX, diff), fx_mul(SHADOW_SPEC_WEIGHT_FX, spec)),
                ),
            ),
        ),
    )
}

/// Normal-mapped Phong shading attenuated by the shadow buffer.
#[derive(Clone, Debug)]
pub struct ShadowShader {
    pub light_dir: Vec3fx,
    pub texture: RgbBuffer,
    pub normal_map: RgbBuffer,
    pub specular_map: GrayBuffer,
    pub varying_uv: Tri2,
    pub varying_tri: Tri4,
    pub ndc_tri: Tri3,
    pub varying_norm: Tri3,
    pub uniform_m: Mat4,
    pub uniform_mit: Mat4,
    pub uniform_m_shadow: Mat4,
    pub shadow_buffer: GrayBuffer,
}

impl ShadowShader {
    /// A fresh shader; `uniform_m_shadow` maps camera clip space back
    /// into the shadow pass's clip space, and `shadow_buffer` is the
    /// depth buffer that pass produced.  Fails exactly when
    /// `uniform_m` has zero fixed-point determinant.
    pub fn new(
        light_dir: Vec3fx,
        texture: RgbBuffer,
        normal_map: RgbBuffer,
        specular_map: GrayBuffer,
        uniform_m: Mat4,
        uniform_m_shadow: Mat4,
        shadow_buffer: GrayBuffer,
    ) -> (r: Result<ShadowShader, RenderError>)
        requires
            texture.wf(),
            normal_map.wf(),
            specular_map.wf(),
            shadow_buffer.wf(),
        ensures
            r is Ok <==> mat4_det_s(uniform_m) != 0,
            r is Err ==> r == Result::<ShadowShader, RenderError>::Err(RenderError::SingularMatrix),
            r is Ok ==> {
                let s = r->Ok_0;
                &&& s.light_dir == transformed_light_s(uniform_m, light_dir)
                &&& s.texture == texture
                &&& s.normal_map == normal_map
                &&& s.specular_map == specular_map
                &&& s.varying_uv == tri2_zero_s()
                &&& s.varying_tri == tri4_zero_s()
                &&& s.ndc_tri == tri3_zero_s()
                &&& s.varying_norm == tri3_zero_s()
                &&& s.uniform_m == uniform_m
                &&& s.uniform_mit == mat4_transpose_s(mat4_invert_s(uniform_m)->Some_0)
                &&& s.uniform_m_shadow == uniform_m_shadow
                &&& s.shadow_buffer == shadow_buffer
                &&& s.wf()
            },
    {
        match mat4_invert(uniform_m) {
            Option::None => Result::Err(RenderError::SingularMatrix),
            Option::Some(inv) => Result::Ok(
                ShadowShader {
                    light_dir: transformed_light(uniform_m, light_dir),
                    texture,
                    normal_map,
                    specular_map,
                    varying_uv: tri2_zero(),
                    varying_tri: tri4_zero(),
                    ndc_tri: tri3_zero(),
                    varying_norm: tri3_zero(),
                    uniform_m,
                    uniform_mit: mat4_transpose(inv),
                    uniform_m_shadow,
                    shadow_buffer,
                },
            ),
        }
    }
}

impl Shader for ShadowShader {
    open spec fn wf(&self) -> bool {
        self.texture.wf() && self.normal_map.wf() && self.specular_map.wf()
            && self.shadow_buffer.wf()
    }

    open spec fn frag_spec(&self, bc: Vec3fx) -> Result<FragOut, RenderError> {
        let p = interp_v3_s(self.ndc_tri.a, self.ndc_tri.b, self.ndc_tri.c, bc);
        let sb = v4_project_s(mat4_apply_s(self.uniform_m_shadow, v3_extend_s(p, FX_ONE)));
        match self.shadow_buffer.at_screen_s(sb.x, sb.y) {
            Option::None => Result::Err(RenderError::SampleOutOfRange),
            Option::Some(stored) => {
                let shadow = shadow_factor_s(stored, sb.z);
                let bn = v3_norm_s(
                    interp_v3_s(self.varying_norm.a, self.varying_norm.b, self.varying_norm.c, bc),
                );
                let uv = interp_v2_s(self.varying_uv.a, self.varying_uv.b, self.varying_uv.c, bc);
                match self.texture.sample_s(uv.x, uv.y) {
                    Option::None => Result::Err(RenderError::SampleOutOfRange),
                    Option::Some(texel) => match self.normal_map.sample_s(uv.x, uv.y) {
                        Option::None => Result::Err(RenderError::SampleOutOfRange),
                        Option::Some(nm_texel) => match self.specular_map.sample_s(uv.x, uv.y) {
                            Option::None => Result::Err(RenderError::SampleOutOfRange),
                            Option::Some(pw) => match tangent_normal_s(
                                bn,
                                self.ndc_tri.a,
                                self.ndc_tri.b,
                                self.ndc_tri.c,
                                self.varying_uv.a,
                                self.varying_uv.b,
                                self.varying_uv.c,
                                nm_texel,
                            ) {
                                Result::Err(e) => Result::Err(e),
                                Result::Ok(n) => {
                                    let spec = phong_spec_s(n, self.light_dir, pw);
                                    let diff = phong_diff_s(n, self.light_dir);
                                    Result::Ok(
                                        FragOut {
                                            color: Rgb {
                                                r: shadow_channel_s(texel.r, shadow, diff, spec),
                                                g: shadow_channel_s(texel.g, shadow, diff, spec),
                                                b: shadow_channel_s(texel.b, shadow, diff, spec),
                                            },
                                            keep: true,
                                        },
                                    )
                                },
                            },
                        },
                    },
                }
            },
        }
    }

    open spec fn vertex_spec(&self, model: Model, iface: int, nthvert: int, mat: Mat4) -> (
        ShadowShader,
        Vec4fx,
    ) {
        let vi = face_slot_s(model.spec_faces()[iface], nthvert);
        let nrm = v4_truncate_s(
            mat4_apply_s(self.uniform_mit, v3_extend_s(model.spec_norms()[vi.vn as int], 0)),
        );
        let gl = mat4_apply_s(mat, v3_extend_s(model.spec_verts()[vi.v as int], FX_ONE));
        let s2 = ShadowShader {
            varying_uv: tri2_set_s(self.varying_uv, nthvert, model.spec_uvs()[vi.vt as int]),
            varying_norm: tri3_set_s(self.varying_norm, nthvert, nrm),
            varying_tri: tri4_set_s(self.varying_tri, nthvert, gl),
            ndc_tri: tri3_set_s(self.ndc_tri, nthvert, v4_project_s(gl)),
            ..*self
        };
        (s2, gl)
    }

    fn vertex(&mut self, model: &Model, iface: usize, nthvert: usize, mat: Mat4) -> (r: Vec4fx) {
        proof {
            assert(info_in_bounds(
                face_slot_s(model.spec_faces()[iface as int], nthvert as int),
                model.spec_verts().len() as int,
                model.spec_norms().len() as int,
                model.spec_uvs().len() as int,
            ));
        }
        let f = model.get_faces()[iface];
        let vi = face_slot(&f, nthvert);
        let nrm = v4_truncate(mat4_apply(self.uniform_mit, v3_extend(model.get_norms()[vi.vn], 0)));
        let gl = mat4_apply(mat, v3_extend(model.get_verts()[vi.v], FX_ONE));
        self.varying_uv = tri2_set(self.varying_uv, nthvert, model.get_uvs()[vi.vt]);
        self.varying_norm = tri3_set(self.varying_norm, nthvert, nrm);
        self.varying_tri = tri4_set(self.varying_tri, nthvert, gl);
        self.ndc_tri = tri3_set(self.ndc_tri, nthvert, v4_project(gl));
        gl
    }

    fn fragment(&self, bc: Vec3fx) -> (r: Result<FragOut, RenderError>) {
        let p = interp_v3(self.ndc_tri.a, self.ndc_tri.b, self.ndc_tri.c, bc);
        let sb = v4_project(mat4_apply(self.uniform_m_shadow, v3_extend(p, FX_ONE)));
        match self.shadow_buffer.at_screen(sb.x, sb.y) {
            Option::None => Result::Err(RenderError::SampleOutOfRange),
            Option::Some(stored) => {
                let shadow = shadow_factor(stored, sb.z);
                let bn = v3_norm(
                    interp_v3(self.varying_norm.a, self.varying_norm.b, self.varying_norm.c, bc),
                );
                let uv = interp_v2(self.varying_uv.a, self.varying_uv.b, self.varying_uv.c, bc);
                match self.texture.sample(uv.x, uv.y) {
                    Option::None => Result::Err(RenderError::SampleOutOfRange),
                    Option::Some(texel) => match self.normal_map.sample(uv.x, uv.y) {
                        Option::None => Result::Err(RenderError::SampleOutOfRange),
                        Option::Some(nm_texel) => match self.specular_map.sample(uv.x, uv.y) {
                            Option::None => Result::Err(RenderError::SampleOutOfRange),
                            Option::Some(pw) => match tangent_normal(
                                bn,
                                self.ndc_tri.a,
                                self.ndc_tri.b,
                                self.ndc_tri.c,
                                self.varying_uv.a,
                                self.varying_uv.b,
                                self.varying_uv.c,
                                nm_texel,
                            ) {
                                Result::Err(e) => Result::Err(e),
                                Result::Ok(n) => {
                                    let spec = phong_spec(n, self.light_dir, pw);
                                    let diff = phong_diff(n, self.light_dir);
                                    Result::Ok(
                                        FragOut {
                                            color: Rgb {
                                                r: shadow_channel(texel.r, shadow, diff, spec),
                                                g: shadow_channel(texel.g, shadow, diff, spec),
                                                b: shadow_channel(texel.b, shadow, diff, spec),
                                            },
                                            keep: true,
                                        },
                                    )
                                },
                            },
                        },
                    },
                }
            },
        }
    }
}

} // verus!
