//! The normal-mapped shader: per-pixel tangent-space basis from the
//! triangle's edge and UV deltas, a sampled tangent-space normal, and
//! the resulting diffuse term over a diffuse texture.

use vstd::prelude::*;

use crate::buffer::RgbBuffer;
use crate::fx::FX_ONE;
use crate::geom::mat4_apply;
use crate::geom::mat4_apply_s;
use crate::geom::mat4_det_s;
use crate::geom::mat4_invert;
use crate::geom::mat4_invert_s;
use crate::geom::mat4_transpose;
use crate::geom::mat4_transpose_s;
use crate::geom::v3_dot;
use crate::geom::v3_dot_s;
use crate::geom::v3_extend;
use crate::geom::v3_extend_s;
use crate::geom::v4_project;
use crate::geom::v4_project_s;
use crate::geom::v4_truncate;
use crate::geom::v4_truncate_s;
use crate::geom::Mat4;
use crate::geom::Vec3fx;
use crate::geom::Vec4fx;
use crate::model::face_slot;
use crate::model::face_slot_s;
use crate::model::info_in_bounds;
use crate::model::Model;
use crate::shader::FragOut;
use crate::shader::Shader;
use crate::shaders::common::fx_max0;
use crate::shaders::common::fx_max0_s;
use crate::shaders::common::interp_v2;
use crate::shaders::common::interp_v2_s;
use crate::shaders::common::interp_v3;
use crate::shaders::common::interp_v3_s;
use crate::shaders::common::shade_rgb;
use crate::shaders::common::shade_rgb_s;
use crate::shaders::common::tangent_normal;
use crate::shaders::common::tangent_normal_s;
use crate::shaders::common::transformed_light;
use crate::shaders::common::transformed_light_s;
use crate::shaders::common::tri2_set;
use crate::shaders::common::tri2_set_s;
use crate::shaders::common::tri2_zero;
use crate::shaders::common::tri2_zero_s;
use crate::shaders::common::tri3_set;
use crate::shaders::common::tri3_set_s;
use crate::shaders::common::tri3_zero;
use crate::shaders::common::tri3_zero_s;
use crate::shaders::common::tri4_set;
use crate::shaders::common::tri4_set_s;
use crate::shaders::common::tri4_zero;
use crate::shaders::common::tri4_zero_s;
use crate::geom::v3_norm;
use crate::shaders::common::Tri2;
use crate::shaders::common::Tri3;
use crate::shaders::common::Tri4;
use crate::geom::v3_norm_s;
use crate::RenderError;

verus! {

/// Tangent-space normal mapping with a diffuse texture.
#[derive(Clone, Debug)]
pub struct NormalShader {
    pub light_dir: Vec3fx,
    pub texture: RgbBuffer,
    pub normal_map: RgbBuffer,
    pub varying_uv: Tri2,
    pub varying_tri: Tri4,
    pub ndc_tri: Tri3,
    pub varying_norm: Tri3,
    pub uniform_m: Mat4,
    pub uniform_mit: Mat4,
}

impl NormalShader {
    /// A fresh shader; transforms the light direction by `uniform_m`
    /// and keeps its inverse transpose for normals.  Fails exactly when
    /// `uniform_m` has zero fixed-point determinant.
    pub fn new(light_dir: Vec3fx, texture: RgbBuffer, normal_map: RgbBuffer, uniform_m: Mat4) -> (r:
        Result<NormalShader, RenderError>)
        requires
            texture.wf(),
            normal_map.wf(),
        ensures
            r is Ok <==> mat4_det_s(uniform_m) != 0,
            r is Err ==> r == Result::<NormalShader, RenderError>::Err(RenderError::SingularMatrix),
            r is Ok ==> {
                let s = r->Ok_0;
                &&& s.light_dir == transformed_light_s(uniform_m, light_dir)
                &&& s.texture == texture
                &&& s.normal_map == normal_map
                &&& s.varying_uv == tri2_zero_s()
                &&& s.varying_tri == tri4_zero_s()
                &&& s.ndc_tri == tri3_zero_s()
                &&& s.varying_norm == tri3_zero_s()
                &&& s.uniform_m == uniform_m
                &&& s.uniform_mit == mat4_transpose_s(mat4_invert_s(uniform_m)->Some_0)
                &&& s.wf()
            },
    {
        match mat4_invert(uniform_m) {
            Option::None => Result::Err(RenderError::SingularMatrix),
            Option::Some(inv) => Result::Ok(
                NormalShader {
                    light_dir: transformed_light(uniform_m, light_dir),
                    texture,
                    normal_map,
                    varying_uv: tri2_zero(),
                    varying_tri: tri4_zero(),
                    ndc_tri: tri3_zero(),
                    varying_norm: tri3_zero(),
                    uniform_m,
                    uniform_mit: mat4_transpose(inv),
                },
            ),
        }
    }
}

impl Shader for NormalShader {
    open spec fn wf(&self) -> bool {
        self.texture.wf() && self.normal_map.wf()
    }

    open spec fn frag_spec(&self, bc: Vec3fx) -> Result<FragOut, RenderError> {
        let bn = v3_norm_s(
            interp_v3_s(self.varying_norm.a, self.varying_norm.b, self.varying_norm.c, bc),
        );
        let uv = interp_v2_s(self.varying_uv.a, self.varying_uv.b, self.varying_uv.c, bc);
        match self.texture.sample_s(uv.x, uv.y) {
            Option::None => Result::Err(RenderError::SampleOutOfRange),
            Option::Some(texel) => match self.normal_map.sample_s(uv.x, uv.y) {
                Option::None => Result::Err(RenderError::SampleOutOfRange),
                Option::Some(nm_texel) => match tangent_normal_s(
                    bn,
                    self.ndc_tri.a,
                    self.ndc_tri.b,
                    self.ndc_tri.c,
                    self.varying_uv.a,
                    self.varying_uv.b,
                    self.varying_uv.c,
                    nm_texel,
                ) {
                    Result::Err(e) => Result::Err(e),
                    Result::Ok(n) => {
                        let inten = fx_max0_s(v3_dot_s(n, self.light_dir));
                        Result::Ok(FragOut { color: shade_rgb_s(texel, inten), keep: true })
                    },
                },
            },
        }
    }

    open spec fn vertex_spec(&self, model: Model, iface: int, nthvert: int, mat: Mat4) -> (
        NormalShader,
        Vec4fx,
    ) {
        let vi = face_slot_s(model.spec_faces()[iface], nthvert);
        let nrm = v4_truncate_s(
            mat4_apply_s(self.uniform_mit, v3_extend_s(model.spec_norms()[vi.vn as int], 0)),
        );
        let gl = v3_extend_s(model.spec_verts()[vi.v as int], FX_ONE);
        let s2 = NormalShader {
            varying_uv: tri2_set_s(self.varying_uv, nthvert, model.spec_uvs()[vi.vt as int]),
            varying_norm: tri3_set_s(self.varying_norm, nthvert, nrm),
            varying_tri: tri4_set_s(self.varying_tri, nthvert, gl),
            ndc_tri: tri3_set_s(self.ndc_tri, nthvert, v4_project_s(gl)),
            ..*self
        };
        (s2, mat4_apply_s(mat, gl))
    }

    fn vertex(&mut self, model: &Model, iface: usize, nthvert: usize, mat: Mat4) -> (r: Vec4fx) {
        proof {
            assert(info_in_bounds(
                face_slot_s(model.spec_faces()[iface as int], nthvert as int),
                model.spec_verts().len() as int,
                model.spec_norms().len() as int,
                model.spec_uvs().len() as int,
            ));
        }
        let f = model.get_faces()[iface];
        let vi = face_slot(&f, nthvert);
        let nrm = v4_truncate(mat4_apply(self.uniform_mit, v3_extend(model.get_norms()[vi.vn], 0)));
        let gl = v3_extend(model.get_verts()[vi.v], FX_ONE);
        self.varying_uv = tri2_set(self.varying_uv, nthvert, model.get_uvs()[vi.vt]);
        self.varying_norm = tri3_set(self.varying_norm, nthvert, nrm);
        self.varying_tri = tri4_set(self.varying_tri, nthvert, gl);
        self.ndc_tri = tri3_set(self.ndc_tri, nthvert, v4_project(gl));
        mat4_apply(mat, gl)
    }

    fn fragment(&self, bc: Vec3fx) -> (r: Result<FragOut, RenderError>) {
        let bn = v3_norm(interp_v3(self.varying_norm.a, self.varying_norm.b, self.varying_norm.c, bc));
        let uv = interp_v2(self.varying_uv.a, self.varying_uv.b, self.varying_uv.c, bc);
        match self.texture.sample(uv.x, uv.y) {
            Option::None => Result::Err(RenderError::SampleOutOfRange),
            Option::Some(texel) => match self.normal_map.sample(uv.x, uv.y) {
                Option::None => Result::Err(RenderError::SampleOutOfRange),
                Option::Some(nm_texel) => match tangent_normal(
                    bn,
                    self.ndc_tri.a,
                    self.ndc_tri.b,
                    self.ndc_tri.c,
                    self.varying_uv.a,
                    self.varying_uv.b,
                    self.varying_uv.c,
                    nm_texel,
                ) {
                    Result::Err(e) => Result::Err(e),
                    Result::Ok(n) => {
                        let inten = fx_max0(v3_dot(n, self.light_dir));
                        Result::Ok(FragOut { color: shade_rgb(texel, inten), keep: true })
                    },
                },
            },
        }
    }
}

} // verus!
