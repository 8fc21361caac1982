//! The textured shader: Gouraud intensity applied to a diffuse texture
//! sampled at interpolated UV coordinates.

use vstd::prelude::*;

use crate::buffer::RgbBuffer;
use crate::fx::FX_ONE;
use crate::geom::mat4_apply;
use crate::geom::mat4_apply_s;
use crate::geom::v3_dot;
use crate::geom::v3_dot_s;
use crate::geom::v3_extend;
use crate::geom::v3_extend_s;
use crate::geom::v3_norm;
use crate::geom::v3_norm_s;
use crate::geom::Mat4;
use crate::geom::Vec3fx;
use crate::geom::Vec4fx;
use crate::model::face_slot;
use crate::model::face_slot_s;
use crate::model::info_in_bounds;
use crate::model::Model;
use crate::shader::FragOut;
use crate::shader::Shader;
use crate::shaders::common::fx_max0;
use crate::shaders::common::fx_max0_s;
use crate::shaders::common::interp_v2;
use crate::shaders::common::interp_v2_s;
use crate::shaders::common::shade_rgb;
use crate::shaders::common::shade_rgb_s;
use crate::shaders::common::tri2_set;
use crate::shaders::common::tri2_set_s;
use crate::shaders::common::tri2_zero;
use crate::shaders::common::tri2_zero_s;
use crate::shaders::common::v3_set;
use crate::shaders::common::v3_set_s;
use crate::shaders::common::Tri2;
use crate::RenderError;

verus! {

/// Gouraud intensity over a sampled diffuse texture.
#[derive(Clone, Debug)]
pub struct TextureShader {
    pub light_dir: Vec3fx,
    pub texture: RgbBuffer,
    pub varying_intensity: Vec3fx,
    pub varying_uv: Tri2,
}

impl TextureShader {
    /// A fresh shader over the given diffuse texture.
    pub fn new(light_dir: Vec3fx, texture: RgbBuffer) -> (r: TextureShader)
        requires
            texture.wf(),
        ensures
            r.light_dir == light_dir,
            r.texture == texture,
            r.varying_intensity == (Vec3fx { x: 0, y: 0, z: 0 }),
            r.varying_uv == tri2_zero_s(),
            r.wf(),
    {
        TextureShader {
            light_dir,
            texture,
            varying_intensity: Vec3fx { x: 0, y: 0, z: 0 },
            varying_uv: tri2_zero(),
        }
    }
}

impl Shader for TextureShader {
    open spec fn wf(&self) -> bool {
        self.texture.wf()
    }

    open spec fn frag_spec(&self, bc: Vec3fx) -> Result<FragOut, RenderError> {
        let uv = interp_v2_s(self.varying_uv.a, self.varying_uv.b, self.varying_uv.c, bc);
        match self.texture.sample_s(uv.x, uv.y) {
            Option::None => Result::Err(RenderError::SampleOutOfRange),
            Option::Some(texel) => {
                let inten = v3_dot_s(self.varying_intensity, bc);
                Result::Ok(FragOut { color: shade_rgb_s(texel, inten), keep: true })
            },
        }
    }

    open spec fn vertex_spec(&self, model: Model, iface: int, nthvert: int, mat: Mat4) -> (
        TextureShader,
        Vec4fx,
    ) {
        let vi = face_slot_s(model.spec_faces()[iface], nthvert);
        let nrm = model.spec_norms()[vi.vn as int];
        let inten = fx_max0_s(v3_dot_s(nrm, v3_norm_s(self.light_dir)));
        let s2 = TextureShader {
            varying_intensity: v3_set_s(self.varying_intensity, nthvert, inten),
            varying_uv: tri2_set_s(self.varying_uv, nthvert, model.spec_uvs()[vi.vt as int]),
            ..*self
        };
        (s2, mat4_apply_s(mat, v3_extend_s(model.spec_verts()[vi.v as int], FX_ONE)))
    }

    fn vertex(&mut self, model: &Model, iface: usize, nthvert: usize, mat: Mat4) -> (r: Vec4fx) {
        proof {
            assert(info_in_bounds(
                face_slot_s(model.spec_faces()[iface as int], nthvert as int),
                model.spec_verts().len() as int,
                model.spec_norms().len() as int,
                model.spec_uvs().len() as int,
            ));
        }
        let f = model.get_faces()[iface];
        let vi = face_slot(&f, nthvert);
        let nrm = model.get_norms()[vi.vn];
        let inten = fx_max0(v3_dot(nrm, v3_norm(self.light_dir)));
        self.varying_intensity = v3_set(self.varying_intensity, nthvert, inten);
        self.varying_uv = tri2_set(self.varying_uv, nthvert, model.get_uvs()[vi.vt]);
        mat4_apply(mat, v3_extend(model.get_verts()[vi.v], FX_ONE))
    }

    fn fragment(&self, bc: Vec3fx) -> (r: Result<FragOut, RenderError>) {
        let uv = interp_v2(self.varying_uv.a, self.varying_uv.b, self.varying_uv.c, bc);
        match self.texture.sample(uv.x, uv.y) {
            Option::None => Result::Err(RenderError::SampleOutOfRange),
            Option::Some(texel) => {
                let inten = v3_dot(self.varying_intensity, bc);
                Result::Ok(FragOut { color: shade_rgb(texel, inten), keep: true })
            },
        }
    }
}

} // verus!
