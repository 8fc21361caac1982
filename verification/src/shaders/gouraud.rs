//! The flat-intensity (Gouraud) shader: per-vertex diffuse intensity,
//! interpolated and rendered as grayscale.

use vstd::prelude::*;

use crate::buffer::Rgb;
use crate::fx::fx_mul;
use crate::fx::fxm;
use crate::fx::FX_ONE;
use crate::geom::mat4_apply;
use crate::geom::mat4_apply_s;
use crate::geom::v3_dot;
use crate::geom::v3_dot_s;
use crate::geom::v3_extend;
use crate::geom::v3_extend_s;
use crate::geom::v3_norm;
use crate::geom::v3_norm_s;
use crate::geom::Mat4;
use crate::geom::Vec3fx;
use crate::geom::Vec4fx;
use crate::model::face_slot;
use crate::model::face_slot_s;
use crate::model::info_in_bounds;
use crate::model::Model;
use crate::shader::FragOut;
use crate::shader::Shader;
use crate::shaders::common::byte_of_fx;
use crate::shaders::common::byte_of_fx_s;
use crate::shaders::common::fx_max0;
use crate::shaders::common::fx_max0_s;
use crate::shaders::common::v3_set;
use crate::shaders::common::v3_set_s;
use crate::shaders::common::BYTE_MAX_FX;
use crate::RenderError;

verus! {

/// Diffuse intensity per vertex slot, grayscale output.
#[derive(Clone, Copy, PartialEq, Eq, Structural, Debug)]
pub struct GouraudShader {
    pub light_dir: Vec3fx,
    pub varying_intensity: Vec3fx,
}

impl GouraudShader {
    /// A fresh shader lit from `light_dir` (not yet normalized).
    pub fn new(light_dir: Vec3fx) -> (r: GouraudShader)
        ensures
            r.light_dir == light_dir,
            r.varying_intensity == (Vec3fx { x: 0, y: 0, z: 0 }),
    {
        GouraudShader { light_dir, varying_intensity: Vec3fx { x: 0, y: 0, z: 0 } }
    }
}

impl Shader for GouraudShader {
    open spec fn wf(&self) -> bool {
        true
    }

    open spec fn frag_spec(&self, bc: Vec3fx) -> Result<FragOut, RenderError> {
        let inten = v3_dot_s(self.varying_intensity, bc);
        let g = byte_of_fx_s(fxm(BYTE_MAX_FX, inten));
        Result::Ok(FragOut { color: Rgb { r: g, g: g, b: g }, keep: true })
    }

    open spec fn vertex_spec(&self, model: Model, iface: int, nthvert: int, mat: Mat4) -> (
        GouraudShader,
        Vec4fx,
    ) {
        let vi = face_slot_s(model.spec_faces()[iface], nthvert);
        let nrm = model.spec_norms()[vi.vn as int];
        let inten = fx_max0_s(v3_dot_s(nrm, v3_norm_s(self.light_dir)));
        let s2 = GouraudShader {
            varying_intensity: v3_set_s(self.varying_intensity, nthvert, inten),
            ..*self
        };
        (s2, mat4_apply_s(mat, v3_extend_s(model.spec_verts()[vi.v as int], FX_ONE)))
    }

    fn vertex(&mut self, model: &Model, iface: usize, nthvert: usize, mat: Mat4) -> (r: Vec4fx) {
        proof {
            assert(info_in_bounds(
                face_slot_s(model.spec_faces()[iface as int], nthvert as int),
                model.spec_verts().len() as int,
                model.spec_norms().len() as int,
                model.spec_uvs().len() as int,
            ));
        }
        let f = model.get_faces()[iface];
        let vi = face_slot(&f, nthvert);
        let nrm = model.get_norms()[vi.vn];
        let inten = fx_max0(v3_dot(nrm, v3_norm(self.light_dir)));
        self.varying_intensity = v3_set(self.varying_intensity, nthvert, inten);
        mat4_apply(mat, v3_extend(model.get_verts()[vi.v], FX_ONE))
    }

    fn fragment(&self, bc: Vec3fx) -> (r: Result<FragOut, RenderError>) {
        let inten = v3_dot(self.varying_intensity, bc);
        let g = byte_of_fx(fx_mul(BYTE_MAX_FX, inten));
        Result::Ok(FragOut { color: Rgb { r: g, g: g, b: g }, keep: true })
    }
}

} // verus!
