//! The depth shader of the shadow pass: outputs the interpolated depth
//! as grayscale, populating the shadow buffer.

use vstd::prelude::*;

use crate::buffer::Rgb;
use crate::fx::fx_div;
use crate::fx::fx_mul;
use crate::fx::fxd;
use crate::fx::fxm;
use crate::fx::FX_ONE;
use crate::geom::mat4_apply;
use crate::geom::mat4_apply_s;
use crate::geom::v3_extend;
use crate::geom::v3_extend_s;
use crate::geom::v4_project;
use crate::geom::v4_project_s;
use crate::geom::Mat4;
use crate::geom::Vec3fx;
use crate::geom::Vec4fx;
use crate::model::face_slot;
use crate::model::face_slot_s;
use crate::model::info_in_bounds;
use crate::model::Model;
use crate::shader::FragOut;
use crate::shader::Shader;
use crate::shaders::common::byte_of_fx;
use crate::shaders::common::byte_of_fx_s;
use crate::shaders::common::interp_v3;
use crate::shaders::common::interp_v3_s;
use crate::shaders::common::tri3_set;
use crate::shaders::common::tri3_set_s;
use crate::shaders::common::tri3_zero;
use crate::shaders::common::tri3_zero_s;
use crate::shaders::common::Tri3;
use crate::shaders::common::BYTE_MAX_FX;
use crate::transform::DEPTH_FX;
use crate::RenderError;

verus! {

/// Writes interpolated depth as grayscale (the shadow-pass shader).
#[derive(Clone, Copy, PartialEq, Eq, Structural, Debug)]
pub struct DepthShader {
    pub varying_tri: Tri3,
}

impl DepthShader {
    /// A fresh depth shader.
    pub fn new() -> (r: DepthShader)
        ensures
            r.varying_tri == tri3_zero_s(),
    {
        DepthShader { varying_tri: tri3_zero() }
    }
}

impl Shader for DepthShader {
    open spec fn wf(&self) -> bool {
        true
    }

    open spec fn frag_spec(&self, bc: Vec3fx) -> Result<FragOut, RenderError> {
        let p = interp_v3_s(self.varying_tri.a, self.varying_tri.b, self.varying_tri.c, bc);
        let d = byte_of_fx_s(fxd(fxm(BYTE_MAX_FX, p.z), DEPTH_FX));
        Result::Ok(FragOut { color: Rgb { r: d, g: d, b: d }, keep: true })
    }

    open spec fn vertex_spec(&self, model: Model, iface: int, nthvert: int, mat: Mat4) -> (
        DepthShader,
        Vec4fx,
    ) {
        let vi = face_slot_s(model.spec_faces()[iface], nthvert);
        let gl = mat4_apply_s(mat, v3_extend_s(model.spec_verts()[vi.v as int], FX_ONE));
        let s2 = DepthShader { varying_tri: tri3_set_s(self.varying_tri, nthvert, v4_project_s(gl)) };
        (s2, gl)
    }

    fn vertex(&mut self, model: &Model, iface: usize, nthvert: usize, mat: Mat4) -> (r: Vec4fx) {
        proof {
            assert(info_in_bounds(
                face_slot_s(model.spec_faces()[iface as int], nthvert as int),
                model.spec_verts().len() as int,
                model.spec_norms().len() as int,
                model.spec_uvs().len() as int,
            ));
        }
        let f = model.get_faces()[iface];
        let vi = face_slot(&f, nthvert);
        let gl = mat4_apply(mat, v3_extend(model.get_verts()[vi.v], FX_ONE));
        self.varying_tri = tri3_set(self.varying_tri, nthvert, v4_project(gl));
        gl
    }

    fn fragment(&self, bc: Vec3fx) -> (r: Result<FragOut, RenderError>) {
        let p = interp_v3(self.varying_tri.a, self.varying_tri.b, self.varying_tri.c, bc);
        let d = byte_of_fx(fx_div(fx_mul(BYTE_MAX_FX, p.z), DEPTH_FX));
        Result::Ok(FragOut { color: Rgb { r: d, g: d, b: d }, keep: true })
    }
}

} // verus!
