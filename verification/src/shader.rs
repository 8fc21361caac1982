//! The pluggable shader capability: a per-triangle vertex stage that
//! writes varying state, and a per-pixel fragment stage that reads it
//! back, interpolated by barycentric weights.

use vstd::prelude::*;

use crate::geom::Mat4;
use crate::geom::Vec3fx;
use crate::geom::Vec4fx;
use crate::buffer::Rgb;
use crate::model::Model;
use crate::RenderError;

verus! {

/// What the fragment stage decides for one covered, depth-passing
/// pixel: a color, and whether to keep the write at all.
#[derive(Clone, Copy, PartialEq, Eq, Structural, Debug)]
pub struct FragOut {
    pub color: Rgb,
    pub keep: bool,
}

/// A programmable shader.  `vertex` runs exactly three times per
/// triangle (vertex slots 0, 1, 2), mutating the shader's varying
/// state and returning the clip-space position; `fragment` then runs
/// once per covered, depth-passing pixel of the same triangle.
///
/// Both stages are specified exactly: `vertex_spec` and `frag_spec`
/// are the mathematical accounts of the two stages, and the rasterizer
/// and orchestrator contracts are stated over them.
pub trait Shader: Sized {
    /// The shader state is usable (its texture grids are well-formed).
    spec fn wf(&self) -> bool;

    /// What `fragment` returns, as a function of the shader state and
    /// the barycentric weights alone.
    spec fn frag_spec(&self, bc: Vec3fx) -> Result<FragOut, RenderError>;

    /// What `vertex` does: the updated shader state, and the returned
    /// clip-space position.
    spec fn vertex_spec(&self, model: Model, iface: int, nthvert: int, mat: Mat4) -> (Self, Vec4fx);

    /// Run the vertex stage for one corner of face `iface`.
    fn vertex(&mut self, model: &Model, iface: usize, nthvert: usize, mat: Mat4) -> (r: Vec4fx)
        requires
            old(self).wf(),
            model.wf(),
            iface < model.spec_faces().len(),
            nthvert < 3,
        ensures
            final(self).wf(),
            (*final(self), r) == old(self).vertex_spec(*model, iface as int, nthvert as int, mat),
    ;

    /// Run the fragment stage at one pixel.
    fn fragment(&self, bc: Vec3fx) -> (r: Result<FragOut, RenderError>)
        requires
            self.wf(),
        ensures
            r == self.frag_spec(bc),
    ;
}

} // verus!
