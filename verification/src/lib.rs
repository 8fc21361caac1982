//! A CPU software rasterizer: transform pipeline, barycentric triangle
//! rasterization with a depth buffer, pluggable shaders, and two-pass
//! shadow mapping, all over saturating 16.16 fixed-point arithmetic.

pub mod buffer;
pub mod fx;
pub mod geom;
pub mod model;
pub mod pipeline;
pub mod raster;
pub mod shader;
pub mod shaders;
pub mod transform;

use vstd::prelude::*;

verus! {

/// A fatal rendering failure; any of these aborts the whole render.
#[derive(Clone, Copy, PartialEq, Eq, Structural, Debug)]
pub enum RenderError {
    /// A matrix that the pipeline must invert has determinant zero.
    SingularMatrix,
    /// A texture or shadow-buffer sample fell outside the pixel grid.
    SampleOutOfRange,
}

} // verus!
