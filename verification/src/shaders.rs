//! The shader variants: seven interchangeable implementations of the
//! `Shader` capability, from flat Gouraud intensity up to two-pass
//! shadow mapping.

pub mod common;
pub mod depth;
pub mod funny;
pub mod gouraud;
pub mod normal;
pub mod shadow;
pub mod specular;
pub mod texture;
