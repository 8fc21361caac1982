//! The shader variants: band quantization, texture sampling and its
//! error, the shadow attenuation factor, and the flat-normal-map
//! agreement between the normal-mapped and plain intensity shaders.

use softraster::buffer::{GrayBuffer, Rgb, RgbBuffer};
use softraster::fx::FX_ONE;
use softraster::geom::{mat4_identity, Vec2fx, Vec3fx};
use softraster::model::{Face, Model, VertexInfo};
use softraster::shader::Shader;
use softraster::shaders::common::{Tri2, Tri3, Tri4};
use softraster::geom::Vec4fx;
use softraster::shaders::funny::band;
use softraster::shaders::gouraud::GouraudShader;
use softraster::shaders::normal::NormalShader;
use softraster::shaders::shadow::{shadow_factor, SHADOW_DIM_FX};
use softraster::shaders::texture::TextureShader;
use softraster::RenderError;

fn v3(x: i64, y: i64, z: i64) -> Vec3fx {
    Vec3fx { x, y, z }
}

fn v2(x: i64, y: i64) -> Vec2fx {
    Vec2fx { x, y }
}

fn white_1x1() -> RgbBuffer {
    RgbBuffer::from_pixels(1, 1, vec![Rgb { r: 255, g: 255, b: 255 }]).unwrap()
}

/// A flat tangent-space normal map: every texel encodes the straight-up
/// normal (128, 128, 255).
fn flat_normal_map_1x1() -> RgbBuffer {
    RgbBuffer::from_pixels(1, 1, vec![Rgb { r: 128, g: 128, b: 255 }]).unwrap()
}

/// One triangle in the z = 0 plane with up normals and axis-aligned
/// UV coordinates.
fn flat_triangle_model() -> Model {
    let verts = vec![v3(0, 0, 0), v3(FX_ONE, 0, 0), v3(0, FX_ONE, 0)];
    let norms = vec![v3(0, 0, FX_ONE)];
    let uvs = vec![v2(0, 0), v2(FX_ONE, 0), v2(0, FX_ONE)];
    let faces = vec![Face {
        a: VertexInfo { v: 0, vn: 0, vt: 0 },
        b: VertexInfo { v: 1, vn: 0, vt: 1 },
        c: VertexInfo { v: 2, vn: 0, vt: 2 },
    }];
    Model::new(verts, norms, uvs, faces).unwrap()
}

#[test]
fn band_quantizes_into_six_levels() {
    assert_eq!(band(60000), 65536);
    assert_eq!(band(50000), 52429);
    assert_eq!(band(35000), 39322);
    assert_eq!(band(25000), 29491);
    assert_eq!(band(15000), 19661);
    assert_eq!(band(9000), 0);
    // the thresholds are strict
    assert_eq!(band(55705), 52429);
    assert_eq!(band(9830), 0);
}

#[test]
fn texture_sample_out_of_range_is_an_error() {
    // varying UV beyond the unit square: the scaled texel index leaves
    // the 1x1 grid, which is a fatal sampling error
    let shader = TextureShader {
        light_dir: v3(0, 0, FX_ONE),
        texture: white_1x1(),
        varying_intensity: v3(FX_ONE, FX_ONE, FX_ONE),
        varying_uv: Tri2 { a: v2(2 * FX_ONE, 0), b: v2(2 * FX_ONE, 0), c: v2(2 * FX_ONE, 0) },
    };
    let r = shader.fragment(v3(FX_ONE, 0, 0));
    assert_eq!(r, Err(RenderError::SampleOutOfRange));
}

#[test]
fn texture_sample_in_range_shades_the_texel() {
    let shader = TextureShader {
        light_dir: v3(0, 0, FX_ONE),
        texture: white_1x1(),
        varying_intensity: v3(FX_ONE, FX_ONE, FX_ONE),
        varying_uv: Tri2 { a: v2(0, 0), b: v2(0, 0), c: v2(0, 0) },
    };
    // weight exactly 1 on the first vertex slot
    let out = shader.fragment(v3(FX_ONE, 0, 0)).unwrap();
    assert!(out.keep);
    assert_eq!(out.color, Rgb { r: 255, g: 255, b: 255 });
}

#[test]
fn shadow_factor_full_when_visible_dim_when_occluded() {
    // stored depth 100, fragment at depth 100: visible to the light
    assert_eq!(shadow_factor(100, 100 * FX_ONE), FX_ONE);
    // stored depth 120, fragment at depth 100: occluded beyond the
    // bias of 5, so the dim factor applies
    assert_eq!(shadow_factor(120, 100 * FX_ONE), SHADOW_DIM_FX);
    // within the bias the fragment still counts as lit
    assert_eq!(shadow_factor(104, 100 * FX_ONE), FX_ONE);
    assert_eq!(shadow_factor(105, 100 * FX_ONE), SHADOW_DIM_FX);
}

fn shadow_scene_shader(stored_at_1_1: u8) -> softraster::shaders::shadow::ShadowShader {
    let mut shadow_data = vec![0u8; 16];
    shadow_data[5] = stored_at_1_1;
    let up = v3(0, 0, FX_ONE);
    softraster::shaders::shadow::ShadowShader {
        light_dir: up,
        texture: RgbBuffer::from_pixels(1, 1, vec![Rgb { r: 200, g: 200, b: 200 }]).unwrap(),
        normal_map: flat_normal_map_1x1(),
        specular_map: GrayBuffer::from_pixels(1, 1, vec![0]).unwrap(),
        varying_uv: Tri2 { a: v2(0, 0), b: v2(0, 0), c: v2(0, 0) },
        varying_tri: Tri4 {
            a: Vec4fx { x: 0, y: 0, z: 0, w: 0 },
            b: Vec4fx { x: 0, y: 0, z: 0, w: 0 },
            c: Vec4fx { x: 0, y: 0, z: 0, w: 0 },
        },
        // the fragment reprojects to shadow texel (1, 1) at depth 100
        ndc_tri: Tri3 {
            a: v3(FX_ONE, FX_ONE, 100 * FX_ONE),
            b: v3(2 * FX_ONE, FX_ONE, 100 * FX_ONE),
            c: v3(FX_ONE, 2 * FX_ONE, 100 * FX_ONE),
        },
        varying_norm: Tri3 { a: up, b: up, c: up },
        uniform_m: mat4_identity(),
        uniform_mit: mat4_identity(),
        uniform_m_shadow: mat4_identity(),
        shadow_buffer: GrayBuffer::from_pixels(4, 4, shadow_data).unwrap(),
    }
}

#[test]
fn unoccluded_fragment_is_lit_and_occluded_fragment_is_dimmed() {
    // The shadow pass stored depth 10 at the reprojected texel: the
    // fragment at depth 100 is the light's nearest surface and gets
    // the full contribution.  With stored depth 200 the fragment lies
    // behind an occluder (beyond the bias of 5) and is attenuated.
    let lit = shadow_scene_shader(10).fragment(v3(FX_ONE, 0, 0)).unwrap();
    let dim = shadow_scene_shader(200).fragment(v3(FX_ONE, 0, 0)).unwrap();
    assert_eq!(lit.color.r, 255);
    assert!(dim.color.r < lit.color.r);
    assert!(dim.color.r > 0);
    assert_eq!(dim.color.r, dim.color.g);
    // the boundary: stored depth just within the bias still counts lit
    let edge_lit = shadow_scene_shader(104).fragment(v3(FX_ONE, 0, 0)).unwrap();
    let edge_dim = shadow_scene_shader(105).fragment(v3(FX_ONE, 0, 0)).unwrap();
    assert_eq!(edge_lit.color.r, 255);
    assert!(edge_dim.color.r < 255);
}

#[test]
fn singular_uniform_matrix_fails_shader_construction() {
    let zero = softraster::geom::Mat4 {
        m00: 0, m01: 0, m02: 0, m03: 0,
        m10: 0, m11: 0, m12: 0, m13: 0,
        m20: 0, m21: 0, m22: 0, m23: 0,
        m30: 0, m31: 0, m32: 0, m33: 0,
    };
    let r = NormalShader::new(v3(0, 0, FX_ONE), white_1x1(), flat_normal_map_1x1(), zero);
    assert!(matches!(r, Err(RenderError::SingularMatrix)));
}

#[test]
fn flat_normal_map_reduces_to_plain_intensity_shading() {
    // With a flat normal map (straight-up normals), an up-facing
    // triangle lit straight from above, and an identity uniform
    // transform, the normal-mapped shader produces the same diffuse
    // output as the plain intensity (Gouraud) shader.
    let model = flat_triangle_model();
    let light = v3(0, 0, FX_ONE);
    let id = mat4_identity();

    let mut gouraud = GouraudShader::new(light);
    let mut normal = NormalShader::new(light, white_1x1(), flat_normal_map_1x1(), id).unwrap();
    for slot in 0..3usize {
        gouraud.vertex(&model, 0, slot, id);
        normal.vertex(&model, 0, slot, id);
    }
    // a pixel exactly on vertex slot 0, and one on the 0-1 edge middle
    for bc in [v3(FX_ONE, 0, 0), v3(32768, 32768, 0)] {
        let g = gouraud.fragment(bc).unwrap();
        let n = normal.fragment(bc).unwrap();
        assert_eq!(g.color, n.color, "weights {:?}", bc);
        assert_eq!(g.color, Rgb { r: 255, g: 255, b: 255 });
    }
}
