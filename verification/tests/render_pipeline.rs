//! Mesh validation, buffer behavior, and the two-pass renderer:
//! rendering the same scene twice is byte-identical.

use softraster::buffer::{GrayBuffer, Rgb, RgbBuffer};
use softraster::fx::FX_ONE;
use softraster::geom::{Vec2fx, Vec3fx};
use softraster::model::{Face, Model, VertexInfo};
use softraster::pipeline::{render, RenderConfig, RenderOutput, TextureSet};

fn v3(x: i64, y: i64, z: i64) -> Vec3fx {
    Vec3fx { x, y, z }
}

fn v2(x: i64, y: i64) -> Vec2fx {
    Vec2fx { x, y }
}

#[test]
fn model_rejects_out_of_bounds_indices() {
    let verts = vec![v3(0, 0, 0)];
    let norms = vec![v3(0, 0, FX_ONE)];
    let uvs = vec![v2(0, 0)];
    let good = Face {
        a: VertexInfo { v: 0, vn: 0, vt: 0 },
        b: VertexInfo { v: 0, vn: 0, vt: 0 },
        c: VertexInfo { v: 0, vn: 0, vt: 0 },
    };
    assert!(Model::new(verts.clone(), norms.clone(), uvs.clone(), vec![good]).is_some());
    let bad = Face {
        a: VertexInfo { v: 1, vn: 0, vt: 0 },
        b: VertexInfo { v: 0, vn: 0, vt: 0 },
        c: VertexInfo { v: 0, vn: 0, vt: 0 },
    };
    assert!(Model::new(verts, norms, uvs, vec![bad]).is_none());
}

#[test]
fn buffer_round_trips_pixels() {
    let mut b = RgbBuffer::new(4, 3);
    assert_eq!(b.width(), 4);
    assert_eq!(b.height(), 3);
    assert_eq!(b.get_pixel(2, 1), Rgb { r: 0, g: 0, b: 0 });
    b.put_pixel(2, 1, Rgb { r: 7, g: 8, b: 9 });
    assert_eq!(b.get_pixel(2, 1), Rgb { r: 7, g: 8, b: 9 });
    assert_eq!(b.get_pixel(1, 2), Rgb { r: 0, g: 0, b: 0 });
}

#[test]
fn buffer_from_mismatched_pixels_is_rejected() {
    assert!(RgbBuffer::from_pixels(2, 2, vec![Rgb { r: 0, g: 0, b: 0 }; 3]).is_none());
    assert!(GrayBuffer::from_pixels(2, 2, vec![0u8; 4]).is_some());
}

#[test]
fn texture_sampling_truncates_and_bounds_checks() {
    let g = GrayBuffer::from_pixels(2, 2, vec![1, 2, 3, 4]).unwrap();
    assert_eq!(g.sample(0, 0), Some(1));
    // u == 0.5 scales to column 1
    assert_eq!(g.sample(32768, 0), Some(2));
    assert_eq!(g.sample(0, 32768), Some(3));
    // u == 1.0 scales to column 2: out of the 2-wide grid
    assert_eq!(g.sample(FX_ONE, 0), None);
    // a tiny negative truncates toward zero, landing on column 0
    assert_eq!(g.sample(-1, 0), Some(1));
    assert_eq!(g.sample(-FX_ONE, 0), None);
    // screen-coordinate reads truncate to the pixel grid
    assert_eq!(g.at_screen(FX_ONE, FX_ONE), Some(4));
    assert_eq!(g.at_screen(2 * FX_ONE, 0), None);
}

fn test_scene() -> (Model, RenderConfig, TextureSet) {
    let half = FX_ONE / 2;
    let verts = vec![v3(-half, -half, 0), v3(half, -half, 0), v3(0, half, 0)];
    let norms = vec![v3(0, 0, FX_ONE)];
    let uvs = vec![v2(0, 0)];
    let faces = vec![Face {
        a: VertexInfo { v: 0, vn: 0, vt: 0 },
        b: VertexInfo { v: 1, vn: 0, vt: 0 },
        c: VertexInfo { v: 2, vn: 0, vt: 0 },
    }];
    let model = Model::new(verts, norms, uvs, faces).unwrap();
    let cfg = RenderConfig {
        width: 64,
        height: 64,
        light_dir: v3(0, 0, FX_ONE),
        eye: v3(0, 0, 2 * FX_ONE),
        center: v3(0, 0, 0),
        up: v3(0, FX_ONE, 0),
    };
    let textures = TextureSet {
        diffuse: RgbBuffer::from_pixels(1, 1, vec![Rgb { r: 200, g: 150, b: 100 }]).unwrap(),
        normal_map: RgbBuffer::from_pixels(1, 1, vec![Rgb { r: 128, g: 128, b: 255 }]).unwrap(),
        specular_map: GrayBuffer::from_pixels(1, 1, vec![1]).unwrap(),
    };
    (model, cfg, textures)
}

fn buffers_equal(a: &RenderOutput, b: &RenderOutput) -> bool {
    let w = a.color.width();
    let h = a.color.height();
    if b.color.width() != w || b.color.height() != h {
        return false;
    }
    for y in 0..h {
        for x in 0..w {
            if a.color.get_pixel(x, y) != b.color.get_pixel(x, y) {
                return false;
            }
            if a.depth.get_pixel(x, y) != b.depth.get_pixel(x, y) {
                return false;
            }
            if a.shadow.get_pixel(x, y) != b.shadow.get_pixel(x, y) {
                return false;
            }
        }
    }
    true
}

#[test]
fn rendering_twice_is_byte_identical() {
    let (model, cfg, textures) = test_scene();
    let (model2, cfg2, textures2) = test_scene();
    let r1 = render(&model, &cfg, textures);
    let r2 = render(&model2, &cfg2, textures2);
    match (r1, r2) {
        (Ok(a), Ok(b)) => {
            assert!(buffers_equal(&a, &b));
        },
        (Err(e1), Err(e2)) => {
            assert_eq!(e1, e2);
        },
        _ => panic!("the two renders disagree"),
    }
}

#[test]
fn render_completes_and_sizes_its_buffers() {
    let (model, cfg, textures) = test_scene();
    let out = render(&model, &cfg, textures).unwrap();
    assert_eq!(out.color.width(), 64);
    assert_eq!(out.color.height(), 64);
    assert_eq!(out.depth.width(), 64);
    assert_eq!(out.shadow.width(), 64);
    // the shadow pass saw the mesh: some shadow depth is nonzero
    let mut any = false;
    for y in 0..64usize {
        for x in 0..64usize {
            if out.shadow.get_pixel(x, y) != 0 {
                any = true;
            }
        }
    }
    assert!(any);
}
