//! The triangle rasterizer: exact coverage, depth testing, and
//! draw-order independence of overlapping triangles.

use softraster::buffer::{GrayBuffer, RgbBuffer};
use softraster::fx::FX_ONE;
use softraster::geom::{Vec3fx, Vec4fx};
use softraster::raster::{triangle, ClipTri};
use softraster::shaders::depth::DepthShader;
use softraster::shaders::gouraud::GouraudShader;

fn v4(x: i64, y: i64, z: i64, w: i64) -> Vec4fx {
    Vec4fx { x, y, z, w }
}

/// The right triangle (400,400), (450,400), (400,450) at uniform clip
/// depth `z`.
fn unit_right_triangle(z: i64) -> ClipTri {
    ClipTri {
        v0: v4(400 * FX_ONE, 400 * FX_ONE, z, FX_ONE),
        v1: v4(450 * FX_ONE, 400 * FX_ONE, z, FX_ONE),
        v2: v4(400 * FX_ONE, 450 * FX_ONE, z, FX_ONE),
    }
}

#[test]
fn coverage_is_exactly_the_nonnegative_weight_pixels() {
    // A triangle at uniform depth 10 fills exactly the pixels whose
    // barycentric weights are all at least zero: x >= 400, y >= 400,
    // x + y <= 850.  No pixel outside the bounding box is touched.
    let tri = unit_right_triangle(10 * FX_ONE);
    let shader = DepthShader::new();
    let mut cb = RgbBuffer::new(512, 512);
    let mut db = GrayBuffer::new(512, 512);
    let r = triangle(&tri, &shader, &mut cb, &mut db);
    assert!(r.is_ok());
    for y in 0..512usize {
        for x in 0..512usize {
            let inside = x >= 400 && y >= 400 && x + y <= 850;
            let d = db.get_pixel(x, y);
            if inside {
                // perspective-correct depth of a flat triangle is exact
                assert_eq!(d, 10, "pixel ({}, {})", x, y);
            } else {
                assert_eq!(d, 0, "pixel ({}, {})", x, y);
            }
        }
    }
}

#[test]
fn interior_point_is_covered_and_exterior_is_not() {
    // The barycentric weights of a strictly interior pixel are all
    // positive, so the pixel is filled; a pixel strictly beyond an
    // edge has a negative weight and stays untouched.
    let tri = unit_right_triangle(10 * FX_ONE);
    let shader = DepthShader::new();
    let mut cb = RgbBuffer::new(512, 512);
    let mut db = GrayBuffer::new(512, 512);
    triangle(&tri, &shader, &mut cb, &mut db).unwrap();
    assert_eq!(db.get_pixel(401, 401), 10);
    assert_eq!(db.get_pixel(425, 420), 10);
    assert_eq!(db.get_pixel(399, 425), 0);
    assert_eq!(db.get_pixel(425, 399), 0);
    assert_eq!(db.get_pixel(426, 426), 0);
}

#[test]
fn negative_screen_coordinate_skips_whole_triangle() {
    let tri = ClipTri {
        v0: v4(-FX_ONE, 400 * FX_ONE, 0, FX_ONE),
        v1: v4(450 * FX_ONE, 400 * FX_ONE, 0, FX_ONE),
        v2: v4(400 * FX_ONE, 450 * FX_ONE, 0, FX_ONE),
    };
    let shader = DepthShader::new();
    let mut cb = RgbBuffer::new(512, 512);
    let mut db = GrayBuffer::new(512, 512);
    triangle(&tri, &shader, &mut cb, &mut db).unwrap();
    for y in 0..512usize {
        for x in 0..512usize {
            assert_eq!(db.get_pixel(x, y), 0);
        }
    }
}

#[test]
fn degenerate_triangle_rasterizes_nothing() {
    // all three corners on one line: the cross product vanishes
    let tri = ClipTri {
        v0: v4(100 * FX_ONE, 100 * FX_ONE, 10 * FX_ONE, FX_ONE),
        v1: v4(200 * FX_ONE, 200 * FX_ONE, 10 * FX_ONE, FX_ONE),
        v2: v4(300 * FX_ONE, 300 * FX_ONE, 10 * FX_ONE, FX_ONE),
    };
    let shader = DepthShader::new();
    let mut cb = RgbBuffer::new(512, 512);
    let mut db = GrayBuffer::new(512, 512);
    triangle(&tri, &shader, &mut cb, &mut db).unwrap();
    for y in 0..512usize {
        for x in 0..512usize {
            assert_eq!(db.get_pixel(x, y), 0);
        }
    }
}

fn flat_gray_shader(level: i64) -> GouraudShader {
    GouraudShader {
        light_dir: Vec3fx { x: 0, y: 0, z: FX_ONE },
        varying_intensity: Vec3fx { x: level, y: level, z: level },
    }
}

#[test]
fn nearer_triangle_wins_regardless_of_draw_order() {
    // Two coincident triangles at depths 10 (far, bright) and 20
    // (near, black): the nearer one's color must stand at every
    // covered pixel, whichever is drawn first.
    let far = unit_right_triangle(10 * FX_ONE);
    let near = unit_right_triangle(20 * FX_ONE);
    let bright = flat_gray_shader(FX_ONE);
    let black = flat_gray_shader(0);

    let mut cb1 = RgbBuffer::new(512, 512);
    let mut db1 = GrayBuffer::new(512, 512);
    triangle(&far, &bright, &mut cb1, &mut db1).unwrap();
    triangle(&near, &black, &mut cb1, &mut db1).unwrap();

    let mut cb2 = RgbBuffer::new(512, 512);
    let mut db2 = GrayBuffer::new(512, 512);
    triangle(&near, &black, &mut cb2, &mut db2).unwrap();
    triangle(&far, &bright, &mut cb2, &mut db2).unwrap();

    for y in 400..460usize {
        for x in 400..460usize {
            let covered = x >= 400 && y >= 400 && x + y <= 850;
            let p1 = cb1.get_pixel(x, y);
            let p2 = cb2.get_pixel(x, y);
            assert_eq!(p1, p2, "order dependence at ({}, {})", x, y);
            if covered {
                // the near triangle is black
                assert_eq!(p1.r, 0);
                assert_eq!(p1.g, 0);
                assert_eq!(p1.b, 0);
                assert_eq!(db1.get_pixel(x, y), 20);
                assert_eq!(db2.get_pixel(x, y), 20);
            }
        }
    }
}

#[test]
fn depth_buffer_never_decreases() {
    // drawing a farther triangle over a nearer one leaves every depth
    // entry in place
    let near = unit_right_triangle(20 * FX_ONE);
    let far = unit_right_triangle(10 * FX_ONE);
    let shader = DepthShader::new();
    let mut cb = RgbBuffer::new(512, 512);
    let mut db = GrayBuffer::new(512, 512);
    triangle(&near, &shader, &mut cb, &mut db).unwrap();
    let before: Vec<u8> = (0..512usize)
        .flat_map(|y| (0..512usize).map(move |x| (x, y)))
        .map(|(x, y)| db.get_pixel(x, y))
        .collect();
    triangle(&far, &shader, &mut cb, &mut db).unwrap();
    let mut i = 0;
    for y in 0..512usize {
        for x in 0..512usize {
            assert!(db.get_pixel(x, y) >= before[i]);
            i += 1;
        }
    }
}
