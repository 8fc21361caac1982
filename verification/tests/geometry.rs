//! Vector and matrix arithmetic, the transform builder, and the
//! canvas-bounds round trip of the composed pipeline matrix.

use softraster::fx::FX_ONE;
use softraster::geom::{
    mat3_invert, mat3_rows, mat4_apply, mat4_identity, mat4_invert, mat4_mul, v3_cross, v3_dot,
    v3_mag, v3_norm, v4_project, Mat4, Vec3fx, Vec4fx,
};
use softraster::transform::{lookat, projection, viewport, DEPTH_FX};

fn v3(x: i64, y: i64, z: i64) -> Vec3fx {
    Vec3fx { x, y, z }
}

#[test]
fn dot_and_cross_exact() {
    let a = v3(FX_ONE, 0, 0);
    let b = v3(0, FX_ONE, 0);
    assert_eq!(v3_dot(a, b), 0);
    assert_eq!(v3_dot(a, a), FX_ONE);
    assert_eq!(v3_cross(a, b), v3(0, 0, FX_ONE));
    assert_eq!(v3_cross(b, a), v3(0, 0, -FX_ONE));
}

#[test]
fn magnitude_and_normalize() {
    // a 3-4-5 triangle: |(3, 0, 4)| == 5
    let v = v3(3 * FX_ONE, 0, 4 * FX_ONE);
    assert_eq!(v3_mag(v), 5 * FX_ONE);
    let n = v3_norm(v);
    // 3/5 and 4/5, truncated
    assert_eq!(n, v3(39321, 0, 52428));
    // the zero vector stays zero
    assert_eq!(v3_norm(v3(0, 0, 0)), v3(0, 0, 0));
}

#[test]
fn identity_inverts_to_identity() {
    let id = mat4_identity();
    assert_eq!(mat4_invert(id), Some(id));
    assert_eq!(mat4_mul(id, id), id);
}

#[test]
fn singular_matrix_has_no_inverse() {
    let zero = Mat4 {
        m00: 0, m01: 0, m02: 0, m03: 0,
        m10: 0, m11: 0, m12: 0, m13: 0,
        m20: 0, m21: 0, m22: 0, m23: 0,
        m30: 0, m31: 0, m32: 0, m33: 0,
    };
    assert_eq!(mat4_invert(zero), None);
}

#[test]
fn mat3_identity_inverts() {
    let id3 = mat3_rows(v3(FX_ONE, 0, 0), v3(0, FX_ONE, 0), v3(0, 0, FX_ONE));
    assert_eq!(mat3_invert(id3), Some(id3));
    let degenerate = mat3_rows(v3(FX_ONE, 0, 0), v3(FX_ONE, 0, 0), v3(0, 0, FX_ONE));
    assert_eq!(mat3_invert(degenerate), None);
}

#[test]
fn viewport_entries_exact() {
    // an 800x800 canvas at the origin
    let m = viewport(0, 0, 800 * FX_ONE, 800 * FX_ONE);
    assert_eq!(m.m00, 400 * FX_ONE);
    assert_eq!(m.m03, 400 * FX_ONE);
    assert_eq!(m.m11, 400 * FX_ONE);
    assert_eq!(m.m13, 400 * FX_ONE);
    assert_eq!(m.m22, 8355840);
    assert_eq!(m.m23, 8355840);
    assert_eq!(m.m33, FX_ONE);
    assert_eq!(m.m32, 0);
}

#[test]
fn projection_entries_exact() {
    let m = projection(-32768);
    assert_eq!(m.m32, -32768);
    assert_eq!(m.m00, FX_ONE);
    assert_eq!(m.m33, FX_ONE);
    assert_eq!(m.m22, FX_ONE);
}

#[test]
fn lookat_axis_aligned_is_identity() {
    // camera on the +z axis looking at the origin: the canonical frame
    let m = lookat(v3(0, 0, FX_ONE), v3(0, 0, 0), v3(0, FX_ONE, 0));
    assert_eq!(m, mat4_identity());
}

#[test]
fn pipeline_round_trip_lands_in_canvas_at_max_depth() {
    // Orthographic shadow-style pipeline with the eye one unit from the
    // center: viewport * projection * view applied to the eye itself,
    // after the perspective divide, lands at the canvas center at the
    // maximum depth value.
    let eye = v3(0, 0, FX_ONE);
    let mv = lookat(eye, v3(0, 0, 0), v3(0, FX_ONE, 0));
    let vp = viewport(0, 0, 800 * FX_ONE, 800 * FX_ONE);
    let m = mat4_mul(mat4_mul(vp, projection(0)), mv);
    let clip = mat4_apply(
        m,
        Vec4fx { x: eye.x, y: eye.y, z: eye.z, w: FX_ONE },
    );
    let p = v4_project(clip);
    assert_eq!(p.x, 400 * FX_ONE);
    assert_eq!(p.y, 400 * FX_ONE);
    assert_eq!(p.z, DEPTH_FX);
    assert!(0 <= p.x && p.x <= 800 * FX_ONE);
    assert!(0 <= p.y && p.y <= 800 * FX_ONE);
}
