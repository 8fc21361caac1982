//! The two-pass orchestrator: a shadow pass from the light's point of
//! view builds a shadow depth buffer, then the camera pass renders the
//! final image with the shadow-aware shader.

use vstd::prelude::*;

use crate::buffer::GrayBuffer;
use crate::buffer::Rgb;
use crate::buffer::RgbBuffer;
use crate::buffer::MAX_DIM;
use crate::fx::fx_div;
use crate::fx::fxd;
use crate::geom::mat4_det_s;
use crate::geom::mat4_invert;
use crate::geom::mat4_invert_s;
use crate::geom::mat4_mul;
use crate::geom::mat4_mul_s;
use crate::geom::mat4_transpose_s;
use crate::geom::v3_mag;
use crate::geom::v3_mag_s;
use crate::geom::v3_norm;
use crate::geom::v3_norm_s;
use crate::geom::v3_sub;
use crate::geom::v3_sub_s;
use crate::geom::Mat4;
use crate::geom::Vec3fx;
use crate::model::Model;
use crate::raster::triangle;
use crate::raster::triangle_s;
use crate::raster::ClipTri;
use crate::raster::RasterState;
use crate::shader::Shader;
use crate::shaders::common::transformed_light_s;
use crate::shaders::common::tri2_zero_s;
use crate::shaders::common::tri3_zero_s;
use crate::shaders::common::tri4_zero_s;
use crate::shaders::depth::DepthShader;
use crate::shaders::shadow::ShadowShader;
use crate::transform::lookat;
use crate::transform::lookat_s;
use crate::transform::projection;
use crate::transform::projection_s;
use crate::transform::viewport;
use crate::transform::viewport_s;
use crate::RenderError;

verus! {

/// The scene and canvas parameters of one render.
#[derive(Clone, Copy, PartialEq, Eq, Structural, Debug)]
pub struct RenderConfig {
    pub width: usize,
    pub height: usize,
    pub light_dir: Vec3fx,
    pub eye: Vec3fx,
    pub center: Vec3fx,
    pub up: Vec3fx,
}

impl RenderConfig {
    /// A usable canvas: nonzero dimensions within the machine limit.
    pub open spec fn wf(&self) -> bool {
        0 < self.width <= MAX_DIM && 0 < self.height <= MAX_DIM
    }
}

/// The three texture maps the shadow-aware shader samples.
#[derive(Clone, Debug)]
pub struct TextureSet {
    pub diffuse: RgbBuffer,
    pub normal_map: RgbBuffer,
    pub specular_map: GrayBuffer,
}

impl TextureSet {
    /// All three maps are well-formed grids.
    pub open spec fn wf(&self) -> bool {
        self.diffuse.wf() && self.normal_map.wf() && self.specular_map.wf()
    }
}

/// What a whole render produces: the image, its depth buffer, and the
/// shadow pass's depth buffer.
#[derive(Clone, Debug)]
pub struct RenderOutput {
    pub color: RgbBuffer,
    pub depth: GrayBuffer,
    pub shadow: GrayBuffer,
}

/// An all-black color view.
pub open spec fn zero_colors(n: nat) -> Seq<Rgb> {
    Seq::new(n, |i: int| Rgb { r: 0, g: 0, b: 0 })
}

/// An all-zero depth view.
pub open spec fn zero_grays(n: nat) -> Seq<u8> {
    Seq::new(n, |i: int| 0u8)
}

/// Both passes place the render inside a centered rectangle: offset an
/// eighth, size three quarters, of each canvas dimension.
pub open spec fn canvas_viewport_s(cfg: RenderConfig) -> Mat4 {
    viewport_s(
        ((cfg.width as int / 8) * 65536) as i64,
        ((cfg.height as int / 8) * 65536) as i64,
        ((cfg.width as int * 3 / 4) * 65536) as i64,
        ((cfg.height as int * 3 / 4) * 65536) as i64,
    )
}

/// The shadow pass pipeline matrix: orthographic projection from the
/// light's direction.
pub open spec fn shadow_matrix_s(cfg: RenderConfig) -> Mat4 {
    mat4_mul_s(
        mat4_mul_s(canvas_viewport_s(cfg), projection_s(0)),
        lookat_s(cfg.light_dir, cfg.center, cfg.up),
    )
}

/// The perspective coefficient of the camera pass: minus the
/// reciprocal of the eye-center distance.
pub open spec fn camera_coeff_s(cfg: RenderConfig) -> i64 {
    fxd(-65536i64, v3_mag_s(v3_sub_s(cfg.eye, cfg.center)))
}

/// The camera pass pipeline matrix.
pub open spec fn camera_matrix_s(cfg: RenderConfig) -> Mat4 {
    mat4_mul_s(
        mat4_mul_s(canvas_viewport_s(cfg), projection_s(camera_coeff_s(cfg))),
        lookat_s(cfg.eye, cfg.center, cfg.up),
    )
}

/// Projection times view alone: what the shadow-aware shader uses to
/// transform the light and the normals.
pub open spec fn camera_uniform_s(cfg: RenderConfig) -> Mat4 {
    mat4_mul_s(projection_s(camera_coeff_s(cfg)), lookat_s(cfg.eye, cfg.center, cfg.up))
}

/// Process one face: run the vertex stage on all three slots, then
/// rasterize the resulting triangle.
pub open spec fn face_step_s<S: Shader>(s: S, m: Model, i: int, mat: Mat4, wd: int, ht: int, st: RasterState) -> (S, RasterState) {
    let (s1, c0) = s.vertex_spec(m, i, 0, mat);
    let (s2, c1) = s1.vertex_spec(m, i, 1, mat);
    let (s3, c2) = s2.vertex_spec(m, i, 2, mat);
    (s3, triangle_s(s3, ClipTri { v0: c0, v1: c1, v2: c2 }, wd, ht, st))
}

/// Fold `face_step_s` over the faces `i` up to `n`; a failed state
/// freezes the fold (the render is abandoned at the first error).
pub open spec fn faces_fold_s<S: Shader>(s: S, m: Model, i: int, n: int, mat: Mat4, wd: int, ht: int, st: RasterState) -> (S, RasterState)
    decreases n - i,
{
    if i >= n || st.0 is Err {
        (s, st)
    } else {
        let (s2, st2) = face_step_s(s, m, i, mat, wd, ht, st);
        faces_fold_s(s2, m, i + 1, n, mat, wd, ht, st2)
    }
}

/// The color and depth views that the shadow pass produces over fresh
/// buffers, together with its outcome.
pub open spec fn shadow_pass_views_s(m: Model, cfg: RenderConfig) -> RasterState {
    let wd = cfg.width as int;
    let ht = cfg.height as int;
    let st0 = (
        Result::<(), RenderError>::Ok(()),
        zero_colors((wd * ht) as nat),
        zero_grays((wd * ht) as nat),
    );
    faces_fold_s(
        DepthShader { varying_tri: tri3_zero_s() },
        m,
        0,
        m.spec_faces().len() as int,
        shadow_matrix_s(cfg),
        wd,
        ht,
        st0,
    ).1
}

/// The shadow-aware shader as the camera pass constructs it, around a
/// given shadow buffer.
pub open spec fn initial_shadow_shader_s(cfg: RenderConfig, tex: TextureSet, sb: GrayBuffer) -> ShadowShader {
    let um = camera_uniform_s(cfg);
    ShadowShader {
        light_dir: transformed_light_s(um, v3_norm_s(cfg.light_dir)),
        texture: tex.diffuse,
        normal_map: tex.normal_map,
        specular_map: tex.specular_map,
        varying_uv: tri2_zero_s(),
        varying_tri: tri4_zero_s(),
        ndc_tri: tri3_zero_s(),
        varying_norm: tri3_zero_s(),
        uniform_m: um,
        uniform_mit: mat4_transpose_s(mat4_invert_s(um)->Some_0),
        uniform_m_shadow: mat4_mul_s(
            shadow_matrix_s(cfg),
            mat4_invert_s(camera_matrix_s(cfg))->Some_0,
        ),
        shadow_buffer: sb,
    }
}

/// The color and depth views that the camera pass produces over fresh
/// buffers, given the shadow buffer, together with its outcome.
pub open spec fn camera_pass_views_s(m: Model, cfg: RenderConfig, tex: TextureSet, sb: GrayBuffer) -> RasterState {
    let wd = cfg.width as int;
    let ht = cfg.height as int;
    let st0 = (
        Result::<(), RenderError>::Ok(()),
        zero_colors((wd * ht) as nat),
        zero_grays((wd * ht) as nat),
    );
    faces_fold_s(
        initial_shadow_shader_s(cfg, tex, sb),
        m,
        0,
        m.spec_faces().len() as int,
        camera_matrix_s(cfg),
        wd,
        ht,
        st0,
    ).1
}

/// Rendering is a pure function of its inputs: equal meshes, scene
/// parameters, textures and shadow buffers give byte-identical color
/// and depth views -- there is no hidden state, so rendering the same
/// scene twice produces identical buffers.
pub proof fn lemma_render_deterministic(
    m1: Model,
    m2: Model,
    cfg1: RenderConfig,
    cfg2: RenderConfig,
    t1: TextureSet,
    t2: TextureSet,
    sb1: GrayBuffer,
    sb2: GrayBuffer,
)
    requires
        m1 == m2,
        cfg1 == cfg2,
        t1 == t2,
        sb1 == sb2,
    ensures
        shadow_pass_views_s(m1, cfg1) == shadow_pass_views_s(m2, cfg2),
        camera_pass_views_s(m1, cfg1, t1, sb1) == camera_pass_views_s(m2, cfg2, t2, sb2),
{
}


/// Shadow-aware shaders alike in everything but the shadow-buffer
/// value, with buffers of equal dimensions and bytes, agree on every
/// fragment: the fragment stage reads the buffer only through its
/// contents.
pub proof fn lemma_shadow_frag_congruent(s1: ShadowShader, s2: ShadowShader)
    requires
        s1.light_dir == s2.light_dir,
        s1.texture == s2.texture,
        s1.normal_map == s2.normal_map,
        s1.specular_map == s2.specular_map,
        s1.varying_uv == s2.varying_uv,
        s1.varying_tri == s2.varying_tri,
        s1.ndc_tri == s2.ndc_tri,
        s1.varying_norm == s2.varying_norm,
        s1.uniform_m == s2.uniform_m,
        s1.uniform_mit == s2.uniform_mit,
        s1.uniform_m_shadow == s2.uniform_m_shadow,
        s1.shadow_buffer.spec_width() == s2.shadow_buffer.spec_width(),
        s1.shadow_buffer.spec_height() == s2.shadow_buffer.spec_height(),
        s1.shadow_buffer.view_data() == s2.shadow_buffer.view_data(),
    ensures
        forall|bc: Vec3fx| #[trigger] s1.frag_spec(bc) == s2.frag_spec(bc),
{
    assert forall|bc: Vec3fx| #[trigger] s1.frag_spec(bc) == s2.frag_spec(bc) by {
        let p = crate::shaders::common::interp_v3_s(s1.ndc_tri.a, s1.ndc_tri.b, s1.ndc_tri.c, bc);
        let sb = crate::geom::v4_project_s(
            crate::geom::mat4_apply_s(
                s1.uniform_m_shadow,
                crate::geom::v3_extend_s(p, crate::fx::FX_ONE),
            ),
        );
        assert(s1.shadow_buffer.at_screen_s(sb.x, sb.y) == s2.shadow_buffer.at_screen_s(
            sb.x,
            sb.y,
        ));
    }
}

/// The whole camera pass reads its shadow buffer only through its
/// contents: alike shaders around equal-content buffers fold to the
/// same raster state.
pub proof fn lemma_shadow_fold_congruent(
    s1: ShadowShader,
    s2: ShadowShader,
    m: Model,
    i: int,
    n: int,
    mat: Mat4,
    wd: int,
    ht: int,
    st: RasterState,
)
    requires
        s1.light_dir == s2.light_dir,
        s1.texture == s2.texture,
        s1.normal_map == s2.normal_map,
        s1.specular_map == s2.specular_map,
        s1.varying_uv == s2.varying_uv,
        s1.varying_tri == s2.varying_tri,
        s1.ndc_tri == s2.ndc_tri,
        s1.varying_norm == s2.varying_norm,
        s1.uniform_m == s2.uniform_m,
        s1.uniform_mit == s2.uniform_mit,
        s1.uniform_m_shadow == s2.uniform_m_shadow,
        s1.shadow_buffer.spec_width() == s2.shadow_buffer.spec_width(),
        s1.shadow_buffer.spec_height() == s2.shadow_buffer.spec_height(),
        s1.shadow_buffer.view_data() == s2.shadow_buffer.view_data(),
    ensures
        faces_fold_s(s1, m, i, n, mat, wd, ht, st).1 == faces_fold_s(s2, m, i, n, mat, wd, ht, st).1,
    decreases n - i,
{
    if i >= n || st.0 is Err {
    } else {
        let (s1a, c0a) = s1.vertex_spec(m, i, 0, mat);
        let (s2a, c0b) = s2.vertex_spec(m, i, 0, mat);
        let (s1b, c1a) = s1a.vertex_spec(m, i, 1, mat);
        let (s2b, c1b) = s2a.vertex_spec(m, i, 1, mat);
        let (s1c, c2a) = s1b.vertex_spec(m, i, 2, mat);
        let (s2c, c2b) = s2b.vertex_spec(m, i, 2, mat);
        assert(c0a == c0b && c1a == c1b && c2a == c2b);
        assert(s1c.shadow_buffer == s1.shadow_buffer);
        assert(s2c.shadow_buffer == s2.shadow_buffer);
        lemma_shadow_frag_congruent(s1c, s2c);
        crate::raster::lemma_triangle_congruent(
            s1c,
            s2c,
            ClipTri { v0: c0a, v1: c1a, v2: c2a },
            wd,
            ht,
            st,
        );
        let (_, st2) = face_step_s(s1, m, i, mat, wd, ht, st);
        lemma_shadow_fold_congruent(s1c, s2c, m, i + 1, n, mat, wd, ht, st2);
    }
}


/// Depth-buffer monotonicity across a whole pass: within one pass over
/// all faces, no pixel's stored depth ever decreases.
pub proof fn lemma_pass_depth_monotone<S: Shader>(
    s: S,
    m: Model,
    i: int,
    n: int,
    mat: Mat4,
    wd: int,
    ht: int,
    st: RasterState,
    q: int,
)
    requires
        st.1.len() == wd * ht,
        st.2.len() == wd * ht,
        0 <= q < st.2.len(),
    ensures
        ({
            let r = faces_fold_s(s, m, i, n, mat, wd, ht, st).1;
            &&& r.1.len() == st.1.len()
            &&& r.2.len() == st.2.len()
            &&& r.2[q] >= st.2[q]
        }),
    decreases n - i,
{
    if i >= n || st.0 is Err {
    } else {
        let (s3, st2) = face_step_s(s, m, i, mat, wd, ht, st);
        let (s1, c0) = s.vertex_spec(m, i, 0, mat);
        let (s2, c1) = s1.vertex_spec(m, i, 1, mat);
        let (s3b, c2) = s2.vertex_spec(m, i, 2, mat);
        crate::raster::lemma_depth_monotone(
            s3b,
            ClipTri { v0: c0, v1: c1, v2: c2 },
            wd,
            ht,
            st,
            q,
        );
        lemma_pass_depth_monotone(s3, m, i + 1, n, mat, wd, ht, st2, q);
    }
}

/// The camera-pass fold never touches the shader's shadow buffer: the
/// vertex stage only rewrites varying state.
pub proof fn lemma_camera_fold_keeps_shadow(
    s: ShadowShader,
    m: Model,
    i: int,
    n: int,
    mat: Mat4,
    wd: int,
    ht: int,
    st: RasterState,
)
    ensures
        faces_fold_s(s, m, i, n, mat, wd, ht, st).0.shadow_buffer == s.shadow_buffer,
    decreases n - i,
{
    if i >= n || st.0 is Err {
    } else {
        let (s2, st2) = face_step_s(s, m, i, mat, wd, ht, st);
        assert(s2.shadow_buffer == s.shadow_buffer);
        lemma_camera_fold_keeps_shadow(s2, m, i + 1, n, mat, wd, ht, st2);
    }
}

/// Run one shader over every face of the mesh into the given buffers:
/// exactly the fold `faces_fold_s`, starting from a clean state.
pub fn render_pass<S: Shader>(
    shader: &mut S,
    model: &Model,
    mat: Mat4,
    cb: &mut RgbBuffer,
    db: &mut GrayBuffer,
) -> (r: Result<(), RenderError>)
    requires
        old(shader).wf(),
        model.wf(),
        old(cb).wf(),
        old(db).wf(),
        old(cb).spec_width() == old(db).spec_width(),
        old(cb).spec_height() == old(db).spec_height(),
    ensures
        final(shader).wf(),
        final(cb).wf(),
        final(db).wf(),
        final(cb).spec_width() == old(cb).spec_width(),
        final(cb).spec_height() == old(cb).spec_height(),
        final(db).spec_width() == old(db).spec_width(),
        final(db).spec_height() == old(db).spec_height(),
        ({
            let (sfin, st) = faces_fold_s(
                *old(shader),
                *model,
                0,
                model.spec_faces().len() as int,
                mat,
                old(cb).spec_width(),
                old(cb).spec_height(),
                (
                    Result::<(), RenderError>::Ok(()),
                    old(cb).view_data(),
                    old(db).view_data(),
                ),
            );
            &&& *final(shader) == sfin
            &&& (r, final(cb).view_data(), final(db).view_data()) == st
        }),
{
    let ghost wd = old(cb).spec_width();
    let ghost ht = old(cb).spec_height();
    let ghost s0 = *shader;
    let ghost st0: RasterState = (
        Result::<(), RenderError>::Ok(()),
        old(cb).view_data(),
        old(db).view_data(),
    );
    let ghost nf = model.spec_faces().len() as int;
    let n = model.get_faces().len();
    let mut err: Result<(), RenderError> = Result::Ok(());
    let mut i: usize = 0;
    while i < n
        invariant
            shader.wf(),
            model.wf(),
            cb.wf(),
            db.wf(),
            cb.spec_width() == wd,
            cb.spec_height() == ht,
            db.spec_width() == wd,
            db.spec_height() == ht,
            i <= n,
            n == nf,
            nf == model.spec_faces().len(),
            faces_fold_s(
                *shader,
                *model,
                i as int,
                nf,
                mat,
                wd,
                ht,
                (err, cb.view_data(), db.view_data()),
            ) == faces_fold_s(s0, *model, 0, nf, mat, wd, ht, st0),
        decreases n - i,
    {
        let ghost s_before = *shader;
        let ghost st_before: RasterState = (err, cb.view_data(), db.view_data());
        if err.is_ok() {
            proof {
                assert(err->Ok_0 == ());
                assert(err == Result::<(), RenderError>::Ok(err->Ok_0));
            }
            let c0 = shader.vertex(model, i, 0, mat);
            let c1 = shader.vertex(model, i, 1, mat);
            let c2 = shader.vertex(model, i, 2, mat);
            let tri = ClipTri { v0: c0, v1: c1, v2: c2 };
            err = triangle(&tri, shader, cb, db);
            proof {
                let (s_next, st_next) = face_step_s(s_before, *model, i as int, mat, wd, ht, st_before);
                assert(*shader == s_next);
                assert((err, cb.view_data(), db.view_data()) == st_next);
            }
        }
        proof {
            assert(faces_fold_s(
                s_before,
                *model,
                i as int,
                nf,
                mat,
                wd,
                ht,
                st_before,
            ) == faces_fold_s(
                *shader,
                *model,
                i as int + 1,
                nf,
                mat,
                wd,
                ht,
                (err, cb.view_data(), db.view_data()),
            ));
        }
        i += 1;
    }
    err
}

/// Render the mesh with two passes: a shadow pass from the light's
/// point of view into a fresh shadow buffer, then the camera pass with
/// the shadow-aware shader into the final color and depth buffers.
/// Fails on the first fatal error: a singular matrix inversion, or an
/// out-of-range sample, exactly as the pass folds say.
#[verifier::rlimit(100)]
pub fn render(model: &Model, cfg: &RenderConfig, textures: TextureSet) -> (r: Result<
    RenderOutput,
    RenderError,
>)
    requires
        model.wf(),
        cfg.wf(),
        textures.wf(),
    ensures
        ({
            let wd = cfg.width as int;
            let ht = cfg.height as int;
            let sp = shadow_pass_views_s(*model, *cfg);
            &&& (sp.0 is Err ==> r == Result::<RenderOutput, RenderError>::Err(sp.0->Err_0))
            &&& (sp.0 is Ok && mat4_det_s(camera_matrix_s(*cfg)) == 0 ==> r == Result::<
                RenderOutput,
                RenderError,
            >::Err(RenderError::SingularMatrix))
            &&& (sp.0 is Ok && mat4_det_s(camera_matrix_s(*cfg)) != 0 && mat4_det_s(
                camera_uniform_s(*cfg),
            ) == 0 ==> r == Result::<RenderOutput, RenderError>::Err(RenderError::SingularMatrix))
            &&& (r is Ok ==> {
                let out = r->Ok_0;
                &&& sp.0 is Ok
                &&& mat4_det_s(camera_matrix_s(*cfg)) != 0
                &&& mat4_det_s(camera_uniform_s(*cfg)) != 0
                &&& out.shadow.wf()
                &&& out.shadow.spec_width() == wd
                &&& out.shadow.spec_height() == ht
                &&& out.shadow.view_data() == sp.2
                &&& {
                    let cp = camera_pass_views_s(*model, *cfg, textures, out.shadow);
                    &&& cp.0 is Ok
                    &&& out.color.wf()
                    &&& out.color.spec_width() == wd
                    &&& out.color.spec_height() == ht
                    &&& out.color.view_data() == cp.1
                    &&& out.depth.wf()
                    &&& out.depth.spec_width() == wd
                    &&& out.depth.spec_height() == ht
                    &&& out.depth.view_data() == cp.2
                }
            })
            &&& (sp.0 is Ok && mat4_det_s(camera_matrix_s(*cfg)) != 0 && mat4_det_s(
                camera_uniform_s(*cfg),
            ) != 0 ==> forall|sb: GrayBuffer|
                #![trigger camera_pass_views_s(*model, *cfg, textures, sb)]
                (sb.wf() && sb.spec_width() == wd && sb.spec_height() == ht && sb.view_data()
                    == sp.2) ==> {
                    let cp = camera_pass_views_s(*model, *cfg, textures, sb);
                    &&& (r is Ok <==> cp.0 is Ok)
                    &&& (cp.0 is Err ==> r == Result::<RenderOutput, RenderError>::Err(
                        cp.0->Err_0,
                    ))
                    &&& (r is Ok ==> r->Ok_0.color.view_data() == cp.1
                        && r->Ok_0.depth.view_data() == cp.2)
                })
        }),
{
    let vp = viewport(
        ((cfg.width / 8) as i64) * 65536,
        ((cfg.height / 8) as i64) * 65536,
        ((cfg.width * 3 / 4) as i64) * 65536,
        ((cfg.height * 3 / 4) as i64) * 65536,
    );
    // Shadow pass: orthographic projection from the light's direction.
    let mv_shadow = lookat(cfg.light_dir, cfg.center, cfg.up);
    let m_shadow = mat4_mul(mat4_mul(vp, projection(0)), mv_shadow);
    let mut scratch = RgbBuffer::new(cfg.width, cfg.height);
    let mut shadow_db = GrayBuffer::new(cfg.width, cfg.height);
    let mut depth_shader = DepthShader::new();
    proof {
        assert(depth_shader == (DepthShader { varying_tri: tri3_zero_s() }));
        assert(m_shadow == shadow_matrix_s(*cfg));
    }
    proof {
        assert(scratch.view_data() =~= zero_colors((cfg.width as int * cfg.height as int) as nat));
        assert(shadow_db.view_data() =~= zero_grays((cfg.width as int * cfg.height as int) as nat));
    }
    let sp_res = render_pass(&mut depth_shader, model, m_shadow, &mut scratch, &mut shadow_db);
    proof {
        assert(shadow_pass_views_s(*model, *cfg) == (sp_res, scratch.view_data(), shadow_db.view_data()));
    }
    match sp_res {
        Result::Err(e) => {
            return Result::Err(e);
        },
        Result::Ok(_) => {},
    }
    // Camera pass: perspective projection from the eye.
    let mv_cam = lookat(cfg.eye, cfg.center, cfg.up);
    let d = v3_mag(v3_sub(cfg.eye, cfg.center));
    let coeff = fx_div(-65536, d);
    proof {
        assert(coeff == camera_coeff_s(*cfg));
    }
    let pj = projection(coeff);
    let m_cam = mat4_mul(mat4_mul(vp, pj), mv_cam);
    proof {
        assert(m_cam == camera_matrix_s(*cfg));
    }
    let m_cam_inv = match mat4_invert(m_cam) {
        Option::None => {
            return Result::Err(RenderError::SingularMatrix);
        },
        Option::Some(inv) => inv,
    };
    let um = mat4_mul(pj, mv_cam);
    proof {
        assert(um == camera_uniform_s(*cfg));
    }
    let ghost sb0 = shadow_db;
    let ghost tex0 = textures;
    let mut shader = match ShadowShader::new(
        v3_norm(cfg.light_dir),
        textures.diffuse,
        textures.normal_map,
        textures.specular_map,
        um,
        mat4_mul(m_shadow, m_cam_inv),
        shadow_db,
    ) {
        Result::Err(e) => {
            return Result::Err(e);
        },
        Result::Ok(s) => s,
    };
    proof {
        assert(shader == initial_shadow_shader_s(*cfg, tex0, sb0));
    }
    let mut color = RgbBuffer::new(cfg.width, cfg.height);
    let mut zbuf = GrayBuffer::new(cfg.width, cfg.height);
    proof {
        assert(color.view_data() =~= zero_colors((cfg.width as int * cfg.height as int) as nat));
        assert(zbuf.view_data() =~= zero_grays((cfg.width as int * cfg.height as int) as nat));
    }
    let ghost shader_in = shader;
    let cp_res = render_pass(&mut shader, model, m_cam, &mut color, &mut zbuf);
    proof {
        lemma_camera_fold_keeps_shadow(
            shader_in,
            *model,
            0,
            model.spec_faces().len() as int,
            m_cam,
            cfg.width as int,
            cfg.height as int,
            (Result::<(), RenderError>::Ok(()), zero_colors((cfg.width as int * cfg.height as int) as nat), zero_grays((cfg.width as int * cfg.height as int) as nat)),
        );
        assert(camera_pass_views_s(*model, *cfg, tex0, sb0) == (cp_res, color.view_data(), zbuf.view_data()));
    }
    let shadow_out = shader.shadow_buffer;
    proof {
        assert(shadow_out == sb0);
        assert forall|sb: GrayBuffer|
            (sb.wf() && sb.spec_width() == cfg.width as int && sb.spec_height()
                == cfg.height as int && sb.view_data() == shadow_pass_views_s(*model, *cfg).2)
                implies #[trigger] camera_pass_views_s(*model, *cfg, tex0, sb)
            == camera_pass_views_s(*model, *cfg, tex0, sb0) by {
            lemma_shadow_fold_congruent(
                initial_shadow_shader_s(*cfg, tex0, sb),
                initial_shadow_shader_s(*cfg, tex0, sb0),
                *model,
                0,
                model.spec_faces().len() as int,
                camera_matrix_s(*cfg),
                cfg.width as int,
                cfg.height as int,
                (
                    Result::<(), RenderError>::Ok(()),
                    zero_colors((cfg.width as int * cfg.height as int) as nat),
                    zero_grays((cfg.width as int * cfg.height as int) as nat),
                ),
            );
        }
    }
    match cp_res {
        Result::Err(e) => {
            proof {
                assert(camera_pass_views_s(*model, *cfg, tex0, sb0).0 == Result::<(), RenderError>::Err(
                    e,
                ));
            }
            Result::Err(e)
        },
        Result::Ok(_) => Result::Ok(RenderOutput { color, depth: zbuf, shadow: shadow_out }),
    }
}

} // verus!
