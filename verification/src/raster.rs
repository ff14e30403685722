//! The rasterizer core: the per-pixel scan, the depth test and the color
//! policies, and the full `render` pass over a scene.
//!
//! Every pixel centre of the output is tested against the three edge
//! functions; a covered sample whose interpolated weight passes the depth
//! test (`>=`, so the latest triangle wins an exact tie) is written.

use vstd::prelude::*;
use crate::{div_trunc, lemma_mul_le, lemma_div_trunc_shrinks, SCALE};
use crate::math::{Vec3Fx, Mat4Fx, Vec4Fx, SpecV3, SpecV4, SpecM4, v3_bounded, m4_bounded};
use crate::transform::{vs, to_raster, vs_spec, to_raster_spec, SCENE_LIMIT};
use crate::setup::{
    TriangleSetup, TriSpec, tri_spec_of, triangle_setup, evaluate_edge_function, edge_inside,
    edge_val2, raster_in_range, det3, RASTER_LIMIT,
};
use crate::frame::{Rgb, FrameStore};

verus! {

/// Magnitude reached by the weight row `c` dotted with a doubled sample.
pub const EVAL_C_LIMIT: i128 = 113336795588871485128704;

/// Magnitude reached by a weight numerator after scaling, before the
/// division by `2 d`.
pub const WEIGHT_NUM_LIMIT: i128 = 1901475900342344102245054808064;

/// Magnitude cap on a row handed to the sample evaluation (covers both
/// an edge row and the weight row `c`).
pub const ROW_LIMIT: i128 = 6917529027641081856;

/// How a covering pixel's color is computed from the three edge
/// dot products; a pluggable policy of the rasterizer core.
pub enum ColorPolicy {
    /// Visualize the edge weights: each channel is its edge dot product
    /// times `scale`, clamped to the 8-bit range.
    Scaled { scale: u32 },
    /// A flat color per triangle, from a fixed palette indexed by the
    /// running triangle number.
    Palette { colors: Vec<Rgb> },
}

impl ColorPolicy {
    /// A palette must have at least one entry.
    pub open spec fn wf(self) -> bool {
        self matches ColorPolicy::Palette { colors } ==> colors@.len() >= 1
    }
}

/// Value of one edge (or weight) row at the centre of pixel `(px, py)`,
/// as an exact numerator over the denominator `2 d`.
pub fn edge_val2_fx(e: &Vec3Fx, px: usize, py: usize) -> (t: i128)
    requires
        v3_bounded(e@, ROW_LIMIT as int),
        px < 4096,
        py < 4096,
    ensures
        t == edge_val2(e@, px as int, py as int),
{
    let sx: i128 = 2 * (px as i128) + 1;
    let sy: i128 = 2 * (py as i128) + 1;
    proof {
        lemma_mul_le(e@.x, sx as int, ROW_LIMIT as int, 8191);
        lemma_mul_le(e@.y, sy as int, ROW_LIMIT as int, 8191);
    }
    e.x * sx + e.y * sy + 2 * e.z
}

/// All three edge functions report the sample inside (with the fill-rule
/// tie-break on exact-zero evaluations).
pub open spec fn covered(t: TriSpec, px: int, py: int) -> bool {
    &&& edge_inside(t.e0, px, py)
    &&& edge_inside(t.e1, px, py)
    &&& edge_inside(t.e2, px, py)
}

/// The interpolated inverse-depth weight at a pixel centre, quantized to
/// the fixed-point grid: the real-valued `c·s` (one factor of `SCALE`
/// cancels the raster numerators' scale, one keeps fractional depth
/// resolution), truncated toward zero.
pub open spec fn weight_q(t: TriSpec, px: int, py: int) -> int {
    div_trunc(edge_val2(t.c, px, py) * SCALE * SCALE, 2 * t.d)
}

/// One color channel of the scaled-weight policy: the edge dot product
/// times `scale`, truncated, clamped to 0..=255.
pub open spec fn channel_spec(t: int, scale: int, d2: int) -> int {
    let q = div_trunc(t * scale * SCALE, d2);
    if q < 0 {
        0
    } else if q > 255 {
        255
    } else {
        q
    }
}

/// The color a covering triangle writes at `(px, py)`.
pub open spec fn shade_spec(policy: ColorPolicy, t: TriSpec, tri_index: int, px: int, py: int) -> Rgb {
    match policy {
        ColorPolicy::Scaled { scale } => Rgb {
            r: channel_spec(edge_val2(t.e0, px, py), scale as int, 2 * t.d) as u8,
            g: channel_spec(edge_val2(t.e1, px, py), scale as int, 2 * t.d) as u8,
            b: channel_spec(edge_val2(t.e2, px, py), scale as int, 2 * t.d) as u8,
        },
        ColorPolicy::Palette { colors } => colors@[tri_index % (colors@.len() as int)],
    }
}

/// One channel: multiply, truncate, clamp to the 8-bit range.
fn channel(t: i128, scale: u32, d2: i128) -> (v: u8)
    requires
        -EVAL_C_LIMIT <= t <= EVAL_C_LIMIT,
        d2 >= 1,
    ensures
        v == channel_spec(t as int, scale as int, d2 as int),
{
    proof {
        lemma_mul_le(t as int, scale as int, EVAL_C_LIMIT as int, 4294967295);
        lemma_mul_le(t as int * scale as int, SCALE as int, EVAL_C_LIMIT as int * 4294967295, 4096);
        lemma_div_trunc_shrinks(
            t * (scale as i128) * SCALE,
            EVAL_C_LIMIT as int * 4294967295 * 4096,
            d2 as int,
        );
    }
    let q = (t * (scale as i128) * SCALE) / d2;
    if q < 0 {
        0
    } else if q > 255 {
        255
    } else {
        q as u8
    }
}

/// Compute the color a triangle writes at pixel `(px, py)` under the
/// given policy.
pub fn shade(policy: &ColorPolicy, tri: &TriangleSetup, tri_index: usize, px: usize, py: usize) -> (c:
    Rgb)
    requires
        tri.wf(),
        policy.wf(),
        px < 4096,
        py < 4096,
    ensures
        c == shade_spec(*policy, tri@, tri_index as int, px as int, py as int),
{
    match policy {
        ColorPolicy::Scaled { scale } => {
            proof {
                lemma_mul_le(tri@.e0.x, 2 * (px as int) + 1, ROW_LIMIT as int, 8191);
                lemma_mul_le(tri@.e0.y, 2 * (py as int) + 1, ROW_LIMIT as int, 8191);
                lemma_mul_le(tri@.e1.x, 2 * (px as int) + 1, ROW_LIMIT as int, 8191);
                lemma_mul_le(tri@.e1.y, 2 * (py as int) + 1, ROW_LIMIT as int, 8191);
                lemma_mul_le(tri@.e2.x, 2 * (px as int) + 1, ROW_LIMIT as int, 8191);
                lemma_mul_le(tri@.e2.y, 2 * (py as int) + 1, ROW_LIMIT as int, 8191);
            }
            let a = edge_val2_fx(&tri.e0, px, py);
            let b = edge_val2_fx(&tri.e1, px, py);
            let g = edge_val2_fx(&tri.e2, px, py);
            let d2 = 2 * tri.d;
            Rgb { r: channel(a, *scale, d2), g: channel(b, *scale, d2), b: channel(g, *scale, d2) }
        },
        ColorPolicy::Palette { colors } => {
            proof {
                vstd::arithmetic::div_mod::lemma_mod_division_less_than_divisor(
                    tri_index as int,
                    colors@.len() as int,
                );
            }
            colors[tri_index % colors.len()]
        },
    }
}

/// The color of a pixel after one triangle is considered for it.
pub open spec fn pixel_after_color(
    t: TriSpec,
    policy: ColorPolicy,
    tri_index: int,
    px: int,
    py: int,
    oldc: Rgb,
    oldz: i128,
) -> Rgb {
    if covered(t, px, py) && weight_q(t, px, py) >= oldz {
        shade_spec(policy, t, tri_index, px, py)
    } else {
        oldc
    }
}

/// The stored depth of a pixel after one triangle is considered for it.
pub open spec fn pixel_after_depth(t: TriSpec, px: int, py: int, oldz: i128) -> i128 {
    if covered(t, px, py) && weight_q(t, px, py) >= oldz {
        weight_q(t, px, py) as i128
    } else {
        oldz
    }
}

/// Both buffers after one triangle's full-frame scan: every pixel is
/// considered independently.
pub open spec fn draw_spec(
    t: TriSpec,
    policy: ColorPolicy,
    tri_index: int,
    width: int,
    cs: Seq<Rgb>,
    zs: Seq<i128>,
) -> (Seq<Rgb>, Seq<i128>) {
    (
        Seq::new(
            cs.len(),
            |k: int| pixel_after_color(t, policy, tri_index, k % width, k / width, cs[k], zs[k]),
        ),
        Seq::new(zs.len(), |k: int| pixel_after_depth(t, k % width, k / width, zs[k])),
    )
}

/// Scan every pixel of the frame for one triangle: evaluate the three
/// edge functions at the pixel centre, and where all report inside,
/// depth-test the interpolated weight and write color and depth on
/// success. Ties in depth go to this (the later) triangle.
pub fn draw_triangle(fb: &mut FrameStore, tri: &TriangleSetup, policy: &ColorPolicy, tri_index: usize)
    requires
        old(fb).wf(),
        tri.wf(),
        policy.wf(),
    ensures
        final(fb).wf(),
        final(fb).width == old(fb).width,
        final(fb).height == old(fb).height,
        (final(fb).color@, final(fb).depth@) == draw_spec(
            tri@,
            *policy,
            tri_index as int,
            old(fb).width as int,
            old(fb).color@,
            old(fb).depth@,
        ),
{
    let width = fb.width;
    let height = fb.height;
    proof {
        lemma_mul_le(width as int, height as int, 4096, 4096);
    }
    let n = width * height;
    let mut k: usize = 0;
    while k < n
        invariant
            fb.width == width,
            fb.height == height,
            width <= 4096,
            height <= 4096,
            n == width * height,
            k <= n,
            tri.wf(),
            policy.wf(),
            fb.color@.len() == n,
            fb.depth@.len() == n,
            old(fb).color@.len() == n,
            old(fb).depth@.len() == n,
            forall|j: int|
                0 <= j < k ==> fb.color@[j] == pixel_after_color(
                    tri@,
                    *policy,
                    tri_index as int,
                    j % (width as int),
                    j / (width as int),
                    old(fb).color@[j],
                    old(fb).depth@[j],
                ),
            forall|j: int|
                0 <= j < k ==> fb.depth@[j] == pixel_after_depth(
                    tri@,
                    j % (width as int),
                    j / (width as int),
                    old(fb).depth@[j],
                ),
            forall|j: int| k <= j < n ==> fb.color@[j] == old(fb).color@[j],
            forall|j: int| k <= j < n ==> fb.depth@[j] == old(fb).depth@[j],
        decreases n - k,
    {
        proof {
            vstd::arithmetic::div_mod::lemma_mod_division_less_than_divisor(
                k as int,
                width as int,
            );
            vstd::arithmetic::div_mod::lemma_multiply_divide_lt(
                k as int,
                width as int,
                height as int,
            );
        }
        let px = k % width;
        let py = k / width;
        assert(px < width);
        assert(py < height);
        let inside0 = evaluate_edge_function(&tri.e0, px, py);
        let inside1 = evaluate_edge_function(&tri.e1, px, py);
        let inside2 = evaluate_edge_function(&tri.e2, px, py);
        if inside0 && inside1 && inside2 {
            let t = edge_val2_fx(&tri.c, px, py);
            proof {
                lemma_mul_le(tri@.c.x, 2 * (px as int) + 1, ROW_LIMIT as int, 8191);
                lemma_mul_le(tri@.c.y, 2 * (py as int) + 1, ROW_LIMIT as int, 8191);
                lemma_mul_le(t as int, SCALE as int, EVAL_C_LIMIT as int, 4096);
                lemma_mul_le(t as int * SCALE as int, SCALE as int, EVAL_C_LIMIT as int * 4096, 4096);
                lemma_div_trunc_shrinks(
                    (t * SCALE * SCALE) as int,
                    WEIGHT_NUM_LIMIT as int,
                    2 * (tri.d as int),
                );
            }
            let wq = (t * SCALE * SCALE) / (2 * tri.d);
            if wq >= fb.depth[k] {
                let col = shade(policy, tri, tri_index, px, py);
                fb.depth[k] = wq;
                fb.color[k] = col;
            }
        }
        k = k + 1;
    }
    proof {
        let spec_pair = draw_spec(
            tri@,
            *policy,
            tri_index as int,
            old(fb).width as int,
            old(fb).color@,
            old(fb).depth@,
        );
        assert(fb.color@ =~= spec_pair.0);
        assert(fb.depth@ =~= spec_pair.1);
    }
}

/// A mesh: a flat list of model-space positions and a list of faces,
/// each a list of indices into the positions. Only faces with exactly
/// three vertices are rasterized; every other face is silently skipped.
pub struct Mesh {
    pub positions: Vec<Vec3Fx>,
    pub faces: Vec<Vec<usize>>,
}

/// One scene entry: a model transform applied to a mesh.
pub struct SceneObject {
    pub model: Mat4Fx,
    pub mesh: Mesh,
}

/// A position within the transform stage's input range.
pub open spec fn position_in_scene(p: Vec3Fx) -> bool {
    &&& -SCENE_LIMIT <= p.x <= SCENE_LIMIT
    &&& -SCENE_LIMIT <= p.y <= SCENE_LIMIT
    &&& -SCENE_LIMIT <= p.z <= SCENE_LIMIT
}

/// Every position is in range and every triangular face indexes into the
/// position list.
pub open spec fn mesh_wf(m: Mesh) -> bool {
    &&& forall|i: int| 0 <= i < m.positions@.len() ==> position_in_scene(#[trigger] m.positions@[i])
    &&& forall|i: int|
        0 <= i < m.faces@.len() && (#[trigger] m.faces@[i])@.len() == 3 ==> m.faces@[i]@[0]
            < m.positions@.len() && m.faces@[i]@[1] < m.positions@.len() && m.faces@[i]@[2]
            < m.positions@.len()
}

/// A scene object with a bounded model transform and a well-formed mesh.
pub open spec fn object_wf(o: SceneObject) -> bool {
    &&& m4_bounded(o.model@, SCENE_LIMIT as int)
    &&& mesh_wf(o.mesh)
}

/// The running triangle number after one more triangle, saturating at
/// the machine limit.
pub open spec fn next_index(idx: int) -> int {
    if idx < usize::MAX {
        idx + 1
    } else {
        idx
    }
}

/// Both buffers after one triangle given by raster-space vertices: a
/// back-facing or degenerate triangle (`det >= 0`), or one whose
/// numerators exceed the exact-arithmetic range, touches nothing.
pub open spec fn rasterize_raster(
    r0: SpecV4,
    r1: SpecV4,
    r2: SpecV4,
    policy: ColorPolicy,
    tri_index: int,
    width: int,
    cs: Seq<Rgb>,
    zs: Seq<i128>,
) -> (Seq<Rgb>, Seq<i128>) {
    if raster_in_range(r0) && raster_in_range(r1) && raster_in_range(r2) && det3(r0, r1, r2) < 0 {
        draw_spec(tri_spec_of(r0, r1, r2), policy, tri_index, width, cs, zs)
    } else {
        (cs, zs)
    }
}

/// Both buffers after one model-space triangle is carried through the
/// transform stage, the screen mapper, triangle setup and the scan.
pub open spec fn rasterize_spec(
    proj: SpecM4,
    view: SpecM4,
    model: SpecM4,
    p0: SpecV3,
    p1: SpecV3,
    p2: SpecV3,
    policy: ColorPolicy,
    tri_index: int,
    width: int,
    height: int,
    cs: Seq<Rgb>,
    zs: Seq<i128>,
) -> (Seq<Rgb>, Seq<i128>) {
    rasterize_raster(
        to_raster_spec(vs_spec(proj, view, model, p0), width, height),
        to_raster_spec(vs_spec(proj, view, model, p1), width, height),
        to_raster_spec(vs_spec(proj, view, model, p2), width, height),
        policy,
        tri_index,
        width,
        cs,
        zs,
    )
}

/// The triangle counter and both buffers after the faces are processed
/// in order; non-triangular faces are skipped and do not count.
pub open spec fn render_faces(
    proj: SpecM4,
    view: SpecM4,
    model: SpecM4,
    positions: Seq<Vec3Fx>,
    faces: Seq<Vec<usize>>,
    policy: ColorPolicy,
    tri_index: int,
    width: int,
    height: int,
    cs: Seq<Rgb>,
    zs: Seq<i128>,
) -> (int, Seq<Rgb>, Seq<i128>)
    decreases faces.len(),
{
    if faces.len() == 0 {
        (tri_index, cs, zs)
    } else {
        let f = faces[0]@;
        if f.len() == 3 {
            let bufs = rasterize_spec(
                proj,
                view,
                model,
                positions[f[0] as int]@,
                positions[f[1] as int]@,
                positions[f[2] as int]@,
                policy,
                tri_index,
                width,
                height,
                cs,
                zs,
            );
            render_faces(
                proj,
                view,
                model,
                positions,
                faces.drop_first(),
                policy,
                next_index(tri_index),
                width,
                height,
                bufs.0,
                bufs.1,
            )
        } else {
            render_faces(
                proj,
                view,
                model,
                positions,
                faces.drop_first(),
                policy,
                tri_index,
                width,
                height,
                cs,
                zs,
            )
        }
    }
}

/// The triangle counter and both buffers after every object of the scene
/// is processed in order.
pub open spec fn render_objects(
    proj: SpecM4,
    view: SpecM4,
    objects: Seq<SceneObject>,
    policy: ColorPolicy,
    tri_index: int,
    width: int,
    height: int,
    cs: Seq<Rgb>,
    zs: Seq<i128>,
) -> (int, Seq<Rgb>, Seq<i128>)
    decreases objects.len(),
{
    if objects.len() == 0 {
        (tri_index, cs, zs)
    } else {
        let rf = render_faces(
            proj,
            view,
            objects[0].model@,
            objects[0].mesh.positions@,
            objects[0].mesh.faces@,
            policy,
            tri_index,
            width,
            height,
            cs,
            zs,
        );
        render_objects(
            proj,
            view,
            objects.drop_first(),
            policy,
            rf.0,
            width,
            height,
            rf.1,
            rf.2,
        )
    }
}

proof fn lemma_skip_step<T>(s: Seq<T>, i: int)
    requires
        0 <= i < s.len(),
    ensures
        s.skip(i).len() == s.len() - i,
        s.skip(i)[0] == s[i],
        s.skip(i).drop_first() == s.skip(i + 1),
{
    assert(s.skip(i).drop_first() =~= s.skip(i + 1));
}

/// Whether a raster-space vertex is within the exact-arithmetic range of
/// triangle setup.
pub fn raster_ok(r: &Vec4Fx) -> (ok: bool)
    ensures
        ok == raster_in_range(r@),
{
    r.x >= -RASTER_LIMIT && r.x <= RASTER_LIMIT && r.y >= -RASTER_LIMIT && r.y <= RASTER_LIMIT
        && r.w >= -RASTER_LIMIT && r.w <= RASTER_LIMIT
}

/// Render a whole scene into the frame store: for each object and each
/// triangular face, in input order, transform, map to raster space, set
/// the triangle up (culling back faces), and scan the frame with the
/// depth test. The result is exactly the fold of the per-triangle pass
/// over the store's previous contents.
pub fn render(
    fb: &mut FrameStore,
    proj: &Mat4Fx,
    view: &Mat4Fx,
    objects: &Vec<SceneObject>,
    policy: &ColorPolicy,
)
    requires
        old(fb).wf(),
        policy.wf(),
        m4_bounded(proj@, SCENE_LIMIT as int),
        m4_bounded(view@, SCENE_LIMIT as int),
        forall|i: int| 0 <= i < objects@.len() ==> object_wf(#[trigger] objects@[i]),
    ensures
        final(fb).wf(),
        final(fb).width == old(fb).width,
        final(fb).height == old(fb).height,
        ({
            let r = render_objects(
                proj@,
                view@,
                objects@,
                *policy,
                0,
                old(fb).width as int,
                old(fb).height as int,
                old(fb).color@,
                old(fb).depth@,
            );
            final(fb).color@ == r.1 && final(fb).depth@ == r.2
        }),
{
    let width = fb.width;
    let height = fb.height;
    let ghost full = render_objects(
        proj@,
        view@,
        objects@,
        *policy,
        0,
        width as int,
        height as int,
        fb.color@,
        fb.depth@,
    );
    proof {
        assert(objects@.skip(0) =~= objects@);
    }
    let mut tri_index: usize = 0;
    let mut i: usize = 0;
    while i < objects.len()
        invariant
            fb.wf(),
            fb.width == width,
            fb.height == height,
            policy.wf(),
            m4_bounded(proj@, SCENE_LIMIT as int),
            m4_bounded(view@, SCENE_LIMIT as int),
            forall|j: int| 0 <= j < objects@.len() ==> object_wf(#[trigger] objects@[j]),
            i <= objects@.len(),
            render_objects(
                proj@,
                view@,
                objects@.skip(i as int),
                *policy,
                tri_index as int,
                width as int,
                height as int,
                fb.color@,
                fb.depth@,
            ) == full,
        decreases objects@.len() - i,
    {
        proof {
            lemma_skip_step(objects@, i as int);
            assert(objects@[i as int].mesh.faces@.skip(0) =~= objects@[i as int].mesh.faces@);
        }
        let nfaces = objects[i].mesh.faces.len();
        let mut j: usize = 0;
        while j < nfaces
            invariant
                fb.wf(),
                fb.width == width,
                fb.height == height,
                policy.wf(),
                m4_bounded(proj@, SCENE_LIMIT as int),
                m4_bounded(view@, SCENE_LIMIT as int),
                forall|jj: int| 0 <= jj < objects@.len() ==> object_wf(#[trigger] objects@[jj]),
                i < objects@.len(),
                nfaces == objects@[i as int].mesh.faces@.len(),
                j <= nfaces,
                ({
                    let o = objects@[i as int];
                    let rf = render_faces(
                        proj@,
                        view@,
                        o.model@,
                        o.mesh.positions@,
                        o.mesh.faces@.skip(j as int),
                        *policy,
                        tri_index as int,
                        width as int,
                        height as int,
                        fb.color@,
                        fb.depth@,
                    );
                    render_objects(
                        proj@,
                        view@,
                        objects@.skip(i as int + 1),
                        *policy,
                        rf.0,
                        width as int,
                        height as int,
                        rf.1,
                        rf.2,
                    ) == full
                }),
            decreases nfaces - j,
        {
            proof {
                lemma_skip_step(objects@[i as int].mesh.faces@, j as int);
            }
            let ghost cs0 = fb.color@;
            let ghost zs0 = fb.depth@;
            let face_len = objects[i].mesh.faces[j].len();
            if face_len == 3 {
                let o = &objects[i];
                let i0 = o.mesh.faces[j][0];
                let i1 = o.mesh.faces[j][1];
                let i2 = o.mesh.faces[j][2];
                let p0 = o.mesh.positions[i0];
                let p1 = o.mesh.positions[i1];
                let p2 = o.mesh.positions[i2];
                let clip0 = vs(&p0, &o.model, view, proj);
                let clip1 = vs(&p1, &o.model, view, proj);
                let clip2 = vs(&p2, &o.model, view, proj);
                let r0 = to_raster(&clip0, width, height);
                let r1 = to_raster(&clip1, width, height);
                let r2 = to_raster(&clip2, width, height);
                if raster_ok(&r0) && raster_ok(&r1) && raster_ok(&r2) {
                    match triangle_setup(&r0, &r1, &r2) {
                        Some(tri) => {
                            draw_triangle(fb, &tri, policy, tri_index);
                        },
                        None => {},
                    }
                }
                proof {
                    let o_spec = objects@[i as int];
                    assert((fb.color@, fb.depth@) == rasterize_spec(
                        proj@,
                        view@,
                        o_spec.model@,
                        o_spec.mesh.positions@[i0 as int]@,
                        o_spec.mesh.positions@[i1 as int]@,
                        o_spec.mesh.positions@[i2 as int]@,
                        *policy,
                        tri_index as int,
                        width as int,
                        height as int,
                        cs0,
                        zs0,
                    ));
                }
                tri_index = if tri_index < usize::MAX {
                    tri_index + 1
                } else {
                    tri_index
                };
            }
            j = j + 1;
        }
        proof {
            assert(objects@[i as int].mesh.faces@.skip(nfaces as int)
                =~= Seq::<Vec<usize>>::empty());
        }
        i = i + 1;
    }
    proof {
        assert(objects@.skip(objects@.len() as int) =~= Seq::<SceneObject>::empty());
    }
}

} // verus!
