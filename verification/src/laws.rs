//! Laws of the rasterizer, proved over the pipeline's specification.

use vstd::prelude::*;
use crate::{lemma_mul_le, lemma_div_trunc_shrinks, SCALE};
use crate::math::{SpecV4, SpecM4, v3_bounded};
use crate::setup::{TriSpec, det3, edge_val2, EDGE_LIMIT};
use crate::frame::Rgb;
use crate::raster::{
    ColorPolicy, covered, weight_q, shade_spec, draw_spec, rasterize_raster, render_objects,
    SceneObject, EVAL_C_LIMIT, WEIGHT_NUM_LIMIT,
};

verus! {

/// Back-face culling is total: a triangle whose raster-space determinant
/// is non-negative modifies no pixel of either buffer.
pub proof fn lemma_backface_culling_total(
    r0: SpecV4,
    r1: SpecV4,
    r2: SpecV4,
    policy: ColorPolicy,
    tri_index: int,
    width: int,
    cs: Seq<Rgb>,
    zs: Seq<i128>,
)
    requires
        det3(r0, r1, r2) >= 0,
    ensures
        rasterize_raster(r0, r1, r2, policy, tri_index, width, cs, zs) == (cs, zs),
{
}

/// The quantized weight of a valid triangle at an on-screen pixel stays
/// within the exact-arithmetic range.
proof fn lemma_weight_in_range(t: TriSpec, px: int, py: int)
    requires
        v3_bounded(t.c, 3 * (EDGE_LIMIT as int)),
        t.d >= 1,
        0 <= px < 4096,
        0 <= py < 4096,
    ensures
        -(WEIGHT_NUM_LIMIT as int) <= weight_q(t, px, py) <= WEIGHT_NUM_LIMIT as int,
{
    lemma_mul_le(t.c.x, 2 * px + 1, 3 * (EDGE_LIMIT as int), 8191);
    lemma_mul_le(t.c.y, 2 * py + 1, 3 * (EDGE_LIMIT as int), 8191);
    lemma_mul_le(edge_val2(t.c, px, py), SCALE as int, EVAL_C_LIMIT as int, 4096);
    lemma_mul_le(edge_val2(t.c, px, py) * SCALE, SCALE as int, EVAL_C_LIMIT as int * 4096, 4096);
    lemma_div_trunc_shrinks(
        edge_val2(t.c, px, py) * SCALE * SCALE,
        WEIGHT_NUM_LIMIT as int,
        2 * t.d,
    );
}

/// A pixel whose centre lies strictly inside all three edges, with no
/// nearer triangle already stored there, is covered: the scan writes its
/// color and its weight.
pub proof fn lemma_inside_pixel_colored(
    t: TriSpec,
    policy: ColorPolicy,
    tri_index: int,
    width: int,
    px: int,
    py: int,
    cs: Seq<Rgb>,
    zs: Seq<i128>,
)
    requires
        0 <= px < width <= 4096,
        0 <= py < 4096,
        cs.len() == zs.len(),
        0 <= px + py * width < cs.len(),
        v3_bounded(t.c, 3 * (EDGE_LIMIT as int)),
        t.d >= 1,
        edge_val2(t.e0, px, py) > 0,
        edge_val2(t.e1, px, py) > 0,
        edge_val2(t.e2, px, py) > 0,
        zs[px + py * width] <= weight_q(t, px, py),
    ensures
        draw_spec(t, policy, tri_index, width, cs, zs).0[px + py * width] == shade_spec(
            policy,
            t,
            tri_index,
            px,
            py,
        ),
        draw_spec(t, policy, tri_index, width, cs, zs).1[px + py * width] == weight_q(t, px, py),
{
    let k = px + py * width;
    vstd::arithmetic::div_mod::lemma_fundamental_div_mod_converse(k, width, py, px);
    lemma_weight_in_range(t, px, py);
    assert(covered(t, px, py));
}

/// A pixel whose centre lies strictly outside any edge is left
/// unmodified in both buffers.
pub proof fn lemma_outside_pixel_untouched(
    t: TriSpec,
    policy: ColorPolicy,
    tri_index: int,
    width: int,
    px: int,
    py: int,
    cs: Seq<Rgb>,
    zs: Seq<i128>,
)
    requires
        0 <= px < width,
        0 <= py,
        cs.len() == zs.len(),
        0 <= px + py * width < cs.len(),
        edge_val2(t.e0, px, py) < 0 || edge_val2(t.e1, px, py) < 0 || edge_val2(t.e2, px, py) < 0,
    ensures
        draw_spec(t, policy, tri_index, width, cs, zs).0[px + py * width] == cs[px + py * width],
        draw_spec(t, policy, tri_index, width, cs, zs).1[px + py * width] == zs[px + py * width],
{
    let k = px + py * width;
    vstd::arithmetic::div_mod::lemma_fundamental_div_mod_converse(k, width, py, px);
    assert(!covered(t, px, py));
}

/// Depth monotonicity with last-write-wins ties: after two triangles
/// covering the same pixel with weights `w1` then `w2`, the stored depth
/// is `w2` if `w2 >= w1` and stays `w1` otherwise, and the color follows
/// the winning triangle.
pub proof fn lemma_depth_monotonic(
    t1: TriSpec,
    t2: TriSpec,
    policy: ColorPolicy,
    i1: int,
    i2: int,
    width: int,
    px: int,
    py: int,
    cs: Seq<Rgb>,
    zs: Seq<i128>,
)
    requires
        0 <= px < width <= 4096,
        0 <= py < 4096,
        cs.len() == zs.len(),
        0 <= px + py * width < cs.len(),
        v3_bounded(t1.c, 3 * (EDGE_LIMIT as int)),
        v3_bounded(t2.c, 3 * (EDGE_LIMIT as int)),
        t1.d >= 1,
        t2.d >= 1,
        covered(t1, px, py),
        covered(t2, px, py),
        zs[px + py * width] <= weight_q(t1, px, py),
    ensures
        ({
            let k = px + py * width;
            let w1 = weight_q(t1, px, py);
            let w2 = weight_q(t2, px, py);
            let s1 = draw_spec(t1, policy, i1, width, cs, zs);
            let s2 = draw_spec(t2, policy, i2, width, s1.0, s1.1);
            &&& s2.1[k] == (if w2 >= w1 {
                w2
            } else {
                w1
            })
            &&& s2.0[k] == (if w2 >= w1 {
                shade_spec(policy, t2, i2, px, py)
            } else {
                shade_spec(policy, t1, i1, px, py)
            })
        }),
{
    let k = px + py * width;
    vstd::arithmetic::div_mod::lemma_fundamental_div_mod_converse(k, width, py, px);
    lemma_weight_in_range(t1, px, py);
    lemma_weight_in_range(t2, px, py);
}

/// The pipeline is a function of the scene and the starting store alone:
/// two renders from equal stores produce equal buffers, so rendering a
/// scene twice from freshly zeroed stores gives identical images.
pub proof fn lemma_render_deterministic(
    proj: SpecM4,
    view: SpecM4,
    objects: Seq<SceneObject>,
    policy: ColorPolicy,
    tri_index: int,
    width: int,
    height: int,
    cs1: Seq<Rgb>,
    zs1: Seq<i128>,
    cs2: Seq<Rgb>,
    zs2: Seq<i128>,
)
    requires
        cs1 == cs2,
        zs1 == zs2,
    ensures
        render_objects(proj, view, objects, policy, tri_index, width, height, cs1, zs1)
            == render_objects(proj, view, objects, policy, tri_index, width, height, cs2, zs2),
{
}

} // verus!
