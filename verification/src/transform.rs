//! The transform stage and the screen mapper.
//!
//! A model-space position is carried to clip space by
//! `projection * view * model * [x, y, z, 1]`, and a clip-space vertex is
//! mapped to raster space while the homogeneous component is retained as
//! a perspective weight (the divide is deferred into the edge functions).

use vstd::prelude::*;
use crate::{div_trunc, lemma_mul_le, SCALE};
use crate::math::{
    Vec3Fx, Vec4Fx, Mat4Fx, SpecV3, SpecV4, SpecM4, v4_bounded, m4_bounded, m4_mul_v4, m4_mul_m4,
    mat4_mul, mat4_mul_vec4, lemma_m4_mul_bound, lemma_m4_mul_v4_bound, MAT_LIMIT,
};

verus! {

/// Magnitude cap on the scene inputs (matrix entries and vertex
/// numerators) accepted by the transform stage.
pub const SCENE_LIMIT: i128 = 67108864;

/// Magnitude reached by a clip-space numerator when the inputs respect
/// [`SCENE_LIMIT`].
pub const CLIP_LIMIT: i128 = 18889465931478580854784;

/// Largest output resolution, in pixels, on either axis.
pub const MAX_DIM: usize = 4096;

/// The homogeneous extension `[x, y, z, 1]` of a position: the constant 1
/// is the numerator `SCALE` in fixed point.
pub open spec fn homogeneous(pos: SpecV3) -> SpecV4 {
    SpecV4 { x: pos.x, y: pos.y, z: pos.z, w: SCALE as int }
}

/// Clip-space position of a model-space vertex:
/// `projection * view * model * [pos, 1]`, associated left to right.
pub open spec fn vs_spec(p: SpecM4, v: SpecM4, m: SpecM4, pos: SpecV3) -> SpecV4 {
    m4_mul_v4(m4_mul_m4(m4_mul_m4(p, v), m), homogeneous(pos))
}

/// Raster-space image of a clip-space vertex: x and y become pixel-space
/// coordinates, z and w are retained.
pub open spec fn to_raster_spec(v: SpecV4, width: int, height: int) -> SpecV4 {
    SpecV4 {
        x: div_trunc(width * (v.x + v.w), 2),
        y: div_trunc(height * (v.w - v.y), 2),
        z: v.z,
        w: v.w,
    }
}

/// Vertex shader: carries a model-space position to clip space through
/// the model, view and projection matrices.
pub fn vs(pos: &Vec3Fx, m: &Mat4Fx, v: &Mat4Fx, p: &Mat4Fx) -> (clip: Vec4Fx)
    requires
        -SCENE_LIMIT <= pos.x <= SCENE_LIMIT,
        -SCENE_LIMIT <= pos.y <= SCENE_LIMIT,
        -SCENE_LIMIT <= pos.z <= SCENE_LIMIT,
        m4_bounded(m@, SCENE_LIMIT as int),
        m4_bounded(v@, SCENE_LIMIT as int),
        m4_bounded(p@, SCENE_LIMIT as int),
    ensures
        clip@ == vs_spec(p@, v@, m@, pos@),
        v4_bounded(clip@, CLIP_LIMIT as int),
{
    proof {
        lemma_m4_mul_bound(p@, v@, SCENE_LIMIT as int, SCENE_LIMIT as int);
    }
    let pv = mat4_mul(p, v);
    proof {
        lemma_m4_mul_bound(pv@, m@, 4398046511104, SCENE_LIMIT as int);
    }
    let pvm = mat4_mul(&pv, m);
    let pos4 = Vec4Fx { x: pos.x, y: pos.y, z: pos.z, w: SCALE };
    proof {
        lemma_m4_mul_v4_bound(pvm@, pos4@, 288230376151711744, SCENE_LIMIT as int);
    }
    mat4_mul_vec4(&pvm, &pos4)
}

/// Screen mapper: viewport transform of a clip-space vertex into raster
/// space, keeping the homogeneous component as a perspective weight.
pub fn to_raster(v: &Vec4Fx, width: usize, height: usize) -> (r: Vec4Fx)
    requires
        v4_bounded(v@, CLIP_LIMIT as int),
        width <= MAX_DIM,
        height <= MAX_DIM,
    ensures
        r@ == to_raster_spec(v@, width as int, height as int),
{
    proof {
        lemma_mul_le(width as int, v@.x + v@.w, MAX_DIM as int, 2 * CLIP_LIMIT as int);
        lemma_mul_le(height as int, v@.w - v@.y, MAX_DIM as int, 2 * CLIP_LIMIT as int);
    }
    Vec4Fx {
        x: (width as i128) * (v.x + v.w) / 2,
        y: (height as i128) * (v.w - v.y) / 2,
        z: v.z,
        w: v.w,
    }
}

} // verus!
