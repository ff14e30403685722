//! Fixed-point vectors and matrices.
//!
//! Exec values hold `i128` numerators at scale [`crate::SCALE`]; their
//! mathematical views are vectors of unbounded integers, and every
//! operation's contract states the exact resulting integers.

use vstd::prelude::*;
use crate::{div_trunc, lemma_mul_le, lemma_div_trunc_bound, SCALE};

verus! {

/// Magnitude cap on the numerators accepted by the matrix and vector
/// operations; it keeps every intermediate product inside `i128`.
pub const MAT_LIMIT: i128 = 1152921504606846976;

/// Mathematical view of a 3-component vector.
pub ghost struct SpecV3 {
    pub x: int,
    pub y: int,
    pub z: int,
}

/// Mathematical view of a 4-component vector.
pub ghost struct SpecV4 {
    pub x: int,
    pub y: int,
    pub z: int,
    pub w: int,
}

/// Mathematical view of a 4x4 matrix as four rows.
pub ghost struct SpecM4 {
    pub r0: SpecV4,
    pub r1: SpecV4,
    pub r2: SpecV4,
    pub r3: SpecV4,
}

/// A 3-component fixed-point vector (a model-space position).
#[derive(Clone, Copy, PartialEq, Eq, Structural, Debug)]
pub struct Vec3Fx {
    pub x: i128,
    pub y: i128,
    pub z: i128,
}

/// A 4-component fixed-point vector (a homogeneous position).
#[derive(Clone, Copy, PartialEq, Eq, Structural, Debug)]
pub struct Vec4Fx {
    pub x: i128,
    pub y: i128,
    pub z: i128,
    pub w: i128,
}

/// A 4x4 fixed-point matrix, row-major: `r0` is the first row.
#[derive(Clone, Copy, PartialEq, Eq, Structural, Debug)]
pub struct Mat4Fx {
    pub r0: Vec4Fx,
    pub r1: Vec4Fx,
    pub r2: Vec4Fx,
    pub r3: Vec4Fx,
}

impl View for Vec3Fx {
    type V = SpecV3;

    open spec fn view(&self) -> SpecV3 {
        SpecV3 { x: self.x as int, y: self.y as int, z: self.z as int }
    }
}

impl View for Vec4Fx {
    type V = SpecV4;

    open spec fn view(&self) -> SpecV4 {
        SpecV4 { x: self.x as int, y: self.y as int, z: self.z as int, w: self.w as int }
    }
}

impl View for Mat4Fx {
    type V = SpecM4;

    open spec fn view(&self) -> SpecM4 {
        SpecM4 { r0: self.r0@, r1: self.r1@, r2: self.r2@, r3: self.r3@ }
    }
}

/// All components within `bound` in magnitude.
pub open spec fn v3_bounded(v: SpecV3, bound: int) -> bool {
    &&& -bound <= v.x <= bound
    &&& -bound <= v.y <= bound
    &&& -bound <= v.z <= bound
}

/// Dot product of two 3-component integer vectors.
pub open spec fn dot3(a: SpecV3, b: SpecV3) -> int {
    a.x * b.x + a.y * b.y + a.z * b.z
}

/// All components within `bound` in magnitude.
pub open spec fn v4_bounded(v: SpecV4, bound: int) -> bool {
    &&& -bound <= v.x <= bound
    &&& -bound <= v.y <= bound
    &&& -bound <= v.z <= bound
    &&& -bound <= v.w <= bound
}

/// All entries within `bound` in magnitude.
pub open spec fn m4_bounded(m: SpecM4, bound: int) -> bool {
    &&& v4_bounded(m.r0, bound)
    &&& v4_bounded(m.r1, bound)
    &&& v4_bounded(m.r2, bound)
    &&& v4_bounded(m.r3, bound)
}

/// Dot product of two 4-component integer vectors.
pub open spec fn dot4(a: SpecV4, b: SpecV4) -> int {
    a.x * b.x + a.y * b.y + a.z * b.z + a.w * b.w
}

/// Bring a double-scale product back to the working fixed-point scale.
pub open spec fn rescale_spec(t: int) -> int {
    div_trunc(t, SCALE as int)
}

pub open spec fn m4_col0(m: SpecM4) -> SpecV4 {
    SpecV4 { x: m.r0.x, y: m.r1.x, z: m.r2.x, w: m.r3.x }
}

pub open spec fn m4_col1(m: SpecM4) -> SpecV4 {
    SpecV4 { x: m.r0.y, y: m.r1.y, z: m.r2.y, w: m.r3.y }
}

pub open spec fn m4_col2(m: SpecM4) -> SpecV4 {
    SpecV4 { x: m.r0.z, y: m.r1.z, z: m.r2.z, w: m.r3.z }
}

pub open spec fn m4_col3(m: SpecM4) -> SpecV4 {
    SpecV4 { x: m.r0.w, y: m.r1.w, z: m.r2.w, w: m.r3.w }
}

/// Matrix-vector product in fixed point: each component is the row dot
/// product rescaled by truncation.
pub open spec fn m4_mul_v4(m: SpecM4, v: SpecV4) -> SpecV4 {
    SpecV4 {
        x: rescale_spec(dot4(m.r0, v)),
        y: rescale_spec(dot4(m.r1, v)),
        z: rescale_spec(dot4(m.r2, v)),
        w: rescale_spec(dot4(m.r3, v)),
    }
}

pub open spec fn m4_mul_row(r: SpecV4, b: SpecM4) -> SpecV4 {
    SpecV4 {
        x: rescale_spec(dot4(r, m4_col0(b))),
        y: rescale_spec(dot4(r, m4_col1(b))),
        z: rescale_spec(dot4(r, m4_col2(b))),
        w: rescale_spec(dot4(r, m4_col3(b))),
    }
}

/// Matrix-matrix product in fixed point.
pub open spec fn m4_mul_m4(a: SpecM4, b: SpecM4) -> SpecM4 {
    SpecM4 {
        r0: m4_mul_row(a.r0, b),
        r1: m4_mul_row(a.r1, b),
        r2: m4_mul_row(a.r2, b),
        r3: m4_mul_row(a.r3, b),
    }
}

/// A dot product of bounded vectors is bounded by four times the product
/// of the bounds.
pub proof fn lemma_dot4_bound(a: SpecV4, b: SpecV4, aa: int, bb: int)
    requires
        v4_bounded(a, aa),
        v4_bounded(b, bb),
    ensures
        -(4 * (aa * bb)) <= dot4(a, b) <= 4 * (aa * bb),
{
    lemma_mul_le(a.x, b.x, aa, bb);
    lemma_mul_le(a.y, b.y, aa, bb);
    lemma_mul_le(a.z, b.z, aa, bb);
    lemma_mul_le(a.w, b.w, aa, bb);
}

/// Row-times-matrix keeps the stated bound after rescaling.
pub proof fn lemma_m4_mul_row_bound(r: SpecV4, b: SpecM4, aa: int, bb: int)
    requires
        v4_bounded(r, aa),
        m4_bounded(b, bb),
    ensures
        v4_bounded(m4_mul_row(r, b), (4 * (aa * bb)) / (SCALE as int)),
{
    lemma_dot4_bound(r, m4_col0(b), aa, bb);
    lemma_dot4_bound(r, m4_col1(b), aa, bb);
    lemma_dot4_bound(r, m4_col2(b), aa, bb);
    lemma_dot4_bound(r, m4_col3(b), aa, bb);
    lemma_div_trunc_bound(dot4(r, m4_col0(b)), 4 * (aa * bb), SCALE as int);
    lemma_div_trunc_bound(dot4(r, m4_col1(b)), 4 * (aa * bb), SCALE as int);
    lemma_div_trunc_bound(dot4(r, m4_col2(b)), 4 * (aa * bb), SCALE as int);
    lemma_div_trunc_bound(dot4(r, m4_col3(b)), 4 * (aa * bb), SCALE as int);
}

/// A fixed-point matrix product of bounded matrices is bounded.
pub proof fn lemma_m4_mul_bound(a: SpecM4, b: SpecM4, aa: int, bb: int)
    requires
        m4_bounded(a, aa),
        m4_bounded(b, bb),
    ensures
        m4_bounded(m4_mul_m4(a, b), (4 * (aa * bb)) / (SCALE as int)),
{
    lemma_m4_mul_row_bound(a.r0, b, aa, bb);
    lemma_m4_mul_row_bound(a.r1, b, aa, bb);
    lemma_m4_mul_row_bound(a.r2, b, aa, bb);
    lemma_m4_mul_row_bound(a.r3, b, aa, bb);
}

/// A fixed-point matrix-vector product of bounded arguments is bounded.
pub proof fn lemma_m4_mul_v4_bound(m: SpecM4, v: SpecV4, aa: int, bb: int)
    requires
        m4_bounded(m, aa),
        v4_bounded(v, bb),
    ensures
        v4_bounded(m4_mul_v4(m, v), (4 * (aa * bb)) / (SCALE as int)),
{
    lemma_dot4_bound(m.r0, v, aa, bb);
    lemma_dot4_bound(m.r1, v, aa, bb);
    lemma_dot4_bound(m.r2, v, aa, bb);
    lemma_dot4_bound(m.r3, v, aa, bb);
    lemma_div_trunc_bound(dot4(m.r0, v), 4 * (aa * bb), SCALE as int);
    lemma_div_trunc_bound(dot4(m.r1, v), 4 * (aa * bb), SCALE as int);
    lemma_div_trunc_bound(dot4(m.r2, v), 4 * (aa * bb), SCALE as int);
    lemma_div_trunc_bound(dot4(m.r3, v), 4 * (aa * bb), SCALE as int);
}

/// Fixed-point rescale after a product: truncating division by the scale.
pub fn rescale_fx(t: i128) -> (r: i128)
    ensures
        r == rescale_spec(t as int),
{
    proof {
        lemma_div_trunc_bound(t as int, 0x80000000000000000000000000000000, SCALE as int);
    }
    t / SCALE
}

/// Exact dot product of two bounded fixed-point vectors.
pub fn dot4_fx(a: &Vec4Fx, b: &Vec4Fx) -> (r: i128)
    requires
        v4_bounded(a@, MAT_LIMIT as int),
        v4_bounded(b@, MAT_LIMIT as int),
    ensures
        r == dot4(a@, b@),
{
    proof {
        lemma_mul_le(a.x as int, b.x as int, MAT_LIMIT as int, MAT_LIMIT as int);
        lemma_mul_le(a.y as int, b.y as int, MAT_LIMIT as int, MAT_LIMIT as int);
        lemma_mul_le(a.z as int, b.z as int, MAT_LIMIT as int, MAT_LIMIT as int);
        lemma_mul_le(a.w as int, b.w as int, MAT_LIMIT as int, MAT_LIMIT as int);
    }
    a.x * b.x + a.y * b.y + a.z * b.z + a.w * b.w
}

/// Matrix-vector product; the result is exactly the rescaled row dots.
pub fn mat4_mul_vec4(m: &Mat4Fx, v: &Vec4Fx) -> (r: Vec4Fx)
    requires
        m4_bounded(m@, MAT_LIMIT as int),
        v4_bounded(v@, MAT_LIMIT as int),
    ensures
        r@ == m4_mul_v4(m@, v@),
{
    Vec4Fx {
        x: rescale_fx(dot4_fx(&m.r0, v)),
        y: rescale_fx(dot4_fx(&m.r1, v)),
        z: rescale_fx(dot4_fx(&m.r2, v)),
        w: rescale_fx(dot4_fx(&m.r3, v)),
    }
}

/// Matrix-matrix product; the result is exactly the rescaled row-column dots.
pub fn mat4_mul(a: &Mat4Fx, b: &Mat4Fx) -> (r: Mat4Fx)
    requires
        m4_bounded(a@, MAT_LIMIT as int),
        m4_bounded(b@, MAT_LIMIT as int),
    ensures
        r@ == m4_mul_m4(a@, b@),
{
    let c0 = Vec4Fx { x: b.r0.x, y: b.r1.x, z: b.r2.x, w: b.r3.x };
    let c1 = Vec4Fx { x: b.r0.y, y: b.r1.y, z: b.r2.y, w: b.r3.y };
    let c2 = Vec4Fx { x: b.r0.z, y: b.r1.z, z: b.r2.z, w: b.r3.z };
    let c3 = Vec4Fx { x: b.r0.w, y: b.r1.w, z: b.r2.w, w: b.r3.w };
    Mat4Fx {
        r0: Vec4Fx {
            x: rescale_fx(dot4_fx(&a.r0, &c0)),
            y: rescale_fx(dot4_fx(&a.r0, &c1)),
            z: rescale_fx(dot4_fx(&a.r0, &c2)),
            w: rescale_fx(dot4_fx(&a.r0, &c3)),
        },
        r1: Vec4Fx {
            x: rescale_fx(dot4_fx(&a.r1, &c0)),
            y: rescale_fx(dot4_fx(&a.r1, &c1)),
            z: rescale_fx(dot4_fx(&a.r1, &c2)),
            w: rescale_fx(dot4_fx(&a.r1, &c3)),
        },
        r2: Vec4Fx {
            x: rescale_fx(dot4_fx(&a.r2, &c0)),
            y: rescale_fx(dot4_fx(&a.r2, &c1)),
            z: rescale_fx(dot4_fx(&a.r2, &c2)),
            w: rescale_fx(dot4_fx(&a.r2, &c3)),
        },
        r3: Vec4Fx {
            x: rescale_fx(dot4_fx(&a.r3, &c0)),
            y: rescale_fx(dot4_fx(&a.r3, &c1)),
            z: rescale_fx(dot4_fx(&a.r3, &c2)),
            w: rescale_fx(dot4_fx(&a.r3, &c3)),
        },
    }
}

} // verus!
