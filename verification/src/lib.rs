//! A software triangle rasterizer over exact fixed-point arithmetic.
//!
//! Geometry is carried as integer numerators at a fixed scale
//! ([`SCALE`]): a numerator `n` stands for the coordinate `n / SCALE`.
//! The pipeline transforms model-space vertices to clip space, maps them
//! to raster space, builds edge functions by the inverse-matrix trick,
//! and scans the frame, resolving visibility with a per-pixel depth test.

use vstd::prelude::*;

pub mod math;
pub mod transform;
pub mod setup;
pub mod frame;
pub mod raster;
pub mod laws;

verus! {

/// Fixed-point scale: a coordinate numerator `n` stands for `n / SCALE`.
pub const SCALE: i128 = 4096;

/// Division truncating toward zero, as machine division does; the spec-level
/// `/` rounds toward negative infinity on mixed signs, so the negative case
/// is written out.
pub open spec fn div_trunc(a: int, b: int) -> int {
    if a >= 0 {
        a / b
    } else {
        -((-a) / b)
    }
}

/// A product of values bounded in magnitude is bounded by the product of
/// the bounds.
pub proof fn lemma_mul_le(a: int, b: int, aa: int, bb: int)
    by (nonlinear_arith)
    requires
        -aa <= a <= aa,
        -bb <= b <= bb,
    ensures
        -(aa * bb) <= a * b <= aa * bb,
{
}

/// Truncating division by a positive divisor keeps a magnitude bound:
/// if `|t| <= tt` then `|t / s|` is at most `tt / s`.
pub proof fn lemma_div_trunc_bound(t: int, tt: int, s: int)
    requires
        -tt <= t <= tt,
        s >= 1,
    ensures
        -(tt / s) <= div_trunc(t, s) <= tt / s,
{
    if t >= 0 {
        vstd::arithmetic::div_mod::lemma_div_is_ordered(t, tt, s);
        vstd::arithmetic::div_mod::lemma_div_pos_is_pos(t, s);
    } else {
        vstd::arithmetic::div_mod::lemma_div_is_ordered(-t, tt, s);
        vstd::arithmetic::div_mod::lemma_div_pos_is_pos(-t, s);
    }
}

/// Truncating division by a positive divisor never grows a magnitude.
pub proof fn lemma_div_trunc_shrinks(t: int, tt: int, s: int)
    requires
        -tt <= t <= tt,
        s >= 1,
    ensures
        -tt <= div_trunc(t, s) <= tt,
{
    if t >= 0 {
        vstd::arithmetic::div_mod::lemma_div_basics_5(t, s);
        vstd::arithmetic::div_mod::lemma_div_pos_is_pos(t, s);
    } else {
        vstd::arithmetic::div_mod::lemma_div_basics_5(-t, s);
        vstd::arithmetic::div_mod::lemma_div_pos_is_pos(-t, s);
    }
}

} // verus!
