//! Triangle setup and the edge-function fill rule.
//!
//! From three raster-space vertices the stage forms the matrix `M` whose
//! columns are `(x_i, y_i, w_i)`. A non-negative determinant means a
//! back-facing (or degenerate) triangle, which is rejected. Otherwise the
//! rows of `M⁻¹` are the three edge functions and their sum recovers a
//! depth-equivalent weight. The inverse is kept exactly as the pair
//! (negated adjugate rows, negated determinant): every row of `M⁻¹`
//! equals its stored numerator row divided by the stored positive
//! denominator `d`, so all sign tests below are exact.

use vstd::prelude::*;
use crate::lemma_mul_le;
use crate::math::{Vec3Fx, Vec4Fx, SpecV3, SpecV4, v3_bounded};

verus! {

/// Magnitude cap on the raster-space numerators (x, y and w) accepted by
/// triangle setup.
pub const RASTER_LIMIT: i128 = 1073741824;

/// Magnitude reached by an edge-function numerator.
pub const EDGE_LIMIT: i128 = 2305843009213693952;

/// Magnitude reached by the determinant.
pub const DET_LIMIT: i128 = 7427640235712281649394745344;

/// x, y and w of a raster-space vertex are within triangle setup's range.
pub open spec fn raster_in_range(v: SpecV4) -> bool {
    &&& -RASTER_LIMIT <= v.x <= RASTER_LIMIT
    &&& -RASTER_LIMIT <= v.y <= RASTER_LIMIT
    &&& -RASTER_LIMIT <= v.w <= RASTER_LIMIT
}

/// Determinant of the matrix whose columns are `(x_i, y_i, w_i)`.
pub open spec fn det3(v0: SpecV4, v1: SpecV4, v2: SpecV4) -> int {
    v0.x * (v1.y * v2.w - v2.y * v1.w) - v1.x * (v0.y * v2.w - v2.y * v0.w) + v2.x * (v0.y
        * v1.w - v1.y * v0.w)
}

/// Numerator row of the first edge function: the negated first adjugate
/// row of `M`, so that `e0 == e0_num / (-det)`.
pub open spec fn e0_num(v0: SpecV4, v1: SpecV4, v2: SpecV4) -> SpecV3 {
    SpecV3 {
        x: v2.y * v1.w - v1.y * v2.w,
        y: v1.x * v2.w - v2.x * v1.w,
        z: v2.x * v1.y - v1.x * v2.y,
    }
}

/// Numerator row of the second edge function.
pub open spec fn e1_num(v0: SpecV4, v1: SpecV4, v2: SpecV4) -> SpecV3 {
    SpecV3 {
        x: v0.y * v2.w - v2.y * v0.w,
        y: v2.x * v0.w - v0.x * v2.w,
        z: v0.x * v2.y - v2.x * v0.y,
    }
}

/// Numerator row of the third edge function.
pub open spec fn e2_num(v0: SpecV4, v1: SpecV4, v2: SpecV4) -> SpecV3 {
    SpecV3 {
        x: v1.y * v0.w - v0.y * v1.w,
        y: v0.x * v1.w - v1.x * v0.w,
        z: v1.x * v0.y - v0.x * v1.y,
    }
}

/// Numerator row of the weight vector `c`: the component-wise sum of the
/// three edge rows, so that `c · sample` is the sum of the three edge
/// dot products (the interpolated inverse depth).
pub open spec fn c_num(v0: SpecV4, v1: SpecV4, v2: SpecV4) -> SpecV3 {
    SpecV3 {
        x: e0_num(v0, v1, v2).x + e1_num(v0, v1, v2).x + e2_num(v0, v1, v2).x,
        y: e0_num(v0, v1, v2).y + e1_num(v0, v1, v2).y + e2_num(v0, v1, v2).y,
        z: e0_num(v0, v1, v2).z + e1_num(v0, v1, v2).z + e2_num(v0, v1, v2).z,
    }
}

/// One triangle, set up for the pixel loop: three edge-function
/// numerator rows, the weight numerator row, and the shared positive
/// denominator `d == -det(M)`.
#[derive(Clone, Copy, PartialEq, Eq, Structural, Debug)]
pub struct TriangleSetup {
    pub e0: Vec3Fx,
    pub e1: Vec3Fx,
    pub e2: Vec3Fx,
    pub c: Vec3Fx,
    pub d: i128,
}

/// Mathematical view of a triangle setup: the edge and weight numerator
/// rows and the positive denominator, as unbounded integers.
pub ghost struct TriSpec {
    pub e0: SpecV3,
    pub e1: SpecV3,
    pub e2: SpecV3,
    pub c: SpecV3,
    pub d: int,
}

impl View for TriangleSetup {
    type V = TriSpec;

    open spec fn view(&self) -> TriSpec {
        TriSpec { e0: self.e0@, e1: self.e1@, e2: self.e2@, c: self.c@, d: self.d as int }
    }
}

/// The setup a front-facing triangle with these raster-space vertices
/// produces.
pub open spec fn tri_spec_of(v0: SpecV4, v1: SpecV4, v2: SpecV4) -> TriSpec {
    TriSpec {
        e0: e0_num(v0, v1, v2),
        e1: e1_num(v0, v1, v2),
        e2: e2_num(v0, v1, v2),
        c: c_num(v0, v1, v2),
        d: -det3(v0, v1, v2),
    }
}

impl TriangleSetup {
    /// Bounds that triangle setup establishes and the pixel loop relies on.
    pub open spec fn wf(self) -> bool {
        &&& v3_bounded(self.e0@, EDGE_LIMIT as int)
        &&& v3_bounded(self.e1@, EDGE_LIMIT as int)
        &&& v3_bounded(self.e2@, EDGE_LIMIT as int)
        &&& v3_bounded(self.c@, 3 * EDGE_LIMIT as int)
        &&& 1 <= self.d <= DET_LIMIT
    }

}

/// Triangle setup: rejects a back-facing or degenerate triangle
/// (`det(M) >= 0`) and otherwise inverts `M`, keeping the inverse exact
/// as numerator rows over the positive denominator `-det`.
pub fn triangle_setup(v0: &Vec4Fx, v1: &Vec4Fx, v2: &Vec4Fx) -> (res: Option<TriangleSetup>)
    requires
        raster_in_range(v0@),
        raster_in_range(v1@),
        raster_in_range(v2@),
    ensures
        res is Some <==> det3(v0@, v1@, v2@) < 0,
        res matches Some(t) ==> t@ == tri_spec_of(v0@, v1@, v2@) && t.wf(),
{
    proof {
        let l = RASTER_LIMIT as int;
        lemma_mul_le(v0@.x, v1@.y, l, l);
        lemma_mul_le(v0@.x, v2@.y, l, l);
        lemma_mul_le(v1@.x, v0@.y, l, l);
        lemma_mul_le(v1@.x, v2@.y, l, l);
        lemma_mul_le(v2@.x, v0@.y, l, l);
        lemma_mul_le(v2@.x, v1@.y, l, l);
        lemma_mul_le(v0@.x, v1@.w, l, l);
        lemma_mul_le(v0@.x, v2@.w, l, l);
        lemma_mul_le(v1@.x, v0@.w, l, l);
        lemma_mul_le(v1@.x, v2@.w, l, l);
        lemma_mul_le(v2@.x, v0@.w, l, l);
        lemma_mul_le(v2@.x, v1@.w, l, l);
        lemma_mul_le(v0@.y, v1@.w, l, l);
        lemma_mul_le(v0@.y, v2@.w, l, l);
        lemma_mul_le(v1@.y, v0@.w, l, l);
        lemma_mul_le(v1@.y, v2@.w, l, l);
        lemma_mul_le(v2@.y, v0@.w, l, l);
        lemma_mul_le(v2@.y, v1@.w, l, l);
        lemma_mul_le(v0@.x, v1@.y * v2@.w - v2@.y * v1@.w, l, 2 * (l * l));
        lemma_mul_le(v1@.x, v0@.y * v2@.w - v2@.y * v0@.w, l, 2 * (l * l));
        lemma_mul_le(v2@.x, v0@.y * v1@.w - v1@.y * v0@.w, l, 2 * (l * l));
    }
    let m0 = v1.y * v2.w - v2.y * v1.w;
    let m1 = v0.y * v2.w - v2.y * v0.w;
    let m2 = v0.y * v1.w - v1.y * v0.w;
    let det = v0.x * m0 - v1.x * m1 + v2.x * m2;
    if det >= 0 {
        return None;
    }
    let e0 = Vec3Fx {
        x: v2.y * v1.w - v1.y * v2.w,
        y: v1.x * v2.w - v2.x * v1.w,
        z: v2.x * v1.y - v1.x * v2.y,
    };
    let e1 = Vec3Fx {
        x: v0.y * v2.w - v2.y * v0.w,
        y: v2.x * v0.w - v0.x * v2.w,
        z: v0.x * v2.y - v2.x * v0.y,
    };
    let e2 = Vec3Fx {
        x: v1.y * v0.w - v0.y * v1.w,
        y: v0.x * v1.w - v1.x * v0.w,
        z: v1.x * v0.y - v0.x * v1.y,
    };
    let c = Vec3Fx { x: e0.x + e1.x + e2.x, y: e0.y + e1.y + e2.y, z: e0.z + e1.z + e2.z };
    Some(TriangleSetup { e0, e1, e2, c, d: -det })
}

/// Value of one edge function at the pixel centre `(px + ½, py + ½)`,
/// as a numerator over the positive denominator `2 d`: the sample is
/// doubled so the half-pixel offset stays an integer.
pub open spec fn edge_val2(e: SpecV3, px: int, py: int) -> int {
    e.x * (2 * px + 1) + e.y * (2 * py + 1) + 2 * e.z
}

/// The fill rule: strictly positive is inside, strictly negative is
/// outside, and a sample exactly on the edge line is resolved by the
/// edge coefficients alone, deterministically.
pub open spec fn edge_inside(e: SpecV3, px: int, py: int) -> bool {
    let t = edge_val2(e, px, py);
    if t > 0 {
        true
    } else if t < 0 {
        false
    } else if e.x > 0 {
        true
    } else if e.x < 0 {
        false
    } else if e.x == 0 && e.y < 0 {
        false
    } else {
        true
    }
}

/// Evaluate one edge function at the centre of pixel `(px, py)` and
/// apply the fill-rule tie-break.
pub fn evaluate_edge_function(e: &Vec3Fx, px: usize, py: usize) -> (inside: bool)
    requires
        v3_bounded(e@, EDGE_LIMIT as int),
        px < 4096,
        py < 4096,
    ensures
        inside == edge_inside(e@, px as int, py as int),
{
    let sx: i128 = 2 * (px as i128) + 1;
    let sy: i128 = 2 * (py as i128) + 1;
    proof {
        lemma_mul_le(e@.x, sx as int, EDGE_LIMIT as int, 8191);
        lemma_mul_le(e@.y, sy as int, EDGE_LIMIT as int, 8191);
    }
    let result = e.x * sx + e.y * sy + 2 * e.z;
    if result > 0 {
        return true;
    } else if result < 0 {
        return false;
    }
    if e.x > 0 {
        return true;
    } else if e.x < 0 {
        return false;
    }
    if e.x == 0 && e.y < 0 {
        return false;
    }
    true
}

} // verus!
