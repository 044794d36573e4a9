//! Point-in-polygon by counting the edges that a ray to the right crosses.

use crate::vector::NVec2;
use vstd::prelude::*;

verus! {

/// Whether the ray from `pos` to the right crosses the edge from `p1` to `p2`:
/// the edge passes the height of `pos`, and does so to the right of `pos`.
pub open spec fn spec_crosses(pos: NVec2, p1: NVec2, p2: NVec2) -> bool {
    &&& (pos.y.raw > p1.y.raw) != (pos.y.raw > p2.y.raw)
    &&& p2.x.spec_sub(p1.x).spec_mul(pos.y.spec_sub(p1.y)).spec_div(p2.y.spec_sub(p1.y)).spec_add(
        p1.x,
    ).raw > pos.x.raw
}

/// The vertex after vertex `i` on the way round the polygon `points`: the
/// first vertex comes after the last.
pub open spec fn spec_next_vertex(points: Seq<NVec2>, i: int) -> NVec2 {
    if i + 1 == points.len() {
        points[0]
    } else {
        points[i + 1]
    }
}

/// The number of the first `k` edges of the polygon `points` that the ray
/// from `pos` crosses. Edge `i` runs from vertex `i` to the vertex after it.
pub open spec fn spec_crossings(pos: NVec2, points: Seq<NVec2>, k: nat) -> nat
    decreases k,
{
    if k == 0 {
        0
    } else {
        let rest = spec_crossings(pos, points, (k - 1) as nat);
        if spec_crosses(pos, points[k - 1], spec_next_vertex(points, k - 1)) {
            rest + 1
        } else {
            rest
        }
    }
}

/// Whether `pos` lies inside the polygon with the vertices `points`: the ray
/// from `pos` to the right crosses an odd number of its edges, the edge from
/// the last vertex back to the first among them.
pub open spec fn spec_is_inside(pos: NVec2, points: Seq<NVec2>) -> bool {
    spec_crossings(pos, points, points.len()) % 2 == 1
}

/// Whether the ray from `pos` to the right crosses the edge from `p1` to `p2`.
pub fn crosses(pos: NVec2, p1: NVec2, p2: NVec2) -> (r: bool)
    ensures
        r == spec_crosses(pos, p1, p2),
{
    if pos.y.gt(p1.y) != pos.y.gt(p2.y) {
        let at_x = p2.x.sub(p1.x).mul(pos.y.sub(p1.y)).div(p2.y.sub(p1.y)).add(p1.x);
        at_x.gt(pos.x)
    } else {
        false
    }
}

/// Whether `pos` lies inside the polygon with the vertices `shape_points`.
/// The polygon is closed: its last edge runs from the last vertex back to the
/// first.
pub fn is_inside(pos: NVec2, shape_points: &Vec<NVec2>) -> (r: bool)
    ensures
        r == spec_is_inside(pos, shape_points@),
{
    let mut odd = false;
    let mut k: usize = 0;
    while k < shape_points.len()
        invariant
            k <= shape_points.len(),
            odd == (spec_crossings(pos, shape_points@, k as nat) % 2 == 1),
        decreases shape_points.len() - k,
    {
        let next = if k + 1 == shape_points.len() {
            shape_points[0]
        } else {
            shape_points[k + 1]
        };
        if crosses(pos, shape_points[k], next) {
            odd = !odd;
        }
        k = k + 1;
    }
    odd
}

} // verus!
