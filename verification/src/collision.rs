//! Point-in-polygon and polygon-overlap tests.
//!
//! `point_in_polygon` is the even-odd ray cast: walking successive point
//! pairs of the polygon, a crossing is counted for each edge whose y-span
//! contains the test point's y (strictly above the lower end, inclusive at
//! the upper) and whose x-intercept at that height lies at or to the right
//! of the point. The caller supplies the polygon closed (first point
//! repeated as last); the function does not check closure.
//!
//! `is_colliding` samples one direction only: the polygons overlap when
//! some vertex of the first lies inside the second. A containment without a
//! shared vertex inside goes undetected; that approximation is part of the
//! behavior this crate commits to.

use vstd::prelude::*;
use vstd::math::max;
use vstd::math::min;
use crate::fixed::Vec2;
use crate::fixed::vec2_in_range;

verus! {

/// The test point lies on or to the left of the edge's x-intercept at the
/// point's height. The comparison is the exact rational one, done by
/// cross-multiplication oriented by the edge's y direction; it is only
/// meaningful when the edge is not horizontal.
pub open spec fn on_or_left_of_edge(p: Vec2, a: Vec2, b: Vec2) -> bool {
    if b.y as int > a.y as int {
        (p.x - a.x) * (b.y - a.y) <= (p.y - a.y) * (b.x - a.x)
    } else {
        (p.x - a.x) * (b.y - a.y) >= (p.y - a.y) * (b.x - a.x)
    }
}

/// The horizontal ray from the test point crosses the edge `a -> b`: the
/// point's y lies in the edge's y-span (strict at the lower end, inclusive
/// at the upper), the point is not to the right of the edge's x-extent, and
/// the edge is vertical or the point lies on or left of its x-intercept.
pub open spec fn edge_crossing(p: Vec2, a: Vec2, b: Vec2) -> bool {
    &&& p.y as int > min(a.y as int, b.y as int)
    &&& p.y as int <= max(a.y as int, b.y as int)
    &&& p.x as int <= max(a.x as int, b.x as int)
    &&& (a.x == b.x || on_or_left_of_edge(p, a, b))
}

/// Even-odd state after the first `k` edges of the closed point list: each
/// crossing toggles it.
pub open spec fn inside_upto(p: Vec2, poly: Seq<Vec2>, k: int) -> bool
    decreases k,
{
    if k <= 0 {
        false
    } else {
        inside_upto(p, poly, k - 1) != edge_crossing(p, poly[k - 1], poly[k])
    }
}

/// The even-odd test over all successive point pairs of the closed list.
pub open spec fn point_in_polygon_spec(p: Vec2, poly: Seq<Vec2>) -> bool {
    inside_upto(p, poly, poly.len() - 1)
}

/// Some vertex of `a` lies inside the polygon `b`.
pub open spec fn polygon_overlap_spec(a: Seq<Vec2>, b: Seq<Vec2>) -> bool {
    exists|i: int| 0 <= i < a.len() && point_in_polygon_spec(#[trigger] a[i], b)
}

/// One edge of the even-odd walk on execution integers.
fn edge_crossing_exec(p: &Vec2, a: &Vec2, b: &Vec2) -> (r: bool)
    requires
        vec2_in_range(*p),
        vec2_in_range(*a),
        vec2_in_range(*b),
    ensures
        r == edge_crossing(*p, *a, *b),
{
    let min_y = if a.y <= b.y { a.y } else { b.y };
    let max_y = if a.y <= b.y { b.y } else { a.y };
    let max_x = if a.x <= b.x { b.x } else { a.x };
    if p.y > min_y && p.y <= max_y && p.x <= max_x {
        if a.x == b.x {
            true
        } else {
            let dx: i128 = (p.x as i128) - (a.x as i128);
            let ey: i128 = (b.y as i128) - (a.y as i128);
            let dy: i128 = (p.y as i128) - (a.y as i128);
            let ex: i128 = (b.x as i128) - (a.x as i128);
            proof {
                assert(-16_000_000_000_000_000_000 <= dx * ey <= 16_000_000_000_000_000_000
                    && -16_000_000_000_000_000_000 <= dy * ex <= 16_000_000_000_000_000_000)
                    by (nonlinear_arith)
                    requires
                        -4_000_000_000 <= dx <= 4_000_000_000,
                        -4_000_000_000 <= ey <= 4_000_000_000,
                        -4_000_000_000 <= dy <= 4_000_000_000,
                        -4_000_000_000 <= ex <= 4_000_000_000,
                ;
            }
            let lhs: i128 = dx * ey;
            let rhs: i128 = dy * ex;
            if b.y > a.y {
                lhs <= rhs
            } else {
                lhs >= rhs
            }
        }
    } else {
        false
    }
}

/// Even-odd ray-casting test of one point against a closed polygon.
pub fn point_in_polygon(point: &Vec2, polygon: &Vec<Vec2>) -> (r: bool)
    requires
        polygon@.len() >= 2,
        vec2_in_range(*point),
        forall|i: int| 0 <= i < polygon@.len() ==> vec2_in_range(#[trigger] polygon@[i]),
    ensures
        r == point_in_polygon_spec(*point, polygon@),
{
    let mut inside = false;
    let n = polygon.len();
    let mut i: usize = 0;
    while i < n - 1
        invariant
            n == polygon@.len(),
            2 <= n,
            i <= n - 1,
            vec2_in_range(*point),
            forall|k: int| 0 <= k < polygon@.len() ==> vec2_in_range(#[trigger] polygon@[k]),
            inside == inside_upto(*point, polygon@, i as int),
        decreases n - 1 - i,
    {
        let crossing = edge_crossing_exec(point, &polygon[i], &polygon[i + 1]);
        inside = inside != crossing;
        i += 1;
    }
    inside
}

/// One-directional overlap test: true when some vertex of `polygon_a` lies
/// inside `polygon_b`.
pub fn is_colliding(polygon_a: &Vec<Vec2>, polygon_b: &Vec<Vec2>) -> (r: bool)
    requires
        polygon_b@.len() >= 2,
        forall|i: int| 0 <= i < polygon_a@.len() ==> vec2_in_range(#[trigger] polygon_a@[i]),
        forall|i: int| 0 <= i < polygon_b@.len() ==> vec2_in_range(#[trigger] polygon_b@[i]),
    ensures
        r == polygon_overlap_spec(polygon_a@, polygon_b@),
{
    let n = polygon_a.len();
    let mut i: usize = 0;
    while i < n
        invariant
            n == polygon_a@.len(),
            i <= n,
            polygon_b@.len() >= 2,
            forall|k: int| 0 <= k < polygon_a@.len() ==> vec2_in_range(#[trigger] polygon_a@[k]),
            forall|k: int| 0 <= k < polygon_b@.len() ==> vec2_in_range(#[trigger] polygon_b@[k]),
            forall|k: int| 0 <= k < i ==> !point_in_polygon_spec(#[trigger] polygon_a@[k], polygon_b@),
        decreases n - i,
    {
        if point_in_polygon(&polygon_a[i], polygon_b) {
            return true;
        }
        i += 1;
    }
    false
}

} // verus!
