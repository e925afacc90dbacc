//! Polygons and polylines in the local frame of an entity.
//!
//! A shape is an ordered point list with a color and a line thickness,
//! immutable once built. `transform` places it in the world: every local
//! point is translated by the world center and then rotated about that
//! center, in that order; reversing the order would change the geometry.
//! The same transformed list serves drawing (consecutive point pairs as
//! segments) and collision (the closed sequence as a polygon boundary).

use vstd::prelude::*;
use crate::fixed::Vec2;
use crate::fixed::add_sat;
use crate::fixed::add_sat_spec;
use crate::fixed::in_range;
use crate::fixed::mul_fp;
use crate::fixed::mul_fp_spec;
use crate::fixed::sub_sat;
use crate::fixed::sub_sat_spec;
use crate::fixed::vec2_in_range;
use crate::angle::angle_ok;
use crate::angle::cos_fp;
use crate::angle::cos_spec;
use crate::angle::sin_fp;
use crate::angle::sin_spec;

verus! {

/// An RGBA color for the renderer; the simulation never reads it.
#[derive(Clone, Copy, PartialEq, Eq, Structural, Debug)]
pub struct Color {
    pub red: u8,
    pub green: u8,
    pub blue: u8,
    pub alpha: u8,
}

/// A point list in the local frame, with drawing attributes. A closed
/// polygon repeats its first point as its last.
pub struct Shape {
    pub points: Vec<Vec2>,
    pub color: Color,
    pub thickness: i64,
}

/// The shape has at least two points and every coordinate is in range.
pub open spec fn shape_wf(s: Shape) -> bool {
    &&& s.points@.len() >= 2
    &&& forall|i: int| 0 <= i < s.points@.len() ==> vec2_in_range(#[trigger] s.points@[i])
    &&& in_range(s.thickness as int)
}

/// Rotation of `end` about `base` by a normalized angle, on saturating
/// fixed-point scalars: the offset `(dx, dy)` turns into
/// `(dx cos - dy sin, dx sin + dy cos)`.
pub open spec fn rotate_point_spec(base: Vec2, end: Vec2, rotation: int) -> Vec2 {
    let dx = sub_sat_spec(end.x as int, base.x as int);
    let dy = sub_sat_spec(end.y as int, base.y as int);
    let c = cos_spec(rotation);
    let s = sin_spec(rotation);
    Vec2 {
        x: add_sat_spec(base.x as int, sub_sat_spec(mul_fp_spec(dx, c), mul_fp_spec(dy, s))) as i64,
        y: add_sat_spec(base.y as int, add_sat_spec(mul_fp_spec(dx, s), mul_fp_spec(dy, c))) as i64,
    }
}

/// One local point placed in the world: translated by `center`, then
/// rotated about `center`.
pub open spec fn transform_point_spec(p: Vec2, center: Vec2, rotation: int) -> Vec2 {
    let translated = Vec2 {
        x: add_sat_spec(p.x as int, center.x as int) as i64,
        y: add_sat_spec(p.y as int, center.y as int) as i64,
    };
    rotate_point_spec(center, translated, rotation)
}

/// A whole point list placed in the world.
pub open spec fn transform_points_spec(points: Seq<Vec2>, center: Vec2, rotation: int) -> Seq<
    Vec2,
> {
    points.map(|i: int, p: Vec2| transform_point_spec(p, center, rotation))
}

/// Rotation of `end` about `base` on execution scalars.
pub fn rotate_point(base: Vec2, end: Vec2, rotation: i64) -> (r: Vec2)
    requires
        vec2_in_range(base),
        vec2_in_range(end),
        angle_ok(rotation as int),
    ensures
        r == rotate_point_spec(base, end, rotation as int),
        vec2_in_range(r),
{
    proof {
        crate::angle::lemma_cos_bounds(rotation as int);
        crate::angle::lemma_sin_bounds(rotation as int);
    }
    let dx = sub_sat(end.x, base.x);
    let dy = sub_sat(end.y, base.y);
    let c = cos_fp(rotation);
    let s = sin_fp(rotation);
    let x = add_sat(base.x, sub_sat(mul_fp(dx, c), mul_fp(dy, s)));
    let y = add_sat(base.y, add_sat(mul_fp(dx, s), mul_fp(dy, c)));
    Vec2 { x, y }
}

impl Shape {
    /// The shape's points in the world: each one translated by `center`,
    /// then rotated about `center` by `rotation`.
    pub fn transform(&self, center: Vec2, rotation: i64) -> (r: Vec<Vec2>)
        requires
            shape_wf(*self),
            vec2_in_range(center),
            angle_ok(rotation as int),
        ensures
            r@ == transform_points_spec(self.points@, center, rotation as int),
            r@.len() == self.points@.len(),
            forall|i: int| 0 <= i < r@.len() ==> vec2_in_range(#[trigger] r@[i]),
    {
        let mut out: Vec<Vec2> = Vec::new();
        let n = self.points.len();
        let mut i: usize = 0;
        while i < n
            invariant
                n == self.points@.len(),
                i <= n,
                shape_wf(*self),
                vec2_in_range(center),
                angle_ok(rotation as int),
                out@.len() == i,
                forall|k: int|
                    0 <= k < i ==> #[trigger] out@[k] == transform_point_spec(
                        self.points@[k],
                        center,
                        rotation as int,
                    ),
                forall|k: int| 0 <= k < i ==> vec2_in_range(#[trigger] out@[k]),
            decreases n - i,
        {
            let p = self.points[i];
            let translated = Vec2 { x: add_sat(p.x, center.x), y: add_sat(p.y, center.y) };
            let world = rotate_point(center, translated, rotation);
            out.push(world);
            i += 1;
        }
        proof {
            assert(out@ =~= transform_points_spec(self.points@, center, rotation as int));
        }
        out
    }

    /// Overlap of two placed shapes: true when some vertex of the other
    /// shape, placed at its center and rotation, lies inside this shape,
    /// placed at its own. The sampling is one-directional, from the other
    /// shape's vertices into this shape's polygon.
    pub fn collides_with(
        &self,
        center: Vec2,
        rotation: i64,
        other: &Shape,
        other_center: Vec2,
        other_rotation: i64,
    ) -> (r: bool)
        requires
            shape_wf(*self),
            shape_wf(*other),
            vec2_in_range(center),
            vec2_in_range(other_center),
            angle_ok(rotation as int),
            angle_ok(other_rotation as int),
        ensures
            r == shapes_collide_spec(
                self.points@,
                center,
                rotation as int,
                other.points@,
                other_center,
                other_rotation as int,
            ),
    {
        let own_points = self.transform(center, rotation);
        let other_points = other.transform(other_center, other_rotation);
        crate::collision::is_colliding(&other_points, &own_points)
    }
}

/// Some world-space vertex of the second shape lies inside the first.
pub open spec fn shapes_collide_spec(
    own: Seq<Vec2>,
    center: Vec2,
    rotation: int,
    other: Seq<Vec2>,
    other_center: Vec2,
    other_rotation: int,
) -> bool {
    crate::collision::polygon_overlap_spec(
        transform_points_spec(other, other_center, other_rotation),
        transform_points_spec(own, center, rotation),
    )
}

} // verus!
