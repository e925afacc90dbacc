//! The player's craft.
//!
//! The craft is a kinematic body under the wrap policy with a drag
//! coefficient just below one, so it coasts and slowly decelerates. Its
//! hull is an asymmetric triangle with a notch, derived from a width and a
//! height; two flame shapes behind the hull are drawn only while
//! thrusting, the extended one as a cosmetic flicker the renderer gates.

use vstd::prelude::*;
use crate::fixed::FP;
use crate::fixed::Vec2;
use crate::fixed::in_range;
use crate::fixed::mul_fp;
use crate::fixed::mul_fp_spec;
use crate::fixed::vec2_in_range;
use crate::body::Body;
use crate::body::ScreenEdgeBehavior;
use crate::body::body_wf;
use crate::body::thrust_spec;
use crate::shape::Color;
use crate::shape::Shape;
use crate::shape::shape_wf;

verus! {

/// Per-frame velocity factor of the craft, scaled by `FP`: just below one,
/// so the craft coasts.
pub const DRAG_COEFFICIENT: i64 = 990;

/// The player's craft: a body, the thrust flag the renderer reads, and the
/// hull dimensions its shapes are derived from.
#[derive(Clone, Copy, PartialEq, Eq, Structural, Debug)]
pub struct SpaceShip {
    pub body: Body,
    pub is_thrusting: bool,
    pub hull_width: i64,
    pub hull_height: i64,
}

/// A body as `SpaceShip::new` builds it: resting at the start point,
/// heading along angle zero, coasting under the wrap policy.
pub open spec fn fresh_ship_body(start_point: Vec2) -> Body {
    Body {
        position: start_point,
        velocity: Vec2 { x: 0, y: 0 },
        acceleration: Vec2 { x: 0, y: 0 },
        rotation: 0,
        drag_coefficient: DRAG_COEFFICIENT,
        screen_edge_behavior: ScreenEdgeBehavior::Wrap,
        destroyed: false,
    }
}

/// The hull outline: a triangle with a notched tail, closed.
pub open spec fn ship_hull_spec(w: int, h: int) -> Seq<Vec2> {
    seq![
        Vec2 { x: mul_fp_spec(h, 500) as i64, y: 0i64 },
        Vec2 { x: mul_fp_spec(w, -500) as i64, y: mul_fp_spec(h, 500) as i64 },
        Vec2 { x: mul_fp_spec(w, -250) as i64, y: 0i64 },
        Vec2 { x: mul_fp_spec(w, -500) as i64, y: mul_fp_spec(h, -500) as i64 },
        Vec2 { x: mul_fp_spec(h, 500) as i64, y: 0i64 },
    ]
}

/// The base flame triangle behind the hull.
pub open spec fn ship_flames_base_spec(w: int, h: int) -> Seq<Vec2> {
    seq![
        Vec2 { x: mul_fp_spec(w, -1200) as i64, y: mul_fp_spec(h, -500) as i64 },
        Vec2 { x: mul_fp_spec(w, -500) as i64, y: 0i64 },
        Vec2 { x: mul_fp_spec(w, -1200) as i64, y: mul_fp_spec(h, 500) as i64 },
    ]
}

/// The longer flame overlay drawn as flicker.
pub open spec fn ship_flames_extended_spec(w: int, h: int) -> Seq<Vec2> {
    seq![
        Vec2 { x: mul_fp_spec(w, -1500) as i64, y: mul_fp_spec(h, -250) as i64 },
        Vec2 { x: mul_fp_spec(w, -500) as i64, y: 0i64 },
        Vec2 { x: mul_fp_spec(w, -1500) as i64, y: mul_fp_spec(h, 250) as i64 },
    ]
}

impl SpaceShip {
    /// A fresh craft with the given hull dimensions, resting at the start
    /// point.
    pub fn new(width: i64, height: i64, start_point: Vec2) -> (r: SpaceShip)
        requires
            0 <= width,
            in_range(width as int),
            0 <= height,
            in_range(height as int),
            vec2_in_range(start_point),
        ensures
            r.body == fresh_ship_body(start_point),
            !r.is_thrusting,
            r.hull_width == width,
            r.hull_height == height,
            body_wf(r.body),
    {
        SpaceShip {
            body: Body {
                position: start_point,
                velocity: Vec2 { x: 0, y: 0 },
                acceleration: Vec2 { x: 0, y: 0 },
                rotation: 0,
                drag_coefficient: DRAG_COEFFICIENT,
                screen_edge_behavior: ScreenEdgeBehavior::Wrap,
                destroyed: false,
            },
            is_thrusting: false,
            hull_width: width,
            hull_height: height,
        }
    }

    /// Thrust along the craft's heading; the flag for the flame shapes
    /// follows whether any thrust was applied.
    pub fn apply_thrust(&mut self, thrust: i64)
        requires
            body_wf(old(self).body),
            !old(self).body.destroyed,
            in_range(thrust as int),
        ensures
            final(self).body == thrust_spec(old(self).body, thrust as int),
            final(self).is_thrusting == (thrust > 0),
            final(self).hull_width == old(self).hull_width,
            final(self).hull_height == old(self).hull_height,
            body_wf(final(self).body),
    {
        self.body.apply_thrust(thrust);
        self.is_thrusting = thrust > 0;
    }

    /// The hull shape collision and drawing use.
    pub fn ship_shape(&self) -> (r: Shape)
        requires
            0 <= self.hull_width,
            in_range(self.hull_width as int),
            0 <= self.hull_height,
            in_range(self.hull_height as int),
        ensures
            r.points@ == ship_hull_spec(self.hull_width as int, self.hull_height as int),
            shape_wf(r),
    {
        let w = self.hull_width;
        let h = self.hull_height;
        let points: Vec<Vec2> = vec![
            Vec2 { x: mul_fp(h, 500), y: 0 },
            Vec2 { x: mul_fp(w, -500), y: mul_fp(h, 500) },
            Vec2 { x: mul_fp(w, -250), y: 0 },
            Vec2 { x: mul_fp(w, -500), y: mul_fp(h, -500) },
            Vec2 { x: mul_fp(h, 500), y: 0 },
        ];
        proof {
            assert(points@ =~= ship_hull_spec(w as int, h as int));
        }
        Shape { points, color: Color { red: 255, green: 255, blue: 255, alpha: 255 }, thickness: 2
            * FP }
    }

    /// The base flame shape drawn while thrusting.
    pub fn flames_shape_base(&self) -> (r: Shape)
        requires
            0 <= self.hull_width,
            in_range(self.hull_width as int),
            0 <= self.hull_height,
            in_range(self.hull_height as int),
        ensures
            r.points@ == ship_flames_base_spec(self.hull_width as int, self.hull_height as int),
            shape_wf(r),
    {
        let w = self.hull_width;
        let h = self.hull_height;
        let points: Vec<Vec2> = vec![
            Vec2 { x: mul_fp(w, -1200), y: mul_fp(h, -500) },
            Vec2 { x: mul_fp(w, -500), y: 0 },
            Vec2 { x: mul_fp(w, -1200), y: mul_fp(h, 500) },
        ];
        proof {
            assert(points@ =~= ship_flames_base_spec(w as int, h as int));
        }
        Shape { points, color: Color { red: 255, green: 0, blue: 0, alpha: 255 }, thickness: 2
            * FP }
    }

    /// The extended flame overlay drawn as flicker while thrusting.
    pub fn flames_shape_extended(&self) -> (r: Shape)
        requires
            0 <= self.hull_width,
            in_range(self.hull_width as int),
            0 <= self.hull_height,
            in_range(self.hull_height as int),
        ensures
            r.points@ == ship_flames_extended_spec(
                self.hull_width as int,
                self.hull_height as int,
            ),
            shape_wf(r),
    {
        let w = self.hull_width;
        let h = self.hull_height;
        let points: Vec<Vec2> = vec![
            Vec2 { x: mul_fp(w, -1500), y: mul_fp(h, -250) },
            Vec2 { x: mul_fp(w, -500), y: 0 },
            Vec2 { x: mul_fp(w, -1500), y: mul_fp(h, 250) },
        ];
        proof {
            assert(points@ =~= ship_flames_extended_spec(w as int, h as int));
        }
        Shape { points, color: Color { red: 255, green: 255, blue: 0, alpha: 255 }, thickness: 2
            * FP }
    }
}

} // verus!
