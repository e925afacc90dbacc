//! The kinematic state of an entity and its per-frame integration.
//!
//! `update` advances velocity by the accelerations, advances the position by
//! the new velocity, clears the acceleration, damps the velocity by the drag
//! coefficient once per frame (a frame-rate-sensitive multiplicative decay,
//! kept deliberately: damping is per call, not per elapsed second), and then
//! applies the body's edge policy against the arena bounds.

use vstd::prelude::*;
use crate::fixed::FP;
use crate::fixed::Vec2;
use crate::fixed::add_sat;
use crate::fixed::add_sat_spec;
use crate::fixed::in_range;
use crate::fixed::mul_fp;
use crate::fixed::mul_fp_spec;
use crate::fixed::vec2_in_range;
use crate::angle::TURN;
use crate::angle::angle_ok;
use crate::angle::cos_fp;
use crate::angle::cos_spec;
use crate::angle::rotate_angle;
use crate::angle::rotate_spec;
use crate::angle::sin_fp;
use crate::angle::sin_spec;
use crate::angle::MAX_ROTATION_DELTA;

verus! {

/// Largest frame time `update` accepts: the elapsed time enters the
/// fixed-point products, so the one cap is the scalar range itself.
pub const MAX_FRAME_TIME: i64 = crate::fixed::SCALAR_LIMIT;

/// What happens to a body whose position leaves the arena.
#[derive(Clone, Copy, PartialEq, Eq, Structural, Debug)]
pub enum ScreenEdgeBehavior {
    /// A coordinate past the upper bound teleports to 0; one below 0
    /// teleports to the upper bound.
    Wrap,
    /// The coordinate is clamped to the bound and the matching velocity
    /// component changes sign.
    Bounce,
    /// The body is flagged destroyed and left where it is.
    Destroy,
}

/// Position, velocity, acceleration and heading of one entity, with its
/// drag coefficient and edge policy. `destroyed` is a one-way latch: the
/// mutating operations require it clear, so a destroyed body is never
/// moved again before the owning entity is swept away.
#[derive(Clone, Copy, PartialEq, Eq, Structural, Debug)]
pub struct Body {
    pub position: Vec2,
    pub velocity: Vec2,
    pub acceleration: Vec2,
    /// Heading in angle steps, normalized into `[0, TURN)`.
    pub rotation: i64,
    /// Per-frame velocity factor, scaled by `FP`: `FP` keeps the velocity,
    /// smaller values damp it.
    pub drag_coefficient: i64,
    pub screen_edge_behavior: ScreenEdgeBehavior,
    pub destroyed: bool,
}

/// The body's fields are in their ranges.
pub open spec fn body_wf(b: Body) -> bool {
    &&& vec2_in_range(b.position)
    &&& vec2_in_range(b.velocity)
    &&& vec2_in_range(b.acceleration)
    &&& angle_ok(b.rotation as int)
    &&& 0 <= b.drag_coefficient <= FP
}

/// An arena bound `update` accepts.
pub open spec fn bound_ok(w: int) -> bool {
    0 < w <= crate::fixed::SCALAR_LIMIT as int
}

/// Thrust along the heading: the acceleration gains
/// `magnitude * (cos rotation, sin rotation)`.
pub open spec fn thrust_spec(b: Body, magnitude: int) -> Body {
    Body {
        acceleration: Vec2 {
            x: add_sat_spec(
                b.acceleration.x as int,
                mul_fp_spec(magnitude, cos_spec(b.rotation as int)),
            ) as i64,
            y: add_sat_spec(
                b.acceleration.y as int,
                mul_fp_spec(magnitude, sin_spec(b.rotation as int)),
            ) as i64,
        },
        ..b
    }
}

/// The drag step: the acceleration is cleared and the drag coefficient
/// damps the velocity once.
pub open spec fn drag_spec(b: Body) -> Body {
    Body {
        velocity: Vec2 {
            x: mul_fp_spec(b.drag_coefficient as int, b.velocity.x as int) as i64,
            y: mul_fp_spec(b.drag_coefficient as int, b.velocity.y as int) as i64,
        },
        acceleration: Vec2 { x: 0, y: 0 },
        ..b
    }
}

/// The body after integration, before the edge policy: velocity gains
/// `acceleration * dt`, position gains the new velocity times `dt`, then
/// the drag step runs.
pub open spec fn integrate_spec(b: Body, dt: int) -> Body {
    let vx = add_sat_spec(b.velocity.x as int, mul_fp_spec(b.acceleration.x as int, dt));
    let vy = add_sat_spec(b.velocity.y as int, mul_fp_spec(b.acceleration.y as int, dt));
    let px = add_sat_spec(b.position.x as int, mul_fp_spec(vx, dt));
    let py = add_sat_spec(b.position.y as int, mul_fp_spec(vy, dt));
    drag_spec(
        Body {
            position: Vec2 { x: px as i64, y: py as i64 },
            velocity: Vec2 { x: vx as i64, y: vy as i64 },
            ..b
        },
    )
}

/// One coordinate under the wrap policy.
pub open spec fn wrap_coord_spec(p: int, bound: int) -> int {
    if p > bound {
        0
    } else if p < 0 {
        bound
    } else {
        p
    }
}

/// The wrap policy: an out-of-bounds coordinate teleports to the opposite
/// edge.
pub open spec fn wrap_spec(b: Body, w: int, h: int) -> Body {
    Body {
        position: Vec2 {
            x: wrap_coord_spec(b.position.x as int, w) as i64,
            y: wrap_coord_spec(b.position.y as int, h) as i64,
        },
        ..b
    }
}

/// One coordinate under the bounce policy: the clamped coordinate and
/// whether the velocity component flips.
pub open spec fn bounce_coord_spec(p: int, bound: int) -> int {
    if p > bound {
        bound
    } else if p < 0 {
        0
    } else {
        p
    }
}

/// The bounce policy: an out-of-bounds coordinate is clamped to the bound
/// it crossed and the matching velocity component changes sign.
pub open spec fn bounce_spec(b: Body, w: int, h: int) -> Body {
    let out_x = b.position.x as int > w || (b.position.x as int) < 0;
    let out_y = b.position.y as int > h || (b.position.y as int) < 0;
    Body {
        position: Vec2 {
            x: bounce_coord_spec(b.position.x as int, w) as i64,
            y: bounce_coord_spec(b.position.y as int, h) as i64,
        },
        velocity: Vec2 {
            x: if out_x { (-b.velocity.x) as i64 } else { b.velocity.x },
            y: if out_y { (-b.velocity.y) as i64 } else { b.velocity.y },
        },
        ..b
    }
}

/// Whether a position lies outside the arena `[0, w] x [0, h]`.
pub open spec fn outside_arena(p: Vec2, w: int, h: int) -> bool {
    p.x as int > w || (p.x as int) < 0 || p.y as int > h || (p.y as int) < 0
}

/// The destroy policy: a body outside the arena is flagged destroyed and
/// not clamped.
pub open spec fn destroy_spec(b: Body, w: int, h: int) -> Body {
    if outside_arena(b.position, w, h) {
        Body { destroyed: true, ..b }
    } else {
        b
    }
}

/// A whole `update` call: integration, then the body's edge policy.
pub open spec fn update_spec(b: Body, dt: int, w: int, h: int) -> Body {
    let i = integrate_spec(b, dt);
    match b.screen_edge_behavior {
        ScreenEdgeBehavior::Wrap => wrap_spec(i, w, h),
        ScreenEdgeBehavior::Bounce => bounce_spec(i, w, h),
        ScreenEdgeBehavior::Destroy => destroy_spec(i, w, h),
    }
}

impl Body {
    /// Add thrust along the current heading to the acceleration.
    pub fn apply_thrust(&mut self, magnitude: i64)
        requires
            body_wf(*old(self)),
            !old(self).destroyed,
            in_range(magnitude as int),
        ensures
            *final(self) == thrust_spec(*old(self), magnitude as int),
            body_wf(*final(self)),
    {
        proof {
            crate::angle::lemma_cos_bounds(self.rotation as int);
            crate::angle::lemma_sin_bounds(self.rotation as int);
        }
        let c = cos_fp(self.rotation);
        let s = sin_fp(self.rotation);
        self.acceleration.x = add_sat(self.acceleration.x, mul_fp(magnitude, c));
        self.acceleration.y = add_sat(self.acceleration.y, mul_fp(magnitude, s));
    }

    /// Add a delta to the heading and wrap it into `[0, TURN)`.
    pub fn rotate(&mut self, rotation: i64)
        requires
            body_wf(*old(self)),
            !old(self).destroyed,
            -MAX_ROTATION_DELTA <= rotation <= MAX_ROTATION_DELTA,
        ensures
            *final(self) == (Body {
                rotation: rotate_spec(old(self).rotation as int, rotation as int) as i64,
                ..*old(self)
            }),
            body_wf(*final(self)),
    {
        self.rotation = rotate_angle(self.rotation, rotation);
    }

    /// The drag step: clear the acceleration and damp the velocity once
    /// by the drag coefficient.
    pub fn drag(&mut self)
        requires
            body_wf(*old(self)),
            !old(self).destroyed,
        ensures
            *final(self) == drag_spec(*old(self)),
            body_wf(*final(self)),
    {
        self.velocity.x = mul_fp(self.drag_coefficient, self.velocity.x);
        self.velocity.y = mul_fp(self.drag_coefficient, self.velocity.y);
        self.acceleration.x = 0;
        self.acceleration.y = 0;
    }

    /// Integrate the body by `dt` and apply its edge policy against an
    /// arena of width `w` and height `h`.
    pub fn update(&mut self, dt: i64, w: i64, h: i64)
        requires
            body_wf(*old(self)),
            !old(self).destroyed,
            0 <= dt <= MAX_FRAME_TIME,
            bound_ok(w as int),
            bound_ok(h as int),
        ensures
            *final(self) == update_spec(*old(self), dt as int, w as int, h as int),
            body_wf(*final(self)),
    {
        let vx = add_sat(self.velocity.x, mul_fp(self.acceleration.x, dt));
        let vy = add_sat(self.velocity.y, mul_fp(self.acceleration.y, dt));
        self.position.x = add_sat(self.position.x, mul_fp(vx, dt));
        self.position.y = add_sat(self.position.y, mul_fp(vy, dt));
        self.velocity.x = vx;
        self.velocity.y = vy;
        self.drag();
        match self.screen_edge_behavior {
            ScreenEdgeBehavior::Wrap => {
                if self.position.x > w {
                    self.position.x = 0;
                } else if self.position.x < 0 {
                    self.position.x = w;
                }
                if self.position.y > h {
                    self.position.y = 0;
                } else if self.position.y < 0 {
                    self.position.y = h;
                }
            },
            ScreenEdgeBehavior::Bounce => {
                if self.position.x > w {
                    self.position.x = w;
                    self.velocity.x = -self.velocity.x;
                } else if self.position.x < 0 {
                    self.position.x = 0;
                    self.velocity.x = -self.velocity.x;
                }
                if self.position.y > h {
                    self.position.y = h;
                    self.velocity.y = -self.velocity.y;
                } else if self.position.y < 0 {
                    self.position.y = 0;
                    self.velocity.y = -self.velocity.y;
                }
            },
            ScreenEdgeBehavior::Destroy => {
                if self.position.x > w || self.position.x < 0 || self.position.y > h
                    || self.position.y < 0 {
                    self.destroyed = true;
                }
            },
        }
    }
}

} // verus!
