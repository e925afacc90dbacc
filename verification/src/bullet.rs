//! Projectiles fired by the craft.
//!
//! A projectile is a short two-point line launched from the craft's
//! position along its heading at a fixed speed. It keeps no drag and flies
//! under the destroy policy: one that leaves the arena vanishes instead of
//! wrapping.

use vstd::prelude::*;
use crate::fixed::FP;
use crate::fixed::Vec2;
use crate::fixed::in_range;
use crate::fixed::mul_fp;
use crate::fixed::mul_fp_spec;
use crate::fixed::vec2_in_range;
use crate::angle::angle_ok;
use crate::angle::cos_fp;
use crate::angle::cos_spec;
use crate::angle::sin_fp;
use crate::angle::sin_spec;
use crate::body::Body;
use crate::body::ScreenEdgeBehavior;
use crate::body::body_wf;
use crate::shape::Color;
use crate::shape::Shape;
use crate::shape::shape_wf;

verus! {

/// One projectile: a kinematic body. Its line shape is fixed, rebuilt on
/// demand.
#[derive(Clone, Copy, PartialEq, Eq, Structural, Debug)]
pub struct Bullet {
    pub body: Body,
}

/// A body as `Bullet::new` builds it: at the launch point, moving along
/// the launch heading at the given speed, dragless, under the destroy
/// policy.
pub open spec fn fresh_bullet_body(start_point: Vec2, rotation: int, velocity: int) -> Body {
    Body {
        position: start_point,
        velocity: Vec2 {
            x: mul_fp_spec(velocity, cos_spec(rotation)) as i64,
            y: mul_fp_spec(velocity, sin_spec(rotation)) as i64,
        },
        acceleration: Vec2 { x: 0, y: 0 },
        rotation: rotation as i64,
        drag_coefficient: FP,
        screen_edge_behavior: ScreenEdgeBehavior::Destroy,
        destroyed: false,
    }
}

/// The fixed two-point line every projectile is drawn and collided with.
pub open spec fn bullet_outline_spec() -> Seq<Vec2> {
    seq![Vec2 { x: 0i64, y: 0i64 }, Vec2 { x: 5000i64, y: 0i64 }]
}

impl Bullet {
    /// A projectile launched from a point along a heading at a speed.
    pub fn new(start_point: Vec2, rotation: i64, velocity: i64) -> (r: Bullet)
        requires
            vec2_in_range(start_point),
            angle_ok(rotation as int),
            in_range(velocity as int),
        ensures
            r.body == fresh_bullet_body(start_point, rotation as int, velocity as int),
            body_wf(r.body),
    {
        proof {
            crate::angle::lemma_cos_bounds(rotation as int);
            crate::angle::lemma_sin_bounds(rotation as int);
        }
        Bullet {
            body: Body {
                position: start_point,
                velocity: Vec2 {
                    x: mul_fp(velocity, cos_fp(rotation)),
                    y: mul_fp(velocity, sin_fp(rotation)),
                },
                acceleration: Vec2 { x: 0, y: 0 },
                rotation,
                drag_coefficient: FP,
                screen_edge_behavior: ScreenEdgeBehavior::Destroy,
                destroyed: false,
            },
        }
    }

    /// The projectile's line shape.
    pub fn shape(&self) -> (r: Shape)
        ensures
            r.points@ == bullet_outline_spec(),
            shape_wf(r),
    {
        let points: Vec<Vec2> = vec![Vec2 { x: 0, y: 0 }, Vec2 { x: 5 * FP, y: 0 }];
        proof {
            assert(points@ =~= bullet_outline_spec());
        }
        Shape {
            points,
            color: Color { red: 29, green: 240, blue: 233, alpha: 255 },
            thickness: 4 * FP,
        }
    }
}

} // verus!
