//! Drifting obstacles, tiered by size.
//!
//! The tier selects a scale and a speed from a fixed table: smaller
//! obstacles move faster and score more. Every obstacle carries the same
//! hand-authored 13-point concave outline, scaled by its tier, and drifts
//! with constant velocity along its spawn heading under the wrap policy.
//! Splitting a Large obstacle yields three Medium ones at the parent's
//! position with fresh random headings, a Medium three Small, a Small
//! nothing.

use vstd::prelude::*;
use crate::fixed::FP;
use crate::fixed::Vec2;
use crate::fixed::mul_fp;
use crate::fixed::mul_fp_spec;
use crate::fixed::vec2_in_range;
use crate::angle::TURN;
use crate::angle::angle_ok;
use crate::angle::cos_fp;
use crate::angle::cos_spec;
use crate::angle::sin_fp;
use crate::angle::sin_spec;
use crate::body::Body;
use crate::body::ScreenEdgeBehavior;
use crate::body::body_wf;
use crate::body::bound_ok;
use crate::shape::Color;
use crate::shape::Shape;
use crate::shape::shape_wf;
use crate::rng::random_below;

verus! {

/// The size tier of an obstacle.
#[derive(Clone, Copy, PartialEq, Eq, Structural, Debug)]
pub enum AsteroidSizes {
    Small,
    Medium,
    Large,
}

/// Outline scale factor per tier, in fixed-point units.
pub open spec fn asteroid_scale_spec(size: AsteroidSizes) -> int {
    match size {
        AsteroidSizes::Small => 5 * FP as int,
        AsteroidSizes::Medium => 10 * FP as int,
        AsteroidSizes::Large => 20 * FP as int,
    }
}

/// Drift speed per tier, in fixed-point units per second: smaller tiers
/// move faster.
pub open spec fn asteroid_speed_spec(size: AsteroidSizes) -> int {
    match size {
        AsteroidSizes::Small => 100 * FP as int,
        AsteroidSizes::Medium => 75 * FP as int,
        AsteroidSizes::Large => 50 * FP as int,
    }
}

/// Score value per tier: smaller tiers are worth more.
pub open spec fn asteroid_score_spec(size: AsteroidSizes) -> int {
    match size {
        AsteroidSizes::Small => 100,
        AsteroidSizes::Medium => 50,
        AsteroidSizes::Large => 20,
    }
}

/// The tier a split obstacle's children take, if it splits at all.
pub open spec fn split_size_spec(size: AsteroidSizes) -> Option<AsteroidSizes> {
    match size {
        AsteroidSizes::Large => Some(AsteroidSizes::Medium),
        AsteroidSizes::Medium => Some(AsteroidSizes::Small),
        AsteroidSizes::Small => None,
    }
}

/// Outline scale factor per tier.
pub fn get_asteroid_scale(size: &AsteroidSizes) -> (r: i64)
    ensures
        r == asteroid_scale_spec(*size),
        0 < r <= 20 * FP,
{
    match size {
        AsteroidSizes::Small => 5 * FP,
        AsteroidSizes::Medium => 10 * FP,
        AsteroidSizes::Large => 20 * FP,
    }
}

/// Drift speed per tier.
pub fn get_asteroid_velocity(size: &AsteroidSizes) -> (r: i64)
    ensures
        r == asteroid_speed_spec(*size),
        0 < r <= 100 * FP,
{
    match size {
        AsteroidSizes::Small => 100 * FP,
        AsteroidSizes::Medium => 75 * FP,
        AsteroidSizes::Large => 50 * FP,
    }
}

/// Score value per tier.
pub fn get_asteroid_score(size: &AsteroidSizes) -> (r: u32)
    ensures
        r == asteroid_score_spec(*size),
{
    match size {
        AsteroidSizes::Small => 100,
        AsteroidSizes::Medium => 50,
        AsteroidSizes::Large => 20,
    }
}

/// The hand-authored concave outline at unit scale, closed (the first
/// point repeats as the last).
pub open spec fn asteroid_base_outline() -> Seq<Vec2> {
    seq![
        Vec2 { x: -3000i64, y: -2000i64 },
        Vec2 { x: -1260i64, y: -2760i64 },
        Vec2 { x: -280i64, y: -1880i64 },
        Vec2 { x: 2280i64, y: -2480i64 },
        Vec2 { x: 3660i64, y: 0i64 },
        Vec2 { x: 440i64, y: 1240i64 },
        Vec2 { x: 1780i64, y: 1560i64 },
        Vec2 { x: 580i64, y: 2900i64 },
        Vec2 { x: -1180i64, y: 2220i64 },
        Vec2 { x: -2260i64, y: 3040i64 },
        Vec2 { x: -3540i64, y: 1660i64 },
        Vec2 { x: -2680i64, y: 340i64 },
        Vec2 { x: -3000i64, y: -2000i64 },
    ]
}

/// The outline with every coordinate scaled by the tier's factor.
pub open spec fn asteroid_outline_spec(scale: int) -> Seq<Vec2> {
    asteroid_base_outline().map(
        |i: int, p: Vec2|
            Vec2 { x: mul_fp_spec(p.x as int, scale) as i64, y: mul_fp_spec(p.y as int, scale) as i64 },
    )
}

/// The closed outline polygon at a given scale.
fn build_outline(scale: i64) -> (r: Vec<Vec2>)
    requires
        0 < scale <= 20 * FP,
    ensures
        r@ == asteroid_outline_spec(scale as int),
        r@.len() == 13,
        forall|i: int| 0 <= i < r@.len() ==> vec2_in_range(#[trigger] r@[i]),
{
    let base: Vec<Vec2> = vec![
        Vec2 { x: -3000, y: -2000 },
        Vec2 { x: -1260, y: -2760 },
        Vec2 { x: -280, y: -1880 },
        Vec2 { x: 2280, y: -2480 },
        Vec2 { x: 3660, y: 0 },
        Vec2 { x: 440, y: 1240 },
        Vec2 { x: 1780, y: 1560 },
        Vec2 { x: 580, y: 2900 },
        Vec2 { x: -1180, y: 2220 },
        Vec2 { x: -2260, y: 3040 },
        Vec2 { x: -3540, y: 1660 },
        Vec2 { x: -2680, y: 340 },
        Vec2 { x: -3000, y: -2000 },
    ];
    proof {
        assert(base@ =~= asteroid_base_outline());
    }
    let mut out: Vec<Vec2> = Vec::new();
    let mut i: usize = 0;
    while i < base.len()
        invariant
            base@ == asteroid_base_outline(),
            i <= base@.len(),
            0 < scale <= 20 * FP,
            out@.len() == i,
            forall|k: int|
                0 <= k < i ==> #[trigger] out@[k] == (Vec2 {
                    x: mul_fp_spec(base@[k].x as int, scale as int) as i64,
                    y: mul_fp_spec(base@[k].y as int, scale as int) as i64,
                }),
            forall|k: int| 0 <= k < i ==> vec2_in_range(#[trigger] out@[k]),
        decreases base@.len() - i,
    {
        let p = base[i];
        out.push(Vec2 { x: mul_fp(p.x, scale), y: mul_fp(p.y, scale) });
        i += 1;
    }
    proof {
        assert(out@ =~= asteroid_outline_spec(scale as int));
    }
    out
}

/// One drifting obstacle: a kinematic body and a size tier. Its outline
/// shape is a function of the tier, rebuilt on demand.
#[derive(Clone, Copy, PartialEq, Eq, Structural, Debug)]
pub struct Asteroid {
    pub body: Body,
    pub size: AsteroidSizes,
}

/// A body as `Asteroid::new` builds it: at the start point, heading along
/// its spawn rotation at the tier's speed, drifting without drag under the
/// wrap policy.
pub open spec fn fresh_asteroid_body(start_point: Vec2, rotation: int, size: AsteroidSizes) -> Body {
    Body {
        position: start_point,
        velocity: Vec2 {
            x: mul_fp_spec(asteroid_speed_spec(size), cos_spec(rotation)) as i64,
            y: mul_fp_spec(asteroid_speed_spec(size), sin_spec(rotation)) as i64,
        },
        acceleration: Vec2 { x: 0, y: 0 },
        rotation: rotation as i64,
        drag_coefficient: FP,
        screen_edge_behavior: ScreenEdgeBehavior::Wrap,
        destroyed: false,
    }
}

impl Asteroid {
    /// A fresh obstacle at a start point with a spawn heading and a tier.
    pub fn new(start_point: Vec2, rotation: i64, size: &AsteroidSizes) -> (r: Asteroid)
        requires
            vec2_in_range(start_point),
            angle_ok(rotation as int),
        ensures
            r.body == fresh_asteroid_body(start_point, rotation as int, *size),
            r.size == *size,
            body_wf(r.body),
    {
        proof {
            crate::angle::lemma_cos_bounds(rotation as int);
            crate::angle::lemma_sin_bounds(rotation as int);
        }
        let speed = get_asteroid_velocity(size);
        let body = Body {
            position: start_point,
            velocity: Vec2 {
                x: mul_fp(speed, cos_fp(rotation)),
                y: mul_fp(speed, sin_fp(rotation)),
            },
            acceleration: Vec2 { x: 0, y: 0 },
            rotation,
            drag_coefficient: FP,
            screen_edge_behavior: ScreenEdgeBehavior::Wrap,
            destroyed: false,
        };
        Asteroid { body, size: *size }
    }

    /// The obstacle's outline shape at its tier's scale.
    pub fn shape(&self) -> (r: Shape)
        ensures
            r.points@ == asteroid_outline_spec(asteroid_scale_spec(self.size)),
            shape_wf(r),
    {
        let scale = get_asteroid_scale(&self.size);
        Shape {
            points: build_outline(scale),
            color: Color { red: 255, green: 255, blue: 255, alpha: 255 },
            thickness: 2 * FP,
        }
    }
}

/// An obstacle as the wave spawner leaves it: a fresh Large obstacle
/// somewhere inside the arena, with a normalized heading.
pub open spec fn spawned_asteroid_ok(a: Asteroid, w: int, h: int) -> bool {
    &&& a.size == AsteroidSizes::Large
    &&& a.body == fresh_asteroid_body(a.body.position, a.body.rotation as int, AsteroidSizes::Large)
    &&& 0 <= a.body.position.x <= w
    &&& 0 <= a.body.position.y <= h
    &&& angle_ok(a.body.rotation as int)
    &&& body_wf(a.body)
}

/// Spawn one Large obstacle per level unit, each at an independently
/// random position inside the arena with an independently random heading.
pub fn create_asteroids(level: u32, width: i64, height: i64) -> (r: Vec<Asteroid>)
    requires
        bound_ok(width as int),
        bound_ok(height as int),
    ensures
        r@.len() == level,
        forall|i: int|
            0 <= i < r@.len() ==> spawned_asteroid_ok(#[trigger] r@[i], width as int, height as int),
{
    let mut asteroids: Vec<Asteroid> = Vec::new();
    let mut k: u32 = 0;
    while k < level
        invariant
            k <= level,
            bound_ok(width as int),
            bound_ok(height as int),
            asteroids@.len() == k,
            forall|i: int|
                0 <= i < asteroids@.len() ==> spawned_asteroid_ok(
                    #[trigger] asteroids@[i],
                    width as int,
                    height as int,
                ),
        decreases level - k,
    {
        let x = random_below((width as u64) + 1) as i64;
        let y = random_below((height as u64) + 1) as i64;
        let rotation = random_below(TURN as u64) as i64;
        let start_point = Vec2 { x, y };
        asteroids.push(Asteroid::new(start_point, rotation, &AsteroidSizes::Large));
        k += 1;
    }
    asteroids
}

/// A child obstacle as `split_asteroid` leaves it: a fresh obstacle of the
/// given tier at the parent's position, with a normalized heading.
pub open spec fn split_child_ok(c: Asteroid, position: Vec2, size: AsteroidSizes) -> bool {
    &&& c.size == size
    &&& c.body == fresh_asteroid_body(position, c.body.rotation as int, size)
    &&& angle_ok(c.body.rotation as int)
    &&& body_wf(c.body)
}

/// Split an obstacle: a Large one leaves three Medium children, a Medium
/// three Small, a Small none. Every child sits at the parent's current
/// position with an independently random heading.
pub fn split_asteroid(asteroid: &Asteroid) -> (r: Vec<Asteroid>)
    requires
        vec2_in_range(asteroid.body.position),
    ensures
        match split_size_spec(asteroid.size) {
            Some(next) => {
                &&& r@.len() == 3
                &&& forall|i: int|
                    0 <= i < r@.len() ==> split_child_ok(
                        #[trigger] r@[i],
                        asteroid.body.position,
                        next,
                    )
            },
            None => r@.len() == 0,
        },
{
    let start_point = asteroid.body.position;
    let next_size = match asteroid.size {
        AsteroidSizes::Large => AsteroidSizes::Medium,
        AsteroidSizes::Medium => AsteroidSizes::Small,
        AsteroidSizes::Small => {
            return Vec::new();
        },
    };
    let mut new_asteroids: Vec<Asteroid> = Vec::new();
    let mut k: usize = 0;
    while k < 3
        invariant
            k <= 3,
            vec2_in_range(start_point),
            split_size_spec(asteroid.size) == Some(next_size),
            new_asteroids@.len() == k,
            forall|i: int|
                0 <= i < new_asteroids@.len() ==> split_child_ok(
                    #[trigger] new_asteroids@[i],
                    start_point,
                    next_size,
                ),
        decreases 3 - k,
    {
        let rotation = random_below(TURN as u64) as i64;
        new_asteroids.push(Asteroid::new(start_point, rotation, &next_size));
        k += 1;
    }
    new_asteroids
}

} // verus!
