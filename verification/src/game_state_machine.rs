//! The per-frame update and the phase transitions.
//!
//! Within the `Playing` phase a frame runs in a fixed order: the fire
//! intent launches a projectile from the craft's current position and
//! heading, the steering and thrust intents act on the craft, every body
//! integrates by the elapsed time, the collision sweep marks hits and
//! stages split children in a pending buffer, and only after the sweep are
//! the children appended and the destroyed entities filtered out. The
//! sweep tests every obstacle against every projectile in collection
//! order, and every obstacle against the craft, on the positions frozen by
//! the integration step: a projectile already consumed by one obstacle is
//! still tested against the later ones in the same frame, and each such
//! hit scores and splits again, exactly as the collection-order sweep has
//! it.

use vstd::prelude::*;
use crate::fixed::SCALAR_LIMIT;
use crate::fixed::Vec2;
use crate::angle::rotate_spec;
use crate::body::Body;
use crate::body::MAX_FRAME_TIME;
use crate::body::body_wf;
use crate::body::thrust_spec;
use crate::body::update_spec;
use crate::bullet::Bullet;
use crate::bullet::bullet_outline_spec;
use crate::bullet::fresh_bullet_body;
use crate::asteroid::Asteroid;
use crate::asteroid::AsteroidSizes;
use crate::asteroid::asteroid_outline_spec;
use crate::asteroid::asteroid_scale_spec;
use crate::asteroid::asteroid_score_spec;
use crate::asteroid::split_asteroid;
use crate::asteroid::split_child_ok;
use crate::asteroid::split_size_spec;
use crate::asteroid::create_asteroids;
use crate::space_ship::SpaceShip;
use crate::space_ship::ship_hull_spec;
use crate::shape::transform_points_spec;
use crate::collision::polygon_overlap_spec;
use crate::game_states::GameConfig;
use crate::game_states::GameState;
use crate::game_states::InputIntents;
use crate::game_states::PlayingInfo;
use crate::game_states::config_wf;
use crate::game_states::playing_wf;

verus! {

// ---------------------------------------------------------------- inputs

/// The heading change the steering intents ask for this frame.
pub open spec fn rotation_delta_spec(inputs: InputIntents, config: GameConfig) -> int {
    (if inputs.rotate_left {
        config.rotational_step as int
    } else {
        0
    }) - (if inputs.rotate_right {
        config.rotational_step as int
    } else {
        0
    })
}

/// The thrust magnitude the thrust intent asks for this frame.
pub open spec fn thrust_magnitude_spec(inputs: InputIntents, config: GameConfig) -> int {
    if inputs.thrust {
        config.linear_acceleration as int
    } else {
        0
    }
}

// ------------------------------------------------------- frame integration

/// The craft after one frame: steered, thrust applied, integrated.
pub open spec fn ship_after_frame(
    ship: SpaceShip,
    dt: int,
    inputs: InputIntents,
    config: GameConfig,
) -> SpaceShip {
    let steered = Body {
        rotation: rotate_spec(ship.body.rotation as int, rotation_delta_spec(inputs, config)) as i64,
        ..ship.body
    };
    let thrusted = thrust_spec(steered, thrust_magnitude_spec(inputs, config));
    SpaceShip {
        body: update_spec(thrusted, dt, config.width as int, config.height as int),
        is_thrusting: thrust_magnitude_spec(inputs, config) > 0,
        ..ship
    }
}

/// The projectile list after the fire intent: a fresh projectile launched
/// from the craft's pre-steering position and heading, or the list as it
/// was.
pub open spec fn bullets_after_fire(
    info: PlayingInfo,
    inputs: InputIntents,
    config: GameConfig,
) -> Seq<Bullet> {
    if inputs.fire {
        info.bullets@.push(
            Bullet {
                body: fresh_bullet_body(
                    info.space_ship.body.position,
                    info.space_ship.body.rotation as int,
                    config.bullet_speed as int,
                ),
            },
        )
    } else {
        info.bullets@
    }
}

/// One projectile integrated by `dt`.
pub open spec fn updated_bullet(b: Bullet, dt: int, w: int, h: int) -> Bullet {
    Bullet { body: update_spec(b.body, dt, w, h) }
}

/// One obstacle integrated by `dt`.
pub open spec fn updated_asteroid(a: Asteroid, dt: int, w: int, h: int) -> Asteroid {
    Asteroid { body: update_spec(a.body, dt, w, h), ..a }
}

/// Every projectile integrated by `dt`.
pub open spec fn integrate_bullets_spec(s: Seq<Bullet>, dt: int, w: int, h: int) -> Seq<Bullet> {
    s.map(|i: int, b: Bullet| updated_bullet(b, dt, w, h))
}

/// Every obstacle integrated by `dt`.
pub open spec fn integrate_asteroids_spec(s: Seq<Asteroid>, dt: int, w: int, h: int) -> Seq<
    Asteroid,
> {
    s.map(|i: int, a: Asteroid| updated_asteroid(a, dt, w, h))
}

// ------------------------------------------------------------- collision

/// An obstacle's outline placed at its body's position and heading.
pub open spec fn asteroid_world_polygon(a: Asteroid) -> Seq<Vec2> {
    transform_points_spec(
        asteroid_outline_spec(asteroid_scale_spec(a.size)),
        a.body.position,
        a.body.rotation as int,
    )
}

/// A projectile's line placed at its body's position and heading.
pub open spec fn bullet_world_points(b: Bullet) -> Seq<Vec2> {
    transform_points_spec(bullet_outline_spec(), b.body.position, b.body.rotation as int)
}

/// The craft's hull placed at its body's position and heading.
pub open spec fn ship_world_points(s: SpaceShip) -> Seq<Vec2> {
    transform_points_spec(
        ship_hull_spec(s.hull_width as int, s.hull_height as int),
        s.body.position,
        s.body.rotation as int,
    )
}

/// The projectile touches the obstacle: some vertex of the projectile's
/// placed line lies inside the obstacle's placed outline.
pub open spec fn bullet_hits_asteroid(a: Asteroid, b: Bullet) -> bool {
    polygon_overlap_spec(bullet_world_points(b), asteroid_world_polygon(a))
}

/// The obstacle touches the craft: some vertex of the craft's placed hull
/// lies inside the obstacle's placed outline.
pub open spec fn asteroid_hits_ship(a: Asteroid, s: SpaceShip) -> bool {
    polygon_overlap_spec(ship_world_points(s), asteroid_world_polygon(a))
}

/// Some projectile of the list touches the obstacle.
pub open spec fn asteroid_hit_by_some(a: Asteroid, bullets: Seq<Bullet>) -> bool {
    exists|j: int| 0 <= j < bullets.len() && bullet_hits_asteroid(a, #[trigger] bullets[j])
}

/// The projectile touches some obstacle of the list.
pub open spec fn bullet_hits_some(b: Bullet, asteroids: Seq<Asteroid>) -> bool {
    exists|i: int| 0 <= i < asteroids.len() && bullet_hits_asteroid(#[trigger] asteroids[i], b)
}

/// Some obstacle of the list touches the craft.
pub open spec fn ship_hit_by_some(asteroids: Seq<Asteroid>, s: SpaceShip) -> bool {
    exists|i: int| 0 <= i < asteroids.len() && asteroid_hits_ship(#[trigger] asteroids[i], s)
}

// ---------------------------------------------------------- exec helpers

/// Steer, thrust and integrate the craft for one frame.
fn advance_ship(ship: &mut SpaceShip, dt: i64, inputs: &InputIntents, config: &GameConfig)
    requires
        body_wf(old(ship).body),
        !old(ship).body.destroyed,
        0 <= dt <= MAX_FRAME_TIME,
        config_wf(*config),
    ensures
        *final(ship) == ship_after_frame(*old(ship), dt as int, *inputs, *config),
        body_wf(final(ship).body),
{
    let mut delta: i64 = 0;
    if inputs.rotate_left {
        delta = delta + config.rotational_step;
    }
    if inputs.rotate_right {
        delta = delta - config.rotational_step;
    }
    let mut thrust: i64 = 0;
    if inputs.thrust {
        thrust = thrust + config.linear_acceleration;
    }
    ship.body.rotate(delta);
    ship.apply_thrust(thrust);
    ship.body.update(dt, config.width, config.height);
}

/// Integrate every projectile by `dt`.
fn integrate_bullets(bullets: &Vec<Bullet>, dt: i64, w: i64, h: i64) -> (r: Vec<Bullet>)
    requires
        forall|i: int|
            0 <= i < bullets@.len() ==> body_wf(#[trigger] bullets@[i].body)
                && !bullets@[i].body.destroyed,
        0 <= dt <= MAX_FRAME_TIME,
        crate::body::bound_ok(w as int),
        crate::body::bound_ok(h as int),
    ensures
        r@ == integrate_bullets_spec(bullets@, dt as int, w as int, h as int),
        forall|i: int| 0 <= i < r@.len() ==> body_wf(#[trigger] r@[i].body),
{
    let mut out: Vec<Bullet> = Vec::new();
    let mut i: usize = 0;
    while i < bullets.len()
        invariant
            i <= bullets@.len(),
            forall|k: int|
                0 <= k < bullets@.len() ==> body_wf(#[trigger] bullets@[k].body)
                    && !bullets@[k].body.destroyed,
            0 <= dt <= MAX_FRAME_TIME,
            crate::body::bound_ok(w as int),
            crate::body::bound_ok(h as int),
            out@.len() == i,
            forall|k: int|
                0 <= k < i ==> #[trigger] out@[k] == updated_bullet(
                    bullets@[k],
                    dt as int,
                    w as int,
                    h as int,
                ),
            forall|k: int| 0 <= k < i ==> body_wf(#[trigger] out@[k].body),
        decreases bullets@.len() - i,
    {
        let mut b = bullets[i];
        b.body.update(dt, w, h);
        out.push(b);
        i += 1;
    }
    proof {
        assert(out@ =~= integrate_bullets_spec(bullets@, dt as int, w as int, h as int));
    }
    out
}

/// Integrate every obstacle by `dt`.
fn integrate_asteroids(asteroids: &Vec<Asteroid>, dt: i64, w: i64, h: i64) -> (r: Vec<Asteroid>)
    requires
        forall|i: int|
            0 <= i < asteroids@.len() ==> body_wf(#[trigger] asteroids@[i].body)
                && !asteroids@[i].body.destroyed,
        0 <= dt <= MAX_FRAME_TIME,
        crate::body::bound_ok(w as int),
        crate::body::bound_ok(h as int),
    ensures
        r@ == integrate_asteroids_spec(asteroids@, dt as int, w as int, h as int),
        forall|i: int| 0 <= i < r@.len() ==> body_wf(#[trigger] r@[i].body),
{
    let mut out: Vec<Asteroid> = Vec::new();
    let mut i: usize = 0;
    while i < asteroids.len()
        invariant
            i <= asteroids@.len(),
            forall|k: int|
                0 <= k < asteroids@.len() ==> body_wf(#[trigger] asteroids@[k].body)
                    && !asteroids@[k].body.destroyed,
            0 <= dt <= MAX_FRAME_TIME,
            crate::body::bound_ok(w as int),
            crate::body::bound_ok(h as int),
            out@.len() == i,
            forall|k: int|
                0 <= k < i ==> #[trigger] out@[k] == updated_asteroid(
                    asteroids@[k],
                    dt as int,
                    w as int,
                    h as int,
                ),
            forall|k: int| 0 <= k < i ==> body_wf(#[trigger] out@[k].body),
        decreases asteroids@.len() - i,
    {
        let mut a = asteroids[i];
        a.body.update(dt, w, h);
        out.push(a);
        i += 1;
    }
    proof {
        assert(out@ =~= integrate_asteroids_spec(asteroids@, dt as int, w as int, h as int));
    }
    out
}

/// Whether one projectile touches one obstacle, on frozen positions.
fn bullet_hits_asteroid_exec(a: &Asteroid, b: &Bullet) -> (r: bool)
    requires
        body_wf(a.body),
        body_wf(b.body),
    ensures
        r == bullet_hits_asteroid(*a, *b),
{
    let a_shape = a.shape();
    let b_shape = b.shape();
    a_shape.collides_with(
        a.body.position,
        a.body.rotation,
        &b_shape,
        b.body.position,
        b.body.rotation,
    )
}

/// Whether one obstacle touches the craft's hull, on frozen positions.
fn asteroid_hits_ship_exec(a: &Asteroid, ship: &SpaceShip) -> (r: bool)
    requires
        body_wf(a.body),
        body_wf(ship.body),
        0 <= ship.hull_width <= SCALAR_LIMIT,
        0 <= ship.hull_height <= SCALAR_LIMIT,
    ensures
        r == asteroid_hits_ship(*a, *ship),
{
    let a_shape = a.shape();
    let hull = ship.ship_shape();
    a_shape.collides_with(
        a.body.position,
        a.body.rotation,
        &hull,
        ship.body.position,
        ship.body.rotation,
    )
}

// ------------------------------------------------------------ sweep folds

/// How many projectiles of the list touch the obstacle. Every touching
/// pair counts: two projectiles in one obstacle score and split twice,
/// exactly as the collection-order sweep marks them.
pub open spec fn hit_count(a: Asteroid, bullets: Seq<Bullet>) -> nat
    decreases bullets.len(),
{
    if bullets.len() == 0 {
        0
    } else {
        hit_count(a, bullets.drop_last()) + (if bullet_hits_asteroid(a, bullets.last()) {
            1nat
        } else {
            0nat
        })
    }
}

/// The score one obstacle contributes this frame: its tier's value once
/// per touching projectile.
pub open spec fn asteroid_score_gain(a: Asteroid, bullets: Seq<Bullet>) -> int {
    hit_count(a, bullets) * asteroid_score_spec(a.size)
}

/// The position and tier a staged child takes; the heading is drawn
/// fresh for each child.
pub open spec fn child_pair(c: Asteroid) -> (Vec2, AsteroidSizes) {
    (c.body.position, c.size)
}

/// What one split of an obstacle stages: three children of the successor
/// tier at the obstacle's position, or nothing for a Small obstacle.
pub open spec fn split_triple(a: Asteroid) -> Seq<(Vec2, AsteroidSizes)> {
    match split_size_spec(a.size) {
        Some(next) => seq![
            (a.body.position, next),
            (a.body.position, next),
            (a.body.position, next),
        ],
        None => Seq::empty(),
    }
}

/// The children one obstacle stages this frame, in projectile order: one
/// split per touching projectile.
pub open spec fn asteroid_child_plan(a: Asteroid, bullets: Seq<Bullet>) -> Seq<
    (Vec2, AsteroidSizes),
>
    decreases bullets.len(),
{
    if bullets.len() == 0 {
        Seq::empty()
    } else {
        asteroid_child_plan(a, bullets.drop_last()) + (if bullet_hits_asteroid(
            a,
            bullets.last(),
        ) {
            split_triple(a)
        } else {
            Seq::empty()
        })
    }
}

/// The score the whole sweep adds.
pub open spec fn sweep_score(asteroids: Seq<Asteroid>, bullets: Seq<Bullet>) -> int
    decreases asteroids.len(),
{
    if asteroids.len() == 0 {
        0
    } else {
        sweep_score(asteroids.drop_last(), bullets) + asteroid_score_gain(
            asteroids.last(),
            bullets,
        )
    }
}

/// The position and tier of every child the whole sweep stages, obstacle
/// by obstacle in collection order.
pub open spec fn sweep_child_plan(asteroids: Seq<Asteroid>, bullets: Seq<Bullet>) -> Seq<
    (Vec2, AsteroidSizes),
>
    decreases asteroids.len(),
{
    if asteroids.len() == 0 {
        Seq::empty()
    } else {
        sweep_child_plan(asteroids.drop_last(), bullets) + asteroid_child_plan(
            asteroids.last(),
            bullets,
        )
    }
}

/// Unsigned 32-bit saturating addition on the mathematical integers.
pub open spec fn sat_add_u32(a: int, b: int) -> int {
    if a + b > u32::MAX {
        u32::MAX as int
    } else {
        a + b
    }
}

/// A projectile survives the frame: its body was not destroyed at the
/// arena edge and no obstacle touches it.
pub open spec fn bullet_live(b: Bullet, asteroids: Seq<Asteroid>) -> bool {
    !b.body.destroyed && !bullet_hits_some(b, asteroids)
}

/// An obstacle survives the frame: its body is not destroyed and no
/// projectile touches it.
pub open spec fn asteroid_live(a: Asteroid, bullets: Seq<Bullet>) -> bool {
    !a.body.destroyed && !asteroid_hit_by_some(a, bullets)
}

/// The projectiles left after the end-of-frame filter, in order.
pub open spec fn live_bullets(bullets: Seq<Bullet>, asteroids: Seq<Asteroid>) -> Seq<Bullet>
    decreases bullets.len(),
{
    if bullets.len() == 0 {
        Seq::empty()
    } else {
        let rest = live_bullets(bullets.drop_last(), asteroids);
        if bullet_live(bullets.last(), asteroids) {
            rest.push(bullets.last())
        } else {
            rest
        }
    }
}

/// The pre-sweep obstacles left after the end-of-frame filter, in order.
pub open spec fn live_asteroids(asteroids: Seq<Asteroid>, bullets: Seq<Bullet>) -> Seq<Asteroid>
    decreases asteroids.len(),
{
    if asteroids.len() == 0 {
        Seq::empty()
    } else {
        let rest = live_asteroids(asteroids.drop_last(), bullets);
        if asteroid_live(asteroids.last(), bullets) {
            rest.push(asteroids.last())
        } else {
            rest
        }
    }
}

/// A staged child comes from some obstacle the sweep hit: it sits at that
/// parent's position with the parent's successor tier.
pub open spec fn sweep_child_ok(c: Asteroid, asteroids: Seq<Asteroid>, bullets: Seq<Bullet>) -> bool {
    exists|i: int|
        0 <= i < asteroids.len() && asteroid_hit_by_some(#[trigger] asteroids[i], bullets)
            && match split_size_spec(asteroids[i].size) {
            Some(next) => split_child_ok(c, asteroids[i].body.position, next),
            None => false,
        }
}

// ------------------------------------------------------------ fold steps

proof fn lemma_hit_count_step(a: Asteroid, s: Seq<Bullet>, j: int)
    requires
        0 <= j < s.len(),
    ensures
        hit_count(a, s.take(j + 1)) == hit_count(a, s.take(j)) + (if bullet_hits_asteroid(
            a,
            s[j],
        ) {
            1int
        } else {
            0int
        }),
        asteroid_child_plan(a, s.take(j + 1)) == asteroid_child_plan(a, s.take(j)) + (
        if bullet_hits_asteroid(a, s[j]) {
            split_triple(a)
        } else {
            Seq::empty()
        }),
{
    assert(s.take(j + 1).drop_last() =~= s.take(j));
    assert(s.take(j + 1).last() == s[j]);
}

proof fn lemma_sweep_score_step(s: Seq<Asteroid>, bullets: Seq<Bullet>, i: int)
    requires
        0 <= i < s.len(),
    ensures
        sweep_score(s.take(i + 1), bullets) == sweep_score(s.take(i), bullets)
            + asteroid_score_gain(s[i], bullets),
        sweep_child_plan(s.take(i + 1), bullets) == sweep_child_plan(s.take(i), bullets)
            + asteroid_child_plan(s[i], bullets),
{
    assert(s.take(i + 1).drop_last() =~= s.take(i));
    assert(s.take(i + 1).last() == s[i]);
}

proof fn lemma_live_bullets_step(s: Seq<Bullet>, asteroids: Seq<Asteroid>, j: int)
    requires
        0 <= j < s.len(),
    ensures
        live_bullets(s.take(j + 1), asteroids) == (if bullet_live(s[j], asteroids) {
            live_bullets(s.take(j), asteroids).push(s[j])
        } else {
            live_bullets(s.take(j), asteroids)
        }),
{
    assert(s.take(j + 1).drop_last() =~= s.take(j));
    assert(s.take(j + 1).last() == s[j]);
}

proof fn lemma_live_asteroids_step(s: Seq<Asteroid>, bullets: Seq<Bullet>, i: int)
    requires
        0 <= i < s.len(),
    ensures
        live_asteroids(s.take(i + 1), bullets) == (if asteroid_live(s[i], bullets) {
            live_asteroids(s.take(i), bullets).push(s[i])
        } else {
            live_asteroids(s.take(i), bullets)
        }),
{
    assert(s.take(i + 1).drop_last() =~= s.take(i));
    assert(s.take(i + 1).last() == s[i]);
}

proof fn lemma_sweep_score_nonneg(asteroids: Seq<Asteroid>, bullets: Seq<Bullet>)
    ensures
        sweep_score(asteroids, bullets) >= 0,
    decreases asteroids.len(),
{
    if asteroids.len() > 0 {
        lemma_sweep_score_nonneg(asteroids.drop_last(), bullets);
    }
}

// ------------------------------------------------------------- sweep laws

proof fn lemma_live_asteroids_elements(s: Seq<Asteroid>, bullets: Seq<Bullet>)
    ensures
        forall|k: int|
            0 <= k < live_asteroids(s, bullets).len() ==> asteroid_live(
                #[trigger] live_asteroids(s, bullets)[k],
                bullets,
            ),
    decreases s.len(),
{
    if s.len() > 0 {
        lemma_live_asteroids_elements(s.drop_last(), bullets);
        let rest = live_asteroids(s.drop_last(), bullets);
        if asteroid_live(s.last(), bullets) {
            assert forall|k: int| 0 <= k < live_asteroids(s, bullets).len() implies asteroid_live(
                live_asteroids(s, bullets)[k],
                bullets,
            ) by {
                if k < rest.len() {
                    assert(live_asteroids(s, bullets)[k] == rest[k]);
                } else {
                    assert(live_asteroids(s, bullets)[k] == s.last());
                }
            }
        }
    }
}

proof fn lemma_live_bullets_elements(s: Seq<Bullet>, asteroids: Seq<Asteroid>)
    ensures
        forall|k: int|
            0 <= k < live_bullets(s, asteroids).len() ==> bullet_live(
                #[trigger] live_bullets(s, asteroids)[k],
                asteroids,
            ),
    decreases s.len(),
{
    if s.len() > 0 {
        lemma_live_bullets_elements(s.drop_last(), asteroids);
        let rest = live_bullets(s.drop_last(), asteroids);
        if bullet_live(s.last(), asteroids) {
            assert forall|k: int| 0 <= k < live_bullets(s, asteroids).len() implies bullet_live(
                live_bullets(s, asteroids)[k],
                asteroids,
            ) by {
                if k < rest.len() {
                    assert(live_bullets(s, asteroids)[k] == rest[k]);
                } else {
                    assert(live_bullets(s, asteroids)[k] == s.last());
                }
            }
        }
    }
}

proof fn lemma_hit_count_at_least_one(a: Asteroid, bullets: Seq<Bullet>, j: int)
    requires
        0 <= j < bullets.len(),
        bullet_hits_asteroid(a, bullets[j]),
    ensures
        hit_count(a, bullets) >= 1,
    decreases bullets.len(),
{
    if j < bullets.len() - 1 {
        lemma_hit_count_at_least_one(a, bullets.drop_last(), j);
    }
}

proof fn lemma_sweep_score_lower(s: Seq<Asteroid>, bullets: Seq<Bullet>, i: int)
    requires
        0 <= i < s.len(),
    ensures
        sweep_score(s, bullets) >= asteroid_score_gain(s[i], bullets),
    decreases s.len(),
{
    if i == s.len() - 1 {
        lemma_sweep_score_nonneg(s.drop_last(), bullets);
    } else {
        lemma_sweep_score_lower(s.drop_last(), bullets, i);
    }
}

/// What one obstacle's staged children look like, for any projectile
/// list: a splitting obstacle stages exactly three children per touching
/// projectile, every one at the obstacle's position with the successor
/// tier; a Small obstacle stages none.
pub proof fn lemma_child_plan_shape(a: Asteroid, bullets: Seq<Bullet>)
    ensures
        match split_size_spec(a.size) {
            Some(next) => {
                &&& asteroid_child_plan(a, bullets).len() == 3 * hit_count(a, bullets)
                &&& forall|k: int|
                    0 <= k < asteroid_child_plan(a, bullets).len()
                        ==> #[trigger] asteroid_child_plan(a, bullets)[k] == (
                    a.body.position,
                    next,
                    )
            },
            None => asteroid_child_plan(a, bullets).len() == 0,
        },
    decreases bullets.len(),
{
    if bullets.len() > 0 {
        lemma_child_plan_shape(a, bullets.drop_last());
    }
}

proof fn lemma_sweep_plan_contains(
    s: Seq<Asteroid>,
    bullets: Seq<Bullet>,
    i: int,
    pair: (Vec2, AsteroidSizes),
)
    requires
        0 <= i < s.len(),
        asteroid_child_plan(s[i], bullets).contains(pair),
    ensures
        sweep_child_plan(s, bullets).contains(pair),
    decreases s.len(),
{
    if i == s.len() - 1 {
        let k = choose|k: int|
            0 <= k < asteroid_child_plan(s[i], bullets).len() && asteroid_child_plan(
                s[i],
                bullets,
            )[k] == pair;
        assert(sweep_child_plan(s, bullets)[sweep_child_plan(s.drop_last(), bullets).len() + k]
            == pair);
    } else {
        lemma_sweep_plan_contains(s.drop_last(), bullets, i, pair);
        let k = choose|k: int|
            0 <= k < sweep_child_plan(s.drop_last(), bullets).len() && sweep_child_plan(
                s.drop_last(),
                bullets,
            )[k] == pair;
        assert(sweep_child_plan(s, bullets)[k] == pair);
    }
}

/// A projectile swept into an obstacle consumes both and pays the
/// obstacle's value, for any entity lists and any touching pair: the
/// obstacle is gone from the surviving obstacles, the projectile from
/// the kept projectiles, the sweep's score gain covers the obstacle's
/// tier value, and a splitting obstacle's children — three per touching
/// projectile, at its position with the successor tier, by
/// `lemma_child_plan_shape` — stand in the sweep's plan.
pub proof fn lemma_hit_consumes_obstacle(
    asteroids: Seq<Asteroid>,
    bullets: Seq<Bullet>,
    i: int,
    j: int,
)
    requires
        0 <= i < asteroids.len(),
        0 <= j < bullets.len(),
        bullet_hits_asteroid(asteroids[i], bullets[j]),
    ensures
        !live_asteroids(asteroids, bullets).contains(asteroids[i]),
        !live_bullets(bullets, asteroids).contains(bullets[j]),
        sweep_score(asteroids, bullets) >= asteroid_score_spec(asteroids[i].size),
        match split_size_spec(asteroids[i].size) {
            Some(next) => {
                &&& asteroid_child_plan(asteroids[i], bullets).len() >= 3
                &&& sweep_child_plan(asteroids, bullets).contains(
                    (asteroids[i].body.position, next),
                )
            },
            None => asteroid_child_plan(asteroids[i], bullets).len() == 0,
        },
{
    let a = asteroids[i];
    let b = bullets[j];
    assert(asteroid_hit_by_some(a, bullets));
    assert(bullet_hits_some(b, asteroids));
    lemma_live_asteroids_elements(asteroids, bullets);
    if live_asteroids(asteroids, bullets).contains(a) {
        let k = choose|k: int|
            0 <= k < live_asteroids(asteroids, bullets).len() && live_asteroids(
                asteroids,
                bullets,
            )[k] == a;
        assert(asteroid_live(live_asteroids(asteroids, bullets)[k], bullets));
        assert(false);
    }
    lemma_live_bullets_elements(bullets, asteroids);
    if live_bullets(bullets, asteroids).contains(b) {
        let k = choose|k: int|
            0 <= k < live_bullets(bullets, asteroids).len() && live_bullets(
                bullets,
                asteroids,
            )[k] == b;
        assert(bullet_live(live_bullets(bullets, asteroids)[k], asteroids));
        assert(false);
    }
    lemma_hit_count_at_least_one(a, bullets, j);
    lemma_sweep_score_lower(asteroids, bullets, i);
    lemma_child_plan_shape(a, bullets);
    match split_size_spec(a.size) {
        Some(next) => {
            assert(asteroid_child_plan(a, bullets)[0] == (a.body.position, next));
            lemma_sweep_plan_contains(asteroids, bullets, i, (a.body.position, next));
        },
        None => {},
    }
}

// ------------------------------------------------------------ sweep passes

/// Whether some obstacle of the list touches the projectile.
fn bullet_hits_some_exec(b: &Bullet, asteroids: &Vec<Asteroid>) -> (r: bool)
    requires
        body_wf(b.body),
        forall|i: int| 0 <= i < asteroids@.len() ==> body_wf(#[trigger] asteroids@[i].body),
    ensures
        r == bullet_hits_some(*b, asteroids@),
{
    let mut i: usize = 0;
    while i < asteroids.len()
        invariant
            i <= asteroids@.len(),
            body_wf(b.body),
            forall|k: int| 0 <= k < asteroids@.len() ==> body_wf(#[trigger] asteroids@[k].body),
            forall|k: int| 0 <= k < i ==> !bullet_hits_asteroid(#[trigger] asteroids@[k], *b),
        decreases asteroids@.len() - i,
    {
        if bullet_hits_asteroid_exec(&asteroids[i], b) {
            return true;
        }
        i += 1;
    }
    false
}

/// Whether some projectile of the list touches the obstacle.
fn asteroid_hit_by_some_exec(a: &Asteroid, bullets: &Vec<Bullet>) -> (r: bool)
    requires
        body_wf(a.body),
        forall|j: int| 0 <= j < bullets@.len() ==> body_wf(#[trigger] bullets@[j].body),
    ensures
        r == asteroid_hit_by_some(*a, bullets@),
{
    let mut j: usize = 0;
    while j < bullets.len()
        invariant
            j <= bullets@.len(),
            body_wf(a.body),
            forall|k: int| 0 <= k < bullets@.len() ==> body_wf(#[trigger] bullets@[k].body),
            forall|k: int| 0 <= k < j ==> !bullet_hits_asteroid(*a, #[trigger] bullets@[k]),
        decreases bullets@.len() - j,
    {
        if bullet_hits_asteroid_exec(a, &bullets[j]) {
            return true;
        }
        j += 1;
    }
    false
}

/// Whether some obstacle of the list touches the craft.
fn ship_hit_by_some_exec(asteroids: &Vec<Asteroid>, ship: &SpaceShip) -> (r: bool)
    requires
        body_wf(ship.body),
        0 <= ship.hull_width <= SCALAR_LIMIT,
        0 <= ship.hull_height <= SCALAR_LIMIT,
        forall|i: int| 0 <= i < asteroids@.len() ==> body_wf(#[trigger] asteroids@[i].body),
    ensures
        r == ship_hit_by_some(asteroids@, *ship),
{
    let mut i: usize = 0;
    while i < asteroids.len()
        invariant
            i <= asteroids@.len(),
            body_wf(ship.body),
            0 <= ship.hull_width <= SCALAR_LIMIT,
            0 <= ship.hull_height <= SCALAR_LIMIT,
            forall|k: int| 0 <= k < asteroids@.len() ==> body_wf(#[trigger] asteroids@[k].body),
            forall|k: int| 0 <= k < i ==> !asteroid_hits_ship(#[trigger] asteroids@[k], *ship),
        decreases asteroids@.len() - i,
    {
        if asteroid_hits_ship_exec(&asteroids[i], ship) {
            return true;
        }
        i += 1;
    }
    false
}

/// The collision sweep's bookkeeping: walk every obstacle-projectile pair
/// in collection order, add the obstacle's tier value to the score once
/// per touching pair, and stage the pair's split children in a pending
/// buffer. Returns the staged children, whose positions and tiers follow
/// the sweep's plan exactly, and the new score.
fn sweep_children_and_score(asteroids: &Vec<Asteroid>, bullets: &Vec<Bullet>, score: u32) -> (r: (
    Vec<Asteroid>,
    u32,
))
    requires
        forall|i: int| 0 <= i < asteroids@.len() ==> body_wf(#[trigger] asteroids@[i].body),
        forall|j: int| 0 <= j < bullets@.len() ==> body_wf(#[trigger] bullets@[j].body),
    ensures
        r.1 as int == sat_add_u32(score as int, sweep_score(asteroids@, bullets@)),
        r.0@.map(|k: int, c: Asteroid| child_pair(c)) == sweep_child_plan(asteroids@, bullets@),
        forall|k: int| 0 <= k < r.0@.len() ==> sweep_child_ok(#[trigger] r.0@[k], asteroids@, bullets@),
        forall|k: int|
            0 <= k < r.0@.len() ==> body_wf(#[trigger] r.0@[k].body) && !r.0@[k].body.destroyed,
{
    let mut children: Vec<Asteroid> = Vec::new();
    let mut acc: u32 = score;
    let mut i: usize = 0;
    proof {
        assert(children@.map(|k: int, c: Asteroid| child_pair(c)) =~= Seq::<
            (Vec2, AsteroidSizes),
        >::empty());
    }
    while i < asteroids.len()
        invariant
            i <= asteroids@.len(),
            forall|k: int| 0 <= k < asteroids@.len() ==> body_wf(#[trigger] asteroids@[k].body),
            forall|k: int| 0 <= k < bullets@.len() ==> body_wf(#[trigger] bullets@[k].body),
            acc as int == sat_add_u32(score as int, sweep_score(asteroids@.take(i as int), bullets@)),
            children@.map(|k: int, c: Asteroid| child_pair(c)) == sweep_child_plan(
                asteroids@.take(i as int),
                bullets@,
            ),
            forall|k: int|
                0 <= k < children@.len() ==> sweep_child_ok(
                    #[trigger] children@[k],
                    asteroids@,
                    bullets@,
                ),
            forall|k: int|
                0 <= k < children@.len() ==> body_wf(#[trigger] children@[k].body)
                    && !children@[k].body.destroyed,
        decreases asteroids@.len() - i,
    {
        let a = asteroids[i];
        let value = crate::asteroid::get_asteroid_score(&a.size);
        proof {
            assert(bullets@.take(0).len() == 0);
            assert(hit_count(a, bullets@.take(0)) == 0);
            assert(asteroid_score_gain(a, bullets@.take(0)) == 0);
            assert(asteroid_child_plan(a, bullets@.take(0)) =~= Seq::<
                (Vec2, AsteroidSizes),
            >::empty());
            assert(sweep_child_plan(asteroids@.take(i as int), bullets@) + Seq::<
                (Vec2, AsteroidSizes),
            >::empty() =~= sweep_child_plan(asteroids@.take(i as int), bullets@));
        }
        let mut j: usize = 0;
        while j < bullets.len()
            invariant
                j <= bullets@.len(),
                i < asteroids@.len(),
                a == asteroids@[i as int],
                value == asteroid_score_spec(a.size),
                forall|k: int| 0 <= k < asteroids@.len() ==> body_wf(#[trigger] asteroids@[k].body),
                forall|k: int| 0 <= k < bullets@.len() ==> body_wf(#[trigger] bullets@[k].body),
                acc as int == sat_add_u32(
                    score as int,
                    sweep_score(asteroids@.take(i as int), bullets@) + asteroid_score_gain(
                        a,
                        bullets@.take(j as int),
                    ),
                ),
                children@.map(|k: int, c: Asteroid| child_pair(c)) == sweep_child_plan(
                    asteroids@.take(i as int),
                    bullets@,
                ) + asteroid_child_plan(a, bullets@.take(j as int)),
                forall|k: int|
                    0 <= k < children@.len() ==> sweep_child_ok(
                        #[trigger] children@[k],
                        asteroids@,
                        bullets@,
                    ),
                forall|k: int|
                    0 <= k < children@.len() ==> body_wf(#[trigger] children@[k].body)
                        && !children@[k].body.destroyed,
            decreases bullets@.len() - j,
        {
            proof {
                lemma_hit_count_step(a, bullets@, j as int);
            }
            if bullet_hits_asteroid_exec(&a, &bullets[j]) {
                acc = acc.saturating_add(value);
                let ghost children_before = children@;
                let mut split = split_asteroid(&a);
                proof {
                    assert(asteroid_hit_by_some(a, bullets@));
                }
                children.append(&mut split);
                proof {
                    let pair_of = |k: int, c: Asteroid| child_pair(c);
                    assert(children@.map(pair_of) =~= children_before.map(pair_of)
                        + split_triple(a));
                }
            }
            proof {
                let pair_of = |k: int, c: Asteroid| child_pair(c);
                assert(children@.map(pair_of) =~= sweep_child_plan(
                    asteroids@.take(i as int),
                    bullets@,
                ) + asteroid_child_plan(a, bullets@.take(j as int + 1)));
            }
            j += 1;
        }
        proof {
            assert(bullets@.take(bullets@.len() as int) =~= bullets@);
            lemma_sweep_score_step(asteroids@, bullets@, i as int);
        }
        i += 1;
    }
    proof {
        assert(asteroids@.take(asteroids@.len() as int) =~= asteroids@);
    }
    (children, acc)
}

/// The end-of-frame projectile filter: keep those neither destroyed at
/// the arena edge nor touched by an obstacle.
fn filter_live_bullets(bullets: &Vec<Bullet>, asteroids: &Vec<Asteroid>) -> (r: Vec<Bullet>)
    requires
        forall|j: int| 0 <= j < bullets@.len() ==> body_wf(#[trigger] bullets@[j].body),
        forall|i: int| 0 <= i < asteroids@.len() ==> body_wf(#[trigger] asteroids@[i].body),
    ensures
        r@ == live_bullets(bullets@, asteroids@),
        forall|k: int|
            0 <= k < r@.len() ==> body_wf(#[trigger] r@[k].body) && !r@[k].body.destroyed,
{
    let mut out: Vec<Bullet> = Vec::new();
    let mut j: usize = 0;
    while j < bullets.len()
        invariant
            j <= bullets@.len(),
            forall|k: int| 0 <= k < bullets@.len() ==> body_wf(#[trigger] bullets@[k].body),
            forall|k: int| 0 <= k < asteroids@.len() ==> body_wf(#[trigger] asteroids@[k].body),
            out@ == live_bullets(bullets@.take(j as int), asteroids@),
            forall|k: int|
                0 <= k < out@.len() ==> body_wf(#[trigger] out@[k].body)
                    && !out@[k].body.destroyed,
        decreases bullets@.len() - j,
    {
        proof {
            lemma_live_bullets_step(bullets@, asteroids@, j as int);
        }
        let b = bullets[j];
        if !b.body.destroyed && !bullet_hits_some_exec(&b, asteroids) {
            out.push(b);
        }
        j += 1;
    }
    proof {
        assert(bullets@.take(bullets@.len() as int) =~= bullets@);
    }
    out
}

/// The end-of-frame obstacle filter: keep the pre-sweep obstacles no
/// projectile touched.
fn filter_live_asteroids(asteroids: &Vec<Asteroid>, bullets: &Vec<Bullet>) -> (r: Vec<Asteroid>)
    requires
        forall|i: int| 0 <= i < asteroids@.len() ==> body_wf(#[trigger] asteroids@[i].body),
        forall|j: int| 0 <= j < bullets@.len() ==> body_wf(#[trigger] bullets@[j].body),
    ensures
        r@ == live_asteroids(asteroids@, bullets@),
        forall|k: int|
            0 <= k < r@.len() ==> body_wf(#[trigger] r@[k].body) && !r@[k].body.destroyed,
{
    let mut out: Vec<Asteroid> = Vec::new();
    let mut i: usize = 0;
    while i < asteroids.len()
        invariant
            i <= asteroids@.len(),
            forall|k: int| 0 <= k < asteroids@.len() ==> body_wf(#[trigger] asteroids@[k].body),
            forall|k: int| 0 <= k < bullets@.len() ==> body_wf(#[trigger] bullets@[k].body),
            out@ == live_asteroids(asteroids@.take(i as int), bullets@),
            forall|k: int|
                0 <= k < out@.len() ==> body_wf(#[trigger] out@[k].body)
                    && !out@[k].body.destroyed,
        decreases asteroids@.len() - i,
    {
        proof {
            lemma_live_asteroids_step(asteroids@, bullets@, i as int);
        }
        let a = asteroids[i];
        if !a.body.destroyed && !asteroid_hit_by_some_exec(&a, bullets) {
            out.push(a);
        }
        i += 1;
    }
    proof {
        assert(asteroids@.take(asteroids@.len() as int) =~= asteroids@);
    }
    out
}

// ------------------------------------------------------------ frame result

/// What one `Playing` frame leaves behind. On the entities frozen by the
/// integration step, the sweep's folds fix the score, the survivor lists
/// and the staged children's positions and tiers exactly; only the
/// children's headings are random. The next phase follows the frame's
/// priority: an emptied
/// obstacle collection ends the wave, otherwise the cancel intent returns
/// to the menu, otherwise a destroyed craft ends the game, otherwise play
/// goes on with the filtered survivors and the staged children appended.
pub open spec fn playing_frame_result_ok(
    info: PlayingInfo,
    dt: int,
    inputs: InputIntents,
    config: GameConfig,
    r: GameState,
) -> bool {
    let w = config.width as int;
    let h = config.height as int;
    let ship1 = ship_after_frame(info.space_ship, dt, inputs, config);
    let bullets1 = integrate_bullets_spec(bullets_after_fire(info, inputs, config), dt, w, h);
    let asteroids1 = integrate_asteroids_spec(info.asteroids@, dt, w, h);
    let survivors = live_asteroids(asteroids1, bullets1);
    let kept_bullets = live_bullets(bullets1, asteroids1);
    let plan = sweep_child_plan(asteroids1, bullets1);
    let score1 = sat_add_u32(info.score as int, sweep_score(asteroids1, bullets1));
    let dead = ship1.body.destroyed || ship_hit_by_some(asteroids1, ship1);
    if survivors.len() + plan.len() == 0 {
        r matches GameState::WaveClear { level, score } && level == info.level && score == score1
    } else if inputs.cancel {
        r matches GameState::MainMenu
    } else if dead {
        r matches GameState::GameOver { level, score } && level == info.level && score == score1
    } else {
        match r {
            GameState::Playing { playing_info } => {
                &&& playing_info.score == score1
                &&& playing_info.level == info.level
                &&& playing_info.space_ship == ship1
                &&& playing_info.bullets@ == kept_bullets
                &&& playing_info.asteroids@.len() == survivors.len() + plan.len()
                &&& forall|k: int|
                    0 <= k < survivors.len() ==> playing_info.asteroids@[k] == survivors[k]
                &&& forall|k: int|
                    survivors.len() <= k < playing_info.asteroids@.len() ==> child_pair(
                        #[trigger] playing_info.asteroids@[k],
                    ) == plan[k - survivors.len()]
                &&& forall|k: int|
                    survivors.len() <= k < playing_info.asteroids@.len() ==> sweep_child_ok(
                        #[trigger] playing_info.asteroids@[k],
                        asteroids1,
                        bullets1,
                    )
                &&& playing_wf(playing_info)
            },
            _ => false,
        }
    }
}

/// One frame of the `Playing` phase.
pub fn update_playing(
    playing_info: PlayingInfo,
    dt: i64,
    inputs: &InputIntents,
    config: &GameConfig,
) -> (r: GameState)
    requires
        playing_wf(playing_info),
        config_wf(*config),
        0 <= dt <= MAX_FRAME_TIME,
    ensures
        playing_frame_result_ok(playing_info, dt as int, *inputs, *config, r),
        crate::game_states::game_state_wf(r),
{
    let PlayingInfo { score, level, mut space_ship, mut bullets, asteroids } = playing_info;

    // Fire before anything moves: the projectile launches from the
    // craft's current position and heading and still integrates this
    // frame.
    if inputs.fire {
        bullets.push(
            Bullet::new(space_ship.body.position, space_ship.body.rotation, config.bullet_speed),
        );
    }

    advance_ship(&mut space_ship, dt, inputs, config);
    let bullets1 = integrate_bullets(&bullets, dt, config.width, config.height);
    let asteroids1 = integrate_asteroids(&asteroids, dt, config.width, config.height);

    let (mut children, score1) = sweep_children_and_score(&asteroids1, &bullets1, score);
    let dead = space_ship.body.destroyed || ship_hit_by_some_exec(&asteroids1, &space_ship);

    let kept_bullets = filter_live_bullets(&bullets1, &asteroids1);
    let mut kept_asteroids = filter_live_asteroids(&asteroids1, &bullets1);
    kept_asteroids.append(&mut children);

    proof {
        lemma_sweep_score_nonneg(asteroids1@, bullets1@);
    }
    if kept_asteroids.len() == 0 {
        GameState::WaveClear { level, score: score1 }
    } else if inputs.cancel {
        GameState::MainMenu
    } else if dead {
        GameState::GameOver { level, score: score1 }
    } else {
        GameState::Playing {
            playing_info: PlayingInfo {
                score: score1,
                level,
                space_ship,
                bullets: kept_bullets,
                asteroids: kept_asteroids,
            },
        }
    }
}

// -------------------------------------------------------- phase changes

/// The point a fresh craft spawns at: the center of the arena.
pub open spec fn arena_center_spec(config: GameConfig) -> Vec2 {
    Vec2 {
        x: crate::fixed::mul_fp_spec(config.width as int, 500) as i64,
        y: crate::fixed::mul_fp_spec(config.height as int, 500) as i64,
    }
}

/// A fresh `Playing` aggregate: the given score and level, a new craft
/// resting at the arena center, no projectiles, and one randomly placed
/// Large obstacle per level unit.
pub open spec fn fresh_playing_ok(pi: PlayingInfo, score: int, level: int, config: GameConfig) -> bool {
    &&& pi.score == score
    &&& pi.level == level
    &&& pi.space_ship.body == crate::space_ship::fresh_ship_body(arena_center_spec(config))
    &&& !pi.space_ship.is_thrusting
    &&& pi.space_ship.hull_width == config.ship_width
    &&& pi.space_ship.hull_height == config.ship_height
    &&& pi.bullets@.len() == 0
    &&& pi.asteroids@.len() == level
    &&& forall|i: int|
        0 <= i < pi.asteroids@.len() ==> crate::asteroid::spawned_asteroid_ok(
            #[trigger] pi.asteroids@[i],
            config.width as int,
            config.height as int,
        )
    &&& playing_wf(pi)
}

/// Build the aggregate a wave starts from.
fn build_playing_info(score: u32, level: u32, config: &GameConfig) -> (r: PlayingInfo)
    requires
        config_wf(*config),
    ensures
        fresh_playing_ok(r, score as int, level as int, *config),
{
    let cx = crate::fixed::mul_fp(config.width, 500);
    let cy = crate::fixed::mul_fp(config.height, 500);
    let space_ship = crate::space_ship::SpaceShip::new(
        config.ship_width,
        config.ship_height,
        Vec2 { x: cx, y: cy },
    );
    PlayingInfo {
        score,
        level,
        space_ship,
        bullets: Vec::new(),
        asteroids: create_asteroids(level, config.width, config.height),
    }
}

/// One step of the whole state machine: which phase follows which, under
/// which intent, and what the new phase's payload holds. `quit` is
/// reported only from the menu; the caller terminates the process on it.
pub open spec fn game_step_ok(
    before: GameState,
    dt: int,
    inputs: InputIntents,
    config: GameConfig,
    after: GameState,
    quit: bool,
) -> bool {
    match before {
        GameState::MainMenu => {
            &&& quit == inputs.quit
            &&& if inputs.confirm {
                match after {
                    GameState::Playing { playing_info } => fresh_playing_ok(
                        playing_info,
                        0,
                        1,
                        config,
                    ),
                    _ => false,
                }
            } else {
                after matches GameState::MainMenu
            }
        },
        GameState::Playing { playing_info } => {
            &&& !quit
            &&& playing_frame_result_ok(playing_info, dt, inputs, config, after)
        },
        GameState::WaveClear { level, score } => {
            &&& !quit
            &&& if inputs.confirm {
                match after {
                    GameState::Playing { playing_info } => fresh_playing_ok(
                        playing_info,
                        score as int,
                        sat_add_u32(level as int, 1),
                        config,
                    ),
                    _ => false,
                }
            } else {
                after matches GameState::WaveClear { level: l2, score: s2 } && l2 == level && s2
                    == score
            }
        },
        GameState::GameOver { level, score } => {
            &&& !quit
            &&& if inputs.confirm {
                after matches GameState::MainMenu
            } else {
                after matches GameState::GameOver { level: l2, score: s2 } && l2 == level && s2
                    == score
            }
        },
    }
}

/// Advance the state machine by one frame of intents and elapsed time.
///
/// The menu starts a fresh first wave on confirm and reports the quit
/// intent; a playing frame runs the full per-frame update; a cleared wave
/// starts the next level on confirm, carrying the score forward; a game
/// over returns to the menu on confirm.
pub fn update_game_state(
    game_state: &mut GameState,
    dt: i64,
    inputs: &InputIntents,
    config: &GameConfig,
) -> (quit: bool)
    requires
        crate::game_states::game_state_wf(*old(game_state)),
        config_wf(*config),
        0 <= dt <= MAX_FRAME_TIME,
    ensures
        game_step_ok(*old(game_state), dt as int, *inputs, *config, *final(game_state), quit),
        crate::game_states::game_state_wf(*final(game_state)),
{
    let mut taken = GameState::MainMenu;
    core::mem::swap(game_state, &mut taken);
    let mut quit = false;
    let next = match taken {
        GameState::MainMenu => {
            if inputs.quit {
                quit = true;
            }
            if inputs.confirm {
                GameState::Playing { playing_info: build_playing_info(0, 1, config) }
            } else {
                GameState::MainMenu
            }
        },
        GameState::Playing { playing_info } => update_playing(playing_info, dt, inputs, config),
        GameState::WaveClear { level, score } => {
            if inputs.confirm {
                let next_level = level.saturating_add(1);
                GameState::Playing {
                    playing_info: build_playing_info(score, next_level, config),
                }
            } else {
                GameState::WaveClear { level, score }
            }
        },
        GameState::GameOver { level, score } => {
            if inputs.confirm {
                GameState::MainMenu
            } else {
                GameState::GameOver { level, score }
            }
        },
    };
    *game_state = next;
    quit
}

} // verus!
