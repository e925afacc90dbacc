use asteroids::angle::cos_fp;
use asteroids::angle::sin_fp;
use asteroids::asteroid::Asteroid;
use asteroids::asteroid::AsteroidSizes;
use asteroids::asteroid::create_asteroids;
use asteroids::asteroid::get_asteroid_scale;
use asteroids::asteroid::get_asteroid_score;
use asteroids::asteroid::get_asteroid_velocity;
use asteroids::asteroid::split_asteroid;
use asteroids::body::ScreenEdgeBehavior;
use asteroids::bullet::Bullet;
use asteroids::fixed::Vec2;
use asteroids::fixed::mul_fp;
use asteroids::space_ship::SpaceShip;

#[test]
fn tier_tables_scale_speed_and_score() {
    assert_eq!(get_asteroid_scale(&AsteroidSizes::Large), 20_000);
    assert_eq!(get_asteroid_scale(&AsteroidSizes::Medium), 10_000);
    assert_eq!(get_asteroid_scale(&AsteroidSizes::Small), 5_000);
    assert_eq!(get_asteroid_velocity(&AsteroidSizes::Large), 50_000);
    assert_eq!(get_asteroid_velocity(&AsteroidSizes::Medium), 75_000);
    assert_eq!(get_asteroid_velocity(&AsteroidSizes::Small), 100_000);
    assert_eq!(get_asteroid_score(&AsteroidSizes::Large), 20);
    assert_eq!(get_asteroid_score(&AsteroidSizes::Medium), 50);
    assert_eq!(get_asteroid_score(&AsteroidSizes::Small), 100);
}

#[test]
fn asteroid_drifts_along_its_spawn_heading() {
    let a = Asteroid::new(Vec2 { x: 100_000, y: 200_000 }, 0, &AsteroidSizes::Large);
    assert_eq!(a.body.position, Vec2 { x: 100_000, y: 200_000 });
    assert_eq!(a.body.velocity, Vec2 { x: 50_000, y: 0 });
    assert_eq!(a.body.drag_coefficient, 1000);
    assert!(matches!(a.body.screen_edge_behavior, ScreenEdgeBehavior::Wrap));
    assert!(!a.body.destroyed);

    let up = Asteroid::new(Vec2 { x: 0, y: 0 }, 900, &AsteroidSizes::Small);
    assert_eq!(up.body.velocity, Vec2 { x: 0, y: 100_000 });
}

#[test]
fn asteroid_outline_scales_with_its_tier() {
    let a = Asteroid::new(Vec2 { x: 0, y: 0 }, 0, &AsteroidSizes::Large);
    let shape = a.shape();
    assert_eq!(shape.points.len(), 13);
    assert_eq!(shape.points[0], Vec2 { x: -60_000, y: -40_000 });
    assert_eq!(shape.points[12], shape.points[0]);
    let s = Asteroid::new(Vec2 { x: 0, y: 0 }, 0, &AsteroidSizes::Small);
    assert_eq!(s.shape().points[0], Vec2 { x: -15_000, y: -10_000 });
}

#[test]
fn splitting_a_large_asteroid_yields_three_mediums_at_its_position() {
    let parent = Asteroid::new(Vec2 { x: 123_000, y: 456_000 }, 700, &AsteroidSizes::Large);
    let children = split_asteroid(&parent);
    assert_eq!(children.len(), 3);
    for c in &children {
        assert!(matches!(c.size, AsteroidSizes::Medium));
        assert_eq!(c.body.position, Vec2 { x: 123_000, y: 456_000 });
        assert!(0 <= c.body.rotation && c.body.rotation < 3600);
        assert_eq!(c.body.velocity.x, mul_fp(75_000, cos_fp(c.body.rotation)));
        assert_eq!(c.body.velocity.y, mul_fp(75_000, sin_fp(c.body.rotation)));
        assert!(!c.body.destroyed);
    }
}

#[test]
fn splitting_a_medium_asteroid_yields_three_smalls() {
    let parent = Asteroid::new(Vec2 { x: 0, y: 0 }, 0, &AsteroidSizes::Medium);
    let children = split_asteroid(&parent);
    assert_eq!(children.len(), 3);
    for c in &children {
        assert!(matches!(c.size, AsteroidSizes::Small));
    }
}

#[test]
fn splitting_a_small_asteroid_yields_nothing() {
    let parent = Asteroid::new(Vec2 { x: 50_000, y: 50_000 }, 1800, &AsteroidSizes::Small);
    assert!(split_asteroid(&parent).is_empty());
}

#[test]
fn spawned_asteroids_land_inside_the_arena() {
    let asteroids = create_asteroids(5, 800_000, 600_000);
    assert_eq!(asteroids.len(), 5);
    for a in &asteroids {
        assert!(matches!(a.size, AsteroidSizes::Large));
        assert!(0 <= a.body.position.x && a.body.position.x <= 800_000);
        assert!(0 <= a.body.position.y && a.body.position.y <= 600_000);
        assert!(0 <= a.body.rotation && a.body.rotation < 3600);
    }
}

#[test]
fn bullet_launches_along_the_firing_heading() {
    let b = Bullet::new(Vec2 { x: 10_000, y: 20_000 }, 1800, 500_000);
    assert_eq!(b.body.position, Vec2 { x: 10_000, y: 20_000 });
    assert_eq!(b.body.velocity, Vec2 { x: -500_000, y: 0 });
    assert!(matches!(b.body.screen_edge_behavior, ScreenEdgeBehavior::Destroy));
    let line = b.shape();
    assert_eq!(line.points.len(), 2);
    assert_eq!(line.points[1], Vec2 { x: 5_000, y: 0 });
}

#[test]
fn fresh_ship_rests_and_coasts_under_wrap() {
    let ship = SpaceShip::new(20_000, 20_000, Vec2 { x: 400_000, y: 300_000 });
    assert_eq!(ship.body.position, Vec2 { x: 400_000, y: 300_000 });
    assert_eq!(ship.body.velocity, Vec2 { x: 0, y: 0 });
    assert_eq!(ship.body.rotation, 0);
    assert_eq!(ship.body.drag_coefficient, 990);
    assert!(matches!(ship.body.screen_edge_behavior, ScreenEdgeBehavior::Wrap));
    assert!(!ship.is_thrusting);
    let hull = ship.ship_shape();
    assert_eq!(hull.points.len(), 5);
    assert_eq!(hull.points[0], Vec2 { x: 10_000, y: 0 });
    assert_eq!(hull.points[0], hull.points[4]);
    assert_eq!(hull.points[1], Vec2 { x: -10_000, y: 10_000 });
    assert_eq!(hull.points[2], Vec2 { x: -5_000, y: 0 });
}

#[test]
fn thrusting_raises_the_flame_flag() {
    let mut ship = SpaceShip::new(20_000, 20_000, Vec2 { x: 0, y: 0 });
    ship.apply_thrust(300_000);
    assert!(ship.is_thrusting);
    assert_eq!(ship.body.acceleration, Vec2 { x: 300_000, y: 0 });
    ship.body.update(0, 800_000, 600_000);
    ship.apply_thrust(0);
    assert!(!ship.is_thrusting);
    let flames = ship.flames_shape_base();
    assert_eq!(flames.points.len(), 3);
    assert_eq!(flames.points[0], Vec2 { x: -24_000, y: -10_000 });
    let extended = ship.flames_shape_extended();
    assert_eq!(extended.points[0], Vec2 { x: -30_000, y: -5_000 });
}
