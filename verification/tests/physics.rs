use asteroids::angle::cos_fp;
use asteroids::angle::rotate_angle;
use asteroids::angle::sin_fp;
use asteroids::body::Body;
use asteroids::body::ScreenEdgeBehavior;
use asteroids::fixed::Vec2;
use asteroids::fixed::add_sat;
use asteroids::fixed::mul_fp;
use asteroids::fixed::sub_sat;

fn drifting_body(x: i64, y: i64, vx: i64, vy: i64, edge: ScreenEdgeBehavior) -> Body {
    Body {
        position: Vec2 { x, y },
        velocity: Vec2 { x: vx, y: vy },
        acceleration: Vec2 { x: 0, y: 0 },
        rotation: 0,
        drag_coefficient: 1000,
        screen_edge_behavior: edge,
        destroyed: false,
    }
}

#[test]
fn fixed_point_arithmetic_is_exact() {
    assert_eq!(mul_fp(990, 100_000), 99_000);
    assert_eq!(mul_fp(-3000, 20_000), -60_000);
    assert_eq!(mul_fp(990, -50_000), -49_500);
    assert_eq!(add_sat(1_999_999_999, 5), 2_000_000_000);
    assert_eq!(sub_sat(-1_999_999_999, 5), -2_000_000_000);
}

#[test]
fn trig_spot_values() {
    assert_eq!(sin_fp(0), 0);
    assert_eq!(sin_fp(300), 500);
    assert_eq!(sin_fp(900), 1000);
    assert_eq!(sin_fp(1800), 0);
    assert_eq!(sin_fp(2700), -1000);
    assert_eq!(cos_fp(0), 1000);
    assert_eq!(cos_fp(900), 0);
    assert_eq!(cos_fp(1800), -1000);
}

#[test]
fn rotation_wraps_into_full_turn() {
    assert_eq!(rotate_angle(100, -200), 3500);
    assert_eq!(rotate_angle(3599, 2), 1);
    assert_eq!(rotate_angle(0, 3600), 0);
    assert_eq!(rotate_angle(1800, -7200), 1800);
    for d in [-7300, -1, 0, 57, 3600, 9999] {
        let r = rotate_angle(1234, d);
        assert!(0 <= r && r < 3600);
    }
}

#[test]
fn body_rotate_uses_true_modulo() {
    let mut b = drifting_body(0, 0, 0, 0, ScreenEdgeBehavior::Wrap);
    b.rotate(-57);
    assert_eq!(b.rotation, 3543);
    b.rotate(57);
    assert_eq!(b.rotation, 0);
}

#[test]
fn wrap_policy_teleports_to_opposite_edge() {
    let w = 800_000;
    let h = 600_000;
    let mut b = drifting_body(w + 1, 10, 0, 0, ScreenEdgeBehavior::Wrap);
    b.update(0, w, h);
    assert_eq!(b.position.x, 0);
    assert_eq!(b.position.y, 10);

    let mut b = drifting_body(-1, h + 5, 0, 0, ScreenEdgeBehavior::Wrap);
    b.update(0, w, h);
    assert_eq!(b.position.x, w);
    assert_eq!(b.position.y, 0);
    assert!(!b.destroyed);
}

#[test]
fn destroy_policy_flags_bodies_leaving_the_arena() {
    let w = 800_000;
    let h = 600_000;
    let mut outside = drifting_body(w + 1, 10, 0, 0, ScreenEdgeBehavior::Destroy);
    outside.update(0, w, h);
    assert!(outside.destroyed);
    // The position is not clamped.
    assert_eq!(outside.position.x, w + 1);

    let mut inside = drifting_body(w - 1, h - 1, 0, 0, ScreenEdgeBehavior::Destroy);
    inside.update(0, w, h);
    assert!(!inside.destroyed);
    assert_eq!(inside.position.x, w - 1);
}

#[test]
fn bounce_policy_clamps_and_inverts_velocity() {
    let w = 800_000;
    let h = 600_000;
    let mut b = drifting_body(w + 5, -3, 700, -800, ScreenEdgeBehavior::Bounce);
    b.update(0, w, h);
    assert_eq!(b.position.x, w);
    assert_eq!(b.position.y, 0);
    assert_eq!(b.velocity.x, -700);
    assert_eq!(b.velocity.y, 800);
}

#[test]
fn drag_damps_velocity_exactly_once_per_update() {
    let mut b = drifting_body(400_000, 300_000, 100_000, -50_000, ScreenEdgeBehavior::Wrap);
    b.drag_coefficient = 990;
    b.update(0, 800_000, 600_000);
    assert_eq!(b.velocity.x, 99_000);
    assert_eq!(b.velocity.y, -49_500);
    // A dragless body keeps its velocity.
    let mut c = drifting_body(400_000, 300_000, 100_000, -50_000, ScreenEdgeBehavior::Wrap);
    c.update(0, 800_000, 600_000);
    assert_eq!(c.velocity.x, 100_000);
    assert_eq!(c.velocity.y, -50_000);
}

#[test]
fn thrust_points_along_the_heading() {
    let mut b = drifting_body(0, 0, 0, 0, ScreenEdgeBehavior::Wrap);
    b.apply_thrust(300_000);
    assert_eq!(b.acceleration.x, 300_000);
    assert_eq!(b.acceleration.y, 0);

    let mut up = drifting_body(0, 0, 0, 0, ScreenEdgeBehavior::Wrap);
    up.rotation = 900;
    up.apply_thrust(300_000);
    assert_eq!(up.acceleration.x, 0);
    assert_eq!(up.acceleration.y, 300_000);
}

#[test]
fn update_integrates_velocity_then_position_then_clears_acceleration() {
    let mut b = drifting_body(100_000, 100_000, 1_000, 0, ScreenEdgeBehavior::Wrap);
    b.acceleration = Vec2 { x: 2_000, y: 0 };
    // Half a second: velocity gains 1000, position gains the new velocity
    // halved.
    b.update(500, 800_000, 600_000);
    assert_eq!(b.velocity.x, 2_000);
    assert_eq!(b.position.x, 101_000);
    assert_eq!(b.acceleration.x, 0);
    assert_eq!(b.acceleration.y, 0);
}
