use asteroids::collision::is_colliding;
use asteroids::collision::point_in_polygon;
use asteroids::fixed::Vec2;
use asteroids::shape::Color;
use asteroids::shape::Shape;

fn v(x: i64, y: i64) -> Vec2 {
    Vec2 { x, y }
}

fn closed_square() -> Vec<Vec2> {
    vec![v(0, 0), v(10_000, 0), v(10_000, 10_000), v(0, 10_000), v(0, 0)]
}

#[test]
fn point_at_square_center_is_inside() {
    assert!(point_in_polygon(&v(5_000, 5_000), &closed_square()));
}

#[test]
fn point_far_outside_square_is_outside() {
    assert!(!point_in_polygon(&v(50_000, 50_000), &closed_square()));
    assert!(!point_in_polygon(&v(-50_000, 5_000), &closed_square()));
    assert!(!point_in_polygon(&v(5_000, -50_000), &closed_square()));
}

#[test]
fn point_left_of_square_is_outside() {
    // To the left at an inside height: the ray crosses both vertical
    // edges, an even count.
    assert!(!point_in_polygon(&v(-5_000, 5_000), &closed_square()));
}

#[test]
fn polygon_overlap_needs_a_contained_vertex() {
    let square = closed_square();
    let inside_line = vec![v(2_000, 2_000), v(4_000, 2_000)];
    let outside_line = vec![v(20_000, 2_000), v(40_000, 2_000)];
    assert!(is_colliding(&inside_line, &square));
    assert!(!is_colliding(&outside_line, &square));
}

#[test]
fn transform_translates_then_rotates_about_the_center() {
    let shape = Shape {
        points: vec![v(1_000, 0), v(0, 2_000)],
        color: Color { red: 255, green: 255, blue: 255, alpha: 255 },
        thickness: 2_000,
    };
    // A quarter turn about the world center: the local x axis turns into
    // the world y axis.
    let placed = shape.transform(v(10_000, 10_000), 900);
    assert_eq!(placed.len(), 2);
    assert_eq!(placed[0], v(10_000, 11_000));
    assert_eq!(placed[1], v(8_000, 10_000));
    // No rotation leaves a pure translation.
    let still = shape.transform(v(10_000, 10_000), 0);
    assert_eq!(still[0], v(11_000, 10_000));
    assert_eq!(still[1], v(10_000, 12_000));
}

#[test]
fn placed_shapes_collide_when_a_vertex_falls_inside() {
    let square = Shape {
        points: closed_square(),
        color: Color { red: 255, green: 255, blue: 255, alpha: 255 },
        thickness: 2_000,
    };
    let dot = Shape {
        points: vec![v(0, 0), v(1_000, 0)],
        color: Color { red: 255, green: 255, blue: 255, alpha: 255 },
        thickness: 2_000,
    };
    // The square is placed around (100000, 100000); the line's points land
    // inside it.
    assert!(square.collides_with(v(95_000, 95_000), 0, &dot, v(100_000, 100_000), 0));
    // Far away, no vertex falls inside.
    assert!(!square.collides_with(v(95_000, 95_000), 0, &dot, v(300_000, 300_000), 0));
}
