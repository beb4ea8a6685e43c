use asteroids::fixed::{Scalar, SCALE};
use asteroids::vector::Vector;
use asteroids::world::WorldState;

fn s(v: i64) -> Scalar {
    Scalar::from_int(v)
}

fn to_f64(x: Scalar) -> f64 {
    x.raw as f64 / SCALE as f64
}

fn vec2(x: i64, y: i64) -> Vector {
    Vector::new(s(x), s(y))
}

#[test]
fn test_asteroid_collision_and_momentum() {
    let mut world = WorldState::new(s(100), s(10));

    let large_size = 1000;
    let small_size = 100;
    let distance_between = 50;

    world.spawn_asteroid(vec2(0, 0), vec2(0, 0), s(large_size));
    world.spawn_asteroid(vec2(distance_between, 0), vec2(0, 0), s(small_size));

    let large_initial_pos = world.asteroids[0].pos();

    world.update(s(100), s(0));

    assert_eq!(world.asteroids.len(), 1, "Asteroids should have merged into one");

    let merged = &world.asteroids[0];

    let final_velocity = merged.vel();
    let velocity_magnitude = to_f64(final_velocity.length());

    assert!(
        velocity_magnitude < 1e-5,
        "Final velocity magnitude should be essentially zero, got {}",
        velocity_magnitude
    );

    let final_pos = merged.pos();
    let distance_from_large = to_f64(final_pos.sub(large_initial_pos).length());

    assert!(
        distance_from_large < distance_between as f64 / 2.0,
        "Final position should be close to larger asteroid, distance: {}",
        distance_from_large
    );

    let expected_size = (large_size + small_size) as f64;
    let size_diff = (to_f64(merged.size()) - expected_size).abs();
    assert!(
        size_diff < 1e-6,
        "Merged asteroid should have combined size within fixed point precision, expected {}, got {}, diff: {}",
        expected_size,
        to_f64(merged.size()),
        size_diff
    );
}
