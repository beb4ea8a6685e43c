use asteroids::fixed::{Scalar, SCALE};
use asteroids::objects::Asteroid;
use asteroids::ship::{sin_cos, Ship, SHIP_MAX_HEALTH_RAW};
use asteroids::vector::Vector;
use asteroids::world::WorldState;

fn s(v: i64) -> Scalar {
    Scalar::from_int(v)
}

fn to_f64(x: Scalar) -> f64 {
    x.raw as f64 / SCALE as f64
}

fn vec2(x: i64, y: i64) -> Vector {
    Vector::new(s(x), s(y))
}

#[test]
fn scalar_arithmetic_exact_values() {
    assert_eq!(s(6).mul(s(7)), s(42));
    assert_eq!(s(10).sub(s(3)), s(7));
    assert_eq!(s(-4).neg(), s(4));
    // 7 / 2 is exactly 3.5 on the fixed-point grid.
    assert_eq!(s(7).div(s(2)).raw, 7 * SCALE / 2);
    // 1 / 3 truncates toward zero at the grid.
    assert_eq!(s(1).div(s(3)).raw, SCALE / 3);
    assert_eq!(s(-1).div(s(3)).raw, -(SCALE / 3));
    // Square roots: a perfect square is exact, sqrt(2) rounds down.
    assert_eq!(s(9).sqrt(), s(3));
    assert_eq!(s(2).sqrt().raw, 3037000499);
}

#[test]
fn scalar_saturates_and_guards() {
    let top = Scalar::from_raw(i64::MAX);
    assert_eq!(top.add(Scalar::from_raw(1)).raw, i64::MAX);
    assert_eq!(Scalar::from_raw(i64::MIN).neg().raw, i64::MAX);
    assert_eq!(Scalar::from_raw(i64::MIN).sub(Scalar::from_raw(1)).raw, i64::MIN);
    // Division by zero and the root of a negative number are defined as zero.
    assert_eq!(s(5).div(s(0)).raw, 0);
    assert_eq!(s(-9).sqrt().raw, 0);
}

#[test]
fn vector_length_and_norm() {
    let v = vec2(3, 4);
    assert_eq!(v.length(), s(5));
    let n = v.norm();
    assert_eq!(n.x.raw, 3 * SCALE / 5);
    assert_eq!(n.y.raw, 4 * SCALE / 5);
    // The zero vector has no direction: its normalization is zero.
    let z = vec2(0, 0);
    assert_eq!(z.norm(), z);
    assert_eq!(vec2(2, 3).dot(vec2(4, 5)), s(23));
}

#[test]
fn merge_conserves_mass_exactly() {
    let a = Asteroid::new(vec2(0, 0), vec2(0, 0), s(1000));
    let b = Asteroid::new(vec2(1, 0), vec2(0, 0), s(100));
    let m = a.merge_with(&b);
    assert_eq!(m.size(), s(1100));
    // Fractional sizes add exactly too.
    let c = Asteroid::new(vec2(0, 0), vec2(0, 0), Scalar::from_raw(3));
    let d = Asteroid::new(vec2(1, 0), vec2(0, 0), Scalar::from_raw(5));
    assert_eq!(c.merge_with(&d).size().raw, 8);
}

#[test]
fn merge_conserves_momentum_exact_case() {
    // Masses 2 and 2, velocities (3,0) and (1,0): momentum 8, merged mass 4,
    // merged velocity exactly (2,0).
    let a = Asteroid::new(vec2(0, 0), vec2(3, 0), s(2));
    let b = Asteroid::new(vec2(10, 0), vec2(1, 0), s(2));
    let m = a.merge_with(&b);
    assert_eq!(m.vel(), vec2(2, 0));
}

#[test]
fn merge_centroid_exact_case() {
    // Masses 2 and 2 at x = 0 and x = 10: the centroid is exactly (5, 0).
    let a = Asteroid::new(vec2(0, 0), vec2(0, 0), s(2));
    let b = Asteroid::new(vec2(10, 0), vec2(0, 0), s(2));
    assert_eq!(a.merge_with(&b).pos(), vec2(5, 0));
    // Masses 3 and 1 at x = 0 and x = 8: centroid exactly (2, 0).
    let c = Asteroid::new(vec2(0, 0), vec2(0, 0), s(3));
    let d = Asteroid::new(vec2(8, 0), vec2(0, 0), s(1));
    assert_eq!(c.merge_with(&d).pos(), vec2(2, 0));
}

#[test]
fn merge_weighted_momentum_within_tolerance() {
    // Uneven masses and velocities: 5·7 + 3·(-2) = 29, total 8; check the
    // merged momentum against the exact value within one part per total mass.
    let a = Asteroid::new(vec2(0, 0), vec2(7, 0), s(5));
    let b = Asteroid::new(vec2(10, 0), vec2(-2, 0), s(3));
    let m = a.merge_with(&b);
    let momentum = to_f64(m.size()) * to_f64(m.vel().x);
    assert!((momentum - 29.0).abs() < 1e-6, "momentum {}", momentum);
}

#[test]
fn zero_distance_pair_merges_without_panic() {
    // Two bodies at the identical position: no gravity is exchanged (the
    // pair is a collision candidate) and the pair merges into one.
    let mut world = WorldState::new(s(100), s(10));
    world.spawn_asteroid(vec2(7, 7), vec2(0, 0), s(1));
    world.spawn_asteroid(vec2(7, 7), vec2(0, 0), s(1));
    world.update(Scalar::from_raw(SCALE / 100 + 1), s(0));
    assert_eq!(world.asteroids.len(), 1);
    assert_eq!(world.asteroids[0].size(), s(2));
    assert_eq!(world.asteroids[0].pos(), vec2(7, 7));
}

#[test]
fn tick_quantization_consumes_whole_ticks() {
    let mut world = WorldState::new(s(100), s(10));
    let dur = Scalar::from_raw(SCALE / 100);

    // A request of 5 ticks plus a sub-tick remainder consumes exactly 5 ticks.
    let request = Scalar::from_raw(5 * dur.raw + 1000);
    let consumed = world.update(request, s(0));
    assert_eq!(consumed.raw, 5 * dur.raw);
    assert_eq!(world.world_time.raw, 5 * dur.raw);

    // A request below one tick consumes nothing.
    let consumed = world.update(Scalar::from_raw(dur.raw - 1), s(0));
    assert_eq!(consumed.raw, 0);
    assert_eq!(world.world_time.raw, 5 * dur.raw);

    // An exact multiple is consumed whole.
    let consumed = world.update(Scalar::from_raw(3 * dur.raw), s(0));
    assert_eq!(consumed.raw, 3 * dur.raw);
    assert_eq!(world.world_time.raw, 8 * dur.raw);
}

#[test]
fn empty_world_center_of_mass_is_zero() {
    let world = WorldState::new(s(100), s(10));
    assert_eq!(world.calculate_center_of_mass(true), vec2(0, 0));
    assert_eq!(world.calculate_center_of_mass(false), vec2(0, 0));
    assert_eq!(world.calculate_mass_std(vec2(0, 0)).raw, 0);
}

#[test]
fn empty_world_update_is_safe() {
    let mut world = WorldState::new(s(100), s(10));
    let consumed = world.update(s(1), s(0));
    assert_eq!(consumed.raw, 100 * (SCALE / 100));
    assert_eq!(world.asteroids.len(), 0);
}

#[test]
fn cleanup_evicts_only_distant_bodies() {
    let mut world = WorldState::new(s(100), s(10));
    // A line of 121 small bodies two units apart, plus one far outlier. The
    // outlier sits beyond ten standard deviations of the distances from the
    // center of mass; the line does not.
    for i in 0..121 {
        world.spawn_asteroid(vec2(2 * i - 120, 0), vec2(0, 0), s(1));
    }
    world.spawn_asteroid(vec2(100000, 0), vec2(0, 0), s(1));
    assert_eq!(world.asteroids.len(), 122);

    world.update(Scalar::from_raw(SCALE / 100 + 1), s(0));

    // Exactly the outlier is gone.
    assert_eq!(world.asteroids.len(), 121);
    for a in &world.asteroids {
        assert!(to_f64(a.pos().x).abs() < 200.0);
    }
}

#[test]
fn orbit_stays_on_circle() {
    // A fixed central body of size 10000 and an orbiter at radius 100 with
    // tangential speed sqrt(10000) = 100: the radius holds over many ticks.
    let central = Asteroid::new(vec2(0, 0), vec2(0, 0), s(10000));
    let others = vec![central];
    let mut orbiter = Asteroid::new(vec2(100, 0), vec2(0, 100), s(1));
    let dt = Scalar::from_raw(SCALE / 100);
    for _ in 0..5000 {
        orbiter.update(&others, dt);
        let r = to_f64(orbiter.pos().length());
        assert!(98.0 < r && r < 102.0, "orbit radius drifted to {}", r);
    }
}

#[test]
fn gravity_is_mutual_between_ship_and_asteroid() {
    let mut ship = Ship::new(vec2(0, 1000));
    let mut asteroids = vec![Asteroid::new(vec2(0, 0), vec2(0, 0), s(100))];
    let dt = Scalar::from_raw(SCALE / 100);
    ship.update(&mut asteroids, dt);
    // The asteroid pulls the ship down; the ship pulls the asteroid up.
    assert!(ship.vel.y.raw < 0);
    assert!(asteroids[0].vel().y.raw > 0);
    // Magnitudes: 100/1000 and 100/1000 per second, for one hundredth of a
    // second.
    assert!((to_f64(ship.vel.y) + 0.001).abs() < 1e-6);
    assert!((to_f64(asteroids[0].vel().y) - 0.001).abs() < 1e-6);
}

#[test]
fn ship_collision_damage_and_impulse() {
    // Ship at rest at the origin; an asteroid of size (mass) 100 overlaps it
    // and approaches at 20 units/s. Damage is (20-10)² · 100/200 = 50, and
    // the restitution impulse of 1.5 · 20 · (100·100/200) = 1500 gives the
    // ship velocity -15 and leaves the asteroid at -5, all exactly.
    let mut ship = Ship::new(vec2(0, 0));
    let mut asteroids = vec![Asteroid::new(vec2(5, 0), vec2(-20, 0), s(100))];
    let dt = Scalar::from_raw(SCALE / 100);
    ship.update(&mut asteroids, dt);

    assert_eq!(ship.health.raw, SHIP_MAX_HEALTH_RAW - 50 * SCALE);
    assert_eq!(ship.vel.x, s(-15));
    assert_eq!(asteroids[0].vel().x, s(-5));
}

#[test]
fn ship_collision_below_threshold_is_harmless() {
    // Relative speed 8 is under the damage threshold of 10: the shapes
    // bounce and separate, but health is untouched.
    let mut ship = Ship::new(vec2(0, 0));
    let mut asteroids = vec![Asteroid::new(vec2(5, 0), vec2(-8, 0), s(100))];
    let dt = Scalar::from_raw(SCALE / 100);
    ship.update(&mut asteroids, dt);
    assert_eq!(ship.health.raw, SHIP_MAX_HEALTH_RAW);
}

#[test]
fn ship_at_zero_distance_is_untouched() {
    // A body exactly on top of the ship has no contact normal: nothing is
    // resolved and nothing panics.
    let mut ship = Ship::new(vec2(3, 3));
    let mut asteroids = vec![Asteroid::new(vec2(3, 3), vec2(0, 0), s(100))];
    let dt = Scalar::from_raw(SCALE / 100);
    ship.update(&mut asteroids, dt);
    assert_eq!(ship.health.raw, SHIP_MAX_HEALTH_RAW);
    assert_eq!(ship.vel, vec2(0, 0));
}

#[test]
fn sin_cos_anchor_values() {
    let (sin0, cos0) = sin_cos(s(0));
    assert_eq!(sin0.raw, 0);
    assert!((to_f64(cos0) - 1.0).abs() < 1e-4);
    let quarter = Scalar::from_raw(asteroids::ship::HALF_PI_RAW);
    let (sin_q, cos_q) = sin_cos(quarter);
    assert!((to_f64(sin_q) - 1.0).abs() < 1e-4);
    assert!(to_f64(cos_q).abs() < 1e-4);
    let pi = Scalar::from_raw(asteroids::objects::PI_RAW);
    let (sin_p, cos_p) = sin_cos(pi);
    assert!(to_f64(sin_p).abs() < 1e-4);
    assert!((to_f64(cos_p) + 1.0).abs() < 1e-4);
}

#[test]
fn apply_control_rotates_and_clamps_engine() {
    let mut ship = Ship::new(vec2(0, 0));
    // Rotate at full stick for half a second: 3 rad/s · 0.5 s = 1.5 rad.
    ship.apply_control(s(0), s(0), s(1), false, false, Scalar::from_raw(SCALE / 2));
    assert_eq!(ship.orientation.raw, 3 * SCALE / 2);
    // Holding the engine up for four seconds saturates power at one.
    ship.apply_control(s(0), s(0), s(0), true, false, s(4));
    assert_eq!(ship.engine_power.raw, SCALE);
    // Holding it down drains it back to zero.
    ship.apply_control(s(0), s(0), s(0), false, true, s(4));
    assert_eq!(ship.engine_power.raw, 0);
}

#[test]
fn apply_control_thrusts_along_heading() {
    let mut ship = Ship::new(vec2(0, 0));
    // Pointing up (orientation 0), forward thrust for one second at
    // 10 units/s²: velocity becomes about (0, -10).
    ship.apply_control(s(1), s(0), s(0), false, false, s(1));
    assert_eq!(ship.vel.x.raw, 0);
    assert!((to_f64(ship.vel.y) + 10.0).abs() < 1e-3);
}

#[test]
fn world_runs_ship_when_placed() {
    let mut world = WorldState::new(s(100), s(10));
    world.set_ship(Ship::new(vec2(0, 1000)));
    world.spawn_asteroid(vec2(0, 0), vec2(0, 0), s(100));
    world.update(Scalar::from_raw(SCALE / 100 + 1), s(0));
    let ship = world.ship.as_ref().unwrap();
    assert!(ship.vel.y.raw < 0, "the ship should be pulled toward the body");
    assert_eq!(world.asteroids.len(), 1);
}

#[test]
fn updates_per_second_diagnostic() {
    let mut world = WorldState::new(s(100), s(10));
    // One simulated second processed, with the wall clock one second past
    // the last refresh: the first tick refreshes the reading to 1 update per
    // 1 wall second.
    world.update(s(1), s(1));
    assert_eq!(world.updates_per_second(), s(1));
    assert_eq!(world.tick_rate(), s(100));
    assert_eq!(world.actual_speed().raw, SCALE / 100);
}

#[test]
fn spawn_appends_bodies_in_order() {
    let mut world = WorldState::new(s(100), s(10));
    world.spawn_asteroid(vec2(1, 2), vec2(3, 4), s(5));
    world.spawn_asteroid(vec2(6, 7), vec2(8, 9), s(10));
    assert_eq!(world.asteroids.len(), 2);
    assert_eq!(world.asteroids[0].pos(), vec2(1, 2));
    assert_eq!(world.asteroids[1].vel(), vec2(8, 9));
    assert_eq!(world.asteroids[1].size(), s(10));
}

#[test]
fn merge_tie_break_is_lowest_pair_index() {
    // Three bodies all overlapping one another: the lowest pair (0,1) merges
    // and body 2 is left out of the merge this tick (it merges with the
    // result on a later tick at the earliest).
    let a = Asteroid::new(vec2(0, 0), vec2(0, 0), s(100));
    let b = Asteroid::new(vec2(1, 0), vec2(0, 0), s(100));
    let c = Asteroid::new(vec2(2, 0), vec2(0, 0), s(100));
    assert!(a.collides_with(&b) && b.collides_with(&c) && a.collides_with(&c));
    let mut world = WorldState::new(s(100), s(10));
    world.spawn_asteroid(vec2(0, 0), vec2(0, 0), s(100));
    world.spawn_asteroid(vec2(1, 0), vec2(0, 0), s(100));
    world.spawn_asteroid(vec2(2, 0), vec2(0, 0), s(100));
    world.check_collisions();
    assert_eq!(world.asteroids.len(), 2);
    // The untouched third body keeps its position; the merged pair follows.
    assert_eq!(world.asteroids[0].pos(), vec2(2, 0));
    assert_eq!(world.asteroids[1].size(), s(200));
}

#[test]
fn radius_follows_size() {
    // radius = sqrt(size/π): for size 10000·π the radius is close to 100.
    let a = Asteroid::new(vec2(0, 0), vec2(0, 0), s(31416));
    let r = to_f64(a.radius());
    assert!((r - 100.0).abs() < 0.01, "radius {}", r);
}
