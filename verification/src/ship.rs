//! The player ship: a controllable mass-point.
//!
//! The ship has a fixed radius and a fixed mass. Per tick it is attracted by
//! every non-overlapping asteroid exactly as asteroids attract each other,
//! and its own gravity reciprocally perturbs those asteroids. Overlapping
//! asteroids bounce off it with a restitution-based impulse (reduced-mass
//! formula), the two shapes are separated in proportion to their masses, and
//! the ship takes damage when the relative speed at contact exceeds a
//! threshold: damage grows with the square of the speed surplus, scaled by
//! the asteroid's share of the colliding pair's total mass. The asymmetry is
//! deliberate: asteroids never merge with or consume the ship.
//!
//! Steering needs a heading vector, so this module also defines the
//! simulation's own deterministic sine and cosine: a ninth-degree polynomial
//! on the first quarter turn, extended by symmetry. The contracts fix that
//! approximation exactly; no floating-point trigonometry is involved.

use crate::fixed::{
    div_trunc, fx_add, fx_div, fx_mul, fx_neg, fx_sub, lemma_div_trunc_bounds,
    lemma_div_trunc_close, Scalar, SCALE,
};
use crate::objects::{
    lemma_sizes_positive_drop_last, lemma_sizes_positive_push, radius_of, sizes_positive, Asteroid,
    AsteroidV, PI_RAW,
};
use crate::vector::{v_add, v_div, v_dot, v_len, v_neg, v_norm, v_scale, v_sub, Vec2i, Vector};
use vstd::pervasive::VecAdditionalExecFns;
use vstd::prelude::*;

verus! {

/// Thruster acceleration (10 units/s²), raw.
pub const RCS_ACCELERATION_RAW: i64 = 21474836480;

/// Main engine acceleration at full power (1000 units/s²), raw.
pub const MAIN_ENGINE_ACCELERATION_RAW: i64 = 2147483648000;

/// Engine power change per second of held control (0.5/s), raw.
pub const ENGINE_POWER_CHANGE_RATE_RAW: i64 = 1073741824;

/// Rotation speed (3 radians/s), raw.
pub const SHIP_ROTATION_SPEED_RAW: i64 = 6442450944;

/// The ship's fixed collision radius (10 units), raw.
pub const SHIP_RADIUS_RAW: i64 = 21474836480;

/// The ship's fixed mass (100 units), raw.
pub const SHIP_MASS_RAW: i64 = 214748364800;

/// Full health (10000 units), raw.
pub const SHIP_MAX_HEALTH_RAW: i64 = 21474836480000;

/// Relative speed below which a collision does no damage (10 units/s), raw.
pub const COLLISION_DAMAGE_THRESHOLD_RAW: i64 = 21474836480;

/// `-(1 + restitution)` with the default restitution of 0.5, raw.
pub const NEG_ONE_PLUS_RESTITUTION_RAW: i64 = -3221225472;

/// π/2 radians, raw.
pub const HALF_PI_RAW: i64 = 3373259426;

/// 3π/2 radians, raw.
pub const THREE_HALF_PI_RAW: i64 = 10119778278;

/// 2π radians, raw.
pub const TWO_PI_RAW: i64 = 13493037704;

/// The mathematical image of a [`Ship`].
pub struct ShipV {
    pub pos: Vec2i,
    pub vel: Vec2i,
    pub orientation: int,
    pub health: int,
    pub engine_power: int,
}

/// An angle folded into `[0, 2π)` raw radians.
pub open spec fn angle_reduced(x: int) -> int {
    let r = x - div_trunc(x, TWO_PI_RAW as int) * (TWO_PI_RAW as int);
    if r < 0 {
        r + TWO_PI_RAW as int
    } else {
        r
    }
}

/// The simulation's sine on the first quarter turn: the degree-9 Taylor
/// polynomial `x - x³/6 + x⁵/120 - x⁷/5040 + x⁹/362880` in fixed point.
pub open spec fn sin_quarter_s(x: int) -> int {
    let x2 = fx_mul(x, x);
    let x3 = fx_mul(x2, x);
    let x5 = fx_mul(x3, x2);
    let x7 = fx_mul(x5, x2);
    let x9 = fx_mul(x7, x2);
    fx_add(
        fx_sub(fx_add(fx_sub(x, fx_div(x3, 6 * (SCALE as int))), fx_div(x5, 120 * (SCALE as int))),
            fx_div(x7, 5040 * (SCALE as int))),
        fx_div(x9, 362880 * (SCALE as int)),
    )
}

/// The simulation's sine: quarter-turn polynomial extended by symmetry.
pub open spec fn sin_s(x: int) -> int {
    let r = angle_reduced(x);
    if r < HALF_PI_RAW as int {
        sin_quarter_s(r)
    } else if r < PI_RAW as int {
        sin_quarter_s(PI_RAW as int - r)
    } else if r < THREE_HALF_PI_RAW as int {
        fx_neg(sin_quarter_s(r - PI_RAW as int))
    } else {
        fx_neg(sin_quarter_s(TWO_PI_RAW as int - r))
    }
}

/// The simulation's cosine: the sine's co-function, by the same symmetry.
pub open spec fn cos_s(x: int) -> int {
    let r = angle_reduced(x);
    if r < HALF_PI_RAW as int {
        sin_quarter_s(HALF_PI_RAW as int - r)
    } else if r < PI_RAW as int {
        fx_neg(sin_quarter_s(r - HALF_PI_RAW as int))
    } else if r < THREE_HALF_PI_RAW as int {
        fx_neg(sin_quarter_s(THREE_HALF_PI_RAW as int - r))
    } else {
        sin_quarter_s(r - THREE_HALF_PI_RAW as int)
    }
}

/// Engine power clamped to `[0, 1]`.
pub open spec fn clamp01(x: int) -> int {
    if x < 0 {
        0
    } else if x > SCALE as int {
        SCALE as int
    } else {
        x
    }
}

/// The ship after one control step: rotate, adjust engine power, then thrust
/// along the (new) heading — thrusters forward and sideways, main engine
/// always forward.
pub open spec fn controlled(
    ship: ShipV,
    rcs_forward: int,
    rcs_strafe: int,
    rotate: int,
    engine_increase: bool,
    engine_decrease: bool,
    dt: int,
) -> ShipV {
    let orientation = fx_add(
        ship.orientation,
        fx_mul(fx_mul(rotate, SHIP_ROTATION_SPEED_RAW as int), dt),
    );
    let raised = if engine_increase {
        fx_add(ship.engine_power, fx_mul(ENGINE_POWER_CHANGE_RATE_RAW as int, dt))
    } else {
        ship.engine_power
    };
    let lowered = if engine_decrease {
        fx_sub(raised, fx_mul(ENGINE_POWER_CHANGE_RATE_RAW as int, dt))
    } else {
        raised
    };
    let engine_power = clamp01(lowered);
    let sin = sin_s(orientation);
    let cos = cos_s(orientation);
    let forward = Vec2i { x: sin, y: fx_neg(cos) };
    let sideways = Vec2i { x: cos, y: sin };
    let forward_acc = v_scale(v_scale(forward, rcs_forward), RCS_ACCELERATION_RAW as int);
    let strafe_acc = v_scale(v_scale(sideways, rcs_strafe), RCS_ACCELERATION_RAW as int);
    let main_acc = v_scale(v_scale(forward, engine_power), MAIN_ENGINE_ACCELERATION_RAW as int);
    let vel = v_add(ship.vel, v_scale(v_add(v_add(forward_acc, strafe_acc), main_acc), dt));
    ShipV { vel, orientation, engine_power, ..ship }
}

/// First pass of a ship tick, over a prefix of the body list: asteroids keep
/// their order; each one overlapping the ship is recorded as a collision (by
/// index) and left alone, while each other one pulls the ship (accumulated
/// acceleration) and is reciprocally pulled by it (velocity nudge applied
/// immediately). Returns the nudged asteroids, the accumulated acceleration
/// on the ship, and the collision indices in ascending order.
pub open spec fn ship_phase1(ship: ShipV, asts: Seq<AsteroidV>, dt: int) -> (
    Seq<AsteroidV>,
    Vec2i,
    Seq<int>,
)
    decreases asts.len(),
{
    if asts.len() == 0 {
        (Seq::<AsteroidV>::empty(), Vec2i { x: 0, y: 0 }, Seq::<int>::empty())
    } else {
        let (prev, acc, cols) = ship_phase1(ship, asts.drop_last(), dt);
        let i = asts.len() - 1;
        let a = asts.last();
        let direction = v_sub(a.pos, ship.pos);
        let distance = v_len(direction);
        if distance <= fx_add(SHIP_RADIUS_RAW as int, radius_of(a.size)) {
            (prev.push(a), acc, cols.push(i))
        } else {
            let acc2 = v_add(acc, v_scale(v_norm(direction), fx_div(a.size, distance)));
            let dv = v_scale(
                v_scale(v_neg(v_norm(direction)), fx_div(SHIP_MASS_RAW as int, distance)),
                dt,
            );
            (prev.push(AsteroidV { vel: v_add(a.vel, dv), ..a }), acc2, cols)
        }
    }
}

/// Resolution of one recorded ship–asteroid collision. The contact normal
/// and distance are those measured before any resolution ran (from `orig`
/// and `ship0`); the asteroid's current state is read from `asts`. At
/// distance zero nothing is done (no direction to push along). Otherwise:
/// damage if the relative speed exceeds the threshold, positional separation
/// in proportion to the masses if the shapes still overlap, and a
/// restitution impulse by the reduced-mass formula — applied to the asteroid
/// at once, and to the ship through the accumulated `vd`.
pub open spec fn collision_step(
    ship0: ShipV,
    orig: Seq<AsteroidV>,
    i: int,
    asts: Seq<AsteroidV>,
    ship_pos: Vec2i,
    health: int,
    vd: Vec2i,
) -> (Seq<AsteroidV>, Vec2i, int, Vec2i) {
    if 0 <= i < asts.len() && i < orig.len() {
        let a = asts[i];
        let direction = v_sub(orig[i].pos, ship0.pos);
        let distance = v_len(direction);
        if distance > 0 {
            let overlap = fx_sub(fx_add(SHIP_RADIUS_RAW as int, radius_of(a.size)), distance);
            let normal = v_norm(direction);
            let total_mass = fx_add(SHIP_MASS_RAW as int, a.size);
            let rel_vel = v_sub(a.vel, ship0.vel);
            let rel_mag = v_len(rel_vel);
            let rel_along = v_dot(rel_vel, normal);
            let health2 = if rel_mag > COLLISION_DAMAGE_THRESHOLD_RAW as int {
                let surplus = fx_sub(rel_mag, COLLISION_DAMAGE_THRESHOLD_RAW as int);
                fx_sub(health, fx_div(fx_mul(fx_mul(surplus, surplus), a.size), total_mass))
            } else {
                health
            };
            let ship_pos2 = if overlap > 0 {
                v_sub(ship_pos, v_scale(v_scale(normal, overlap), fx_div(a.size, total_mass)))
            } else {
                ship_pos
            };
            let a_pos2 = if overlap > 0 {
                v_add(
                    a.pos,
                    v_scale(v_scale(normal, overlap), fx_div(SHIP_MASS_RAW as int, total_mass)),
                )
            } else {
                a.pos
            };
            let impulse_magnitude = fx_div(
                fx_mul(
                    fx_mul(NEG_ONE_PLUS_RESTITUTION_RAW as int, rel_along),
                    fx_mul(SHIP_MASS_RAW as int, a.size),
                ),
                total_mass,
            );
            let impulse = v_scale(normal, impulse_magnitude);
            let vd2 = v_sub(vd, v_div(impulse, SHIP_MASS_RAW as int));
            let a_vel2 = v_add(a.vel, v_div(impulse, a.size));
            (asts.update(i, AsteroidV { pos: a_pos2, vel: a_vel2, size: a.size }),
            ship_pos2,
            health2,
            vd2)
        } else {
            (asts, ship_pos, health, vd)
        }
    } else {
        (asts, ship_pos, health, vd)
    }
}

/// Second pass of a ship tick: the recorded collisions resolved in order.
/// Ship velocity changes accumulate in `vd` and are applied only after the
/// pass, so simultaneous collisions resolve independently of one another.
pub open spec fn ship_phase2(
    ship0: ShipV,
    orig: Seq<AsteroidV>,
    cols: Seq<int>,
    asts: Seq<AsteroidV>,
    ship_pos: Vec2i,
    health: int,
    vd: Vec2i,
) -> (Seq<AsteroidV>, Vec2i, int, Vec2i)
    decreases cols.len(),
{
    if cols.len() == 0 {
        (asts, ship_pos, health, vd)
    } else {
        let (a1, p1, h1, v1) = ship_phase2(ship0, orig, cols.drop_last(), asts, ship_pos, health, vd);
        collision_step(ship0, orig, cols.last(), a1, p1, h1, v1)
    }
}

/// One full ship tick: gravity pass, collision pass, then the accumulated
/// velocity changes and the semi-implicit Euler step `v += a·dt; p += v·dt`.
pub open spec fn ship_updated(ship: ShipV, asts: Seq<AsteroidV>, dt: int) -> (ShipV, Seq<AsteroidV>) {
    let (asts1, acc, cols) = ship_phase1(ship, asts, dt);
    let (asts2, pos1, health, vd) = ship_phase2(
        ship,
        asts,
        cols,
        asts1,
        ship.pos,
        ship.health,
        Vec2i { x: 0, y: 0 },
    );
    let vel = v_add(v_add(ship.vel, vd), v_scale(acc, dt));
    let pos = v_add(pos1, v_scale(vel, dt));
    (ShipV { pos, vel, health, ..ship }, asts2)
}

/// The stored record of one overlap in the first pass: the asteroid's index
/// and the contact direction and distance, measured before any resolution.
spec fn collision_entry_ok(
    e: (usize, Vector, Scalar),
    idx: int,
    orig: Seq<AsteroidV>,
    ship: ShipV,
) -> bool {
    &&& e.0 as int == idx
    &&& 0 <= idx < orig.len()
    &&& e.1@ == v_sub(orig[idx].pos, ship.pos)
    &&& e.2@ == v_len(v_sub(orig[idx].pos, ship.pos))
}

/// How the first pass grows by one asteroid.
proof fn lemma_phase1_unfold(ship: ShipV, orig: Seq<AsteroidV>, i: int, dt: int)
    requires
        0 <= i < orig.len(),
    ensures
        ({
            let p1 = ship_phase1(ship, orig.take(i), dt);
            let p2 = ship_phase1(ship, orig.take(i + 1), dt);
            let a = orig[i];
            let direction = v_sub(a.pos, ship.pos);
            let distance = v_len(direction);
            if distance <= fx_add(SHIP_RADIUS_RAW as int, radius_of(a.size)) {
                p2 == (p1.0.push(a), p1.1, p1.2.push(i))
            } else {
                let acc2 = v_add(p1.1, v_scale(v_norm(direction), fx_div(a.size, distance)));
                let dv = v_scale(
                    v_scale(v_neg(v_norm(direction)), fx_div(SHIP_MASS_RAW as int, distance)),
                    dt,
                );
                p2 == (p1.0.push(AsteroidV { vel: v_add(a.vel, dv), ..a }), acc2, p1.2)
            }
        }),
{
    assert(orig.take(i + 1).drop_last() =~= orig.take(i));
    assert(orig.take(i + 1).last() == orig[i]);
}

/// The ship's gravity pass only nudges velocities: sizes stay positive.
proof fn lemma_phase1_sizes(ship: ShipV, asts: Seq<AsteroidV>, dt: int)
    requires
        sizes_positive(asts),
    ensures
        sizes_positive(ship_phase1(ship, asts, dt).0),
    decreases asts.len(),
{
    if asts.len() > 0 {
        lemma_sizes_positive_drop_last(asts);
        lemma_phase1_sizes(ship, asts.drop_last(), dt);
        let a = asts.last();
        let prev = ship_phase1(ship, asts.drop_last(), dt).0;
        let direction = v_sub(a.pos, ship.pos);
        let distance = v_len(direction);
        if distance <= fx_add(SHIP_RADIUS_RAW as int, radius_of(a.size)) {
            lemma_sizes_positive_push(prev, a);
        } else {
            let dv = v_scale(
                v_scale(v_neg(v_norm(direction)), fx_div(SHIP_MASS_RAW as int, distance)),
                dt,
            );
            lemma_sizes_positive_push(prev, AsteroidV { vel: v_add(a.vel, dv), ..a });
        }
    }
}

/// Resolving one ship collision keeps the struck body's size.
proof fn lemma_collision_step_sizes(
    ship0: ShipV,
    orig: Seq<AsteroidV>,
    i: int,
    asts: Seq<AsteroidV>,
    ship_pos: Vec2i,
    health: int,
    vd: Vec2i,
)
    requires
        sizes_positive(asts),
    ensures
        sizes_positive(collision_step(ship0, orig, i, asts, ship_pos, health, vd).0),
{
    if 0 <= i < asts.len() && i < orig.len() {
        let out = collision_step(ship0, orig, i, asts, ship_pos, health, vd).0;
        if out != asts {
            assert(asts[i].size > 0);
            assert forall|k: int| 0 <= k < out.len() implies #[trigger] out[k].size > 0 by {
                if k != i {
                    assert(out[k] == asts[k]);
                }
            }
        }
    }
}

/// The ship's collision pass keeps every size positive.
proof fn lemma_phase2_sizes(
    ship0: ShipV,
    orig: Seq<AsteroidV>,
    cols: Seq<int>,
    asts: Seq<AsteroidV>,
    ship_pos: Vec2i,
    health: int,
    vd: Vec2i,
)
    requires
        sizes_positive(asts),
    ensures
        sizes_positive(ship_phase2(ship0, orig, cols, asts, ship_pos, health, vd).0),
    decreases cols.len(),
{
    if cols.len() > 0 {
        lemma_phase2_sizes(ship0, orig, cols.drop_last(), asts, ship_pos, health, vd);
        let (a1, p1, h1, v1) = ship_phase2(
            ship0,
            orig,
            cols.drop_last(),
            asts,
            ship_pos,
            health,
            vd,
        );
        lemma_collision_step_sizes(ship0, orig, cols.last(), a1, p1, h1, v1);
    }
}

/// A whole ship tick keeps every asteroid's size positive: gravity and
/// impulses touch velocities and positions only.
pub proof fn lemma_ship_updated_sizes(ship: ShipV, asts: Seq<AsteroidV>, dt: int)
    requires
        sizes_positive(asts),
    ensures
        sizes_positive(ship_updated(ship, asts, dt).1),
{
    lemma_phase1_sizes(ship, asts, dt);
    let (asts1, acc, cols) = ship_phase1(ship, asts, dt);
    lemma_phase2_sizes(ship, asts, cols, asts1, ship.pos, ship.health, Vec2i { x: 0, y: 0 });
}

/// The controllable ship.
#[derive(Clone, Copy, PartialEq, Eq, Structural, Debug)]
pub struct Ship {
    pub pos: Vector,
    pub vel: Vector,
    pub orientation: Scalar,
    pub health: Scalar,
    pub engine_power: Scalar,
}

impl View for Ship {
    type V = ShipV;

    open spec fn view(&self) -> ShipV {
        ShipV {
            pos: self.pos@,
            vel: self.vel@,
            orientation: self.orientation@,
            health: self.health@,
            engine_power: self.engine_power@,
        }
    }
}

/// Fold an angle into `[0, 2π)`.
fn angle_reduce(theta: Scalar) -> (r: Scalar)
    ensures
        r@ == angle_reduced(theta@),
        0 <= r@ < TWO_PI_RAW as int,
{
    proof {
        lemma_div_trunc_bounds(theta.raw as int, TWO_PI_RAW as int);
        lemma_div_trunc_close(theta.raw as int, TWO_PI_RAW as int);
    }
    let q: i128 = match (theta.raw as i128).checked_div(TWO_PI_RAW as i128) {
        Some(q) => q,
        None => 0,
    };
    let r0: i128 = theta.raw as i128 - q * (TWO_PI_RAW as i128);
    let r1: i64 = if r0 < 0 {
        (r0 + TWO_PI_RAW as i128) as i64
    } else {
        r0 as i64
    };
    Scalar { raw: r1 }
}

/// Quarter-turn sine polynomial.
fn sin_quarter(x: Scalar) -> (r: Scalar)
    ensures
        r@ == sin_quarter_s(x@),
{
    let x2 = x.mul(x);
    let x3 = x2.mul(x);
    let x5 = x3.mul(x2);
    let x7 = x5.mul(x2);
    let x9 = x7.mul(x2);
    x.sub(x3.div(Scalar::from_int(6))).add(x5.div(Scalar::from_int(120))).sub(
        x7.div(Scalar::from_int(5040)),
    ).add(x9.div(Scalar::from_int(362880)))
}

/// The simulation's sine and cosine of an angle in raw radians.
pub fn sin_cos(theta: Scalar) -> (r: (Scalar, Scalar))
    ensures
        r.0@ == sin_s(theta@),
        r.1@ == cos_s(theta@),
{
    let r = angle_reduce(theta);
    if r.raw < HALF_PI_RAW {
        (sin_quarter(r), sin_quarter(Scalar { raw: HALF_PI_RAW - r.raw }))
    } else if r.raw < PI_RAW {
        (
            sin_quarter(Scalar { raw: PI_RAW - r.raw }),
            sin_quarter(Scalar { raw: r.raw - HALF_PI_RAW }).neg(),
        )
    } else if r.raw < THREE_HALF_PI_RAW {
        (
            sin_quarter(Scalar { raw: r.raw - PI_RAW }).neg(),
            sin_quarter(Scalar { raw: THREE_HALF_PI_RAW - r.raw }).neg(),
        )
    } else {
        (
            sin_quarter(Scalar { raw: TWO_PI_RAW - r.raw }).neg(),
            sin_quarter(Scalar { raw: r.raw - THREE_HALF_PI_RAW }),
        )
    }
}

impl Ship {
    /// A fresh ship at the given position: at rest, pointing up, at full
    /// health, engine off.
    pub fn new(pos: Vector) -> (r: Ship)
        ensures
            r@ == (ShipV {
                pos: pos@,
                vel: Vec2i { x: 0, y: 0 },
                orientation: 0,
                health: SHIP_MAX_HEALTH_RAW as int,
                engine_power: 0,
            }),
    {
        Ship {
            pos,
            vel: Vector::zero(),
            orientation: Scalar::zero(),
            health: Scalar { raw: SHIP_MAX_HEALTH_RAW },
            engine_power: Scalar::zero(),
        }
    }

    /// The ship's fixed collision radius.
    pub fn radius(&self) -> (r: Scalar)
        ensures
            r@ == SHIP_RADIUS_RAW as int,
    {
        Scalar { raw: SHIP_RADIUS_RAW }
    }

    /// The ship's fixed mass.
    pub fn mass(&self) -> (r: Scalar)
        ensures
            r@ == SHIP_MASS_RAW as int,
    {
        Scalar { raw: SHIP_MASS_RAW }
    }

    /// One ship tick against the body list: mutual gravity with every
    /// non-overlapping asteroid, then resolution of every overlap (damage,
    /// separation, restitution impulse), then the ship's own Euler step.
    #[verifier::rlimit(100)]
    pub fn update(&mut self, asteroids: &mut Vec<Asteroid>, dt: Scalar)
        ensures
            final(self)@ == ship_updated(old(self)@, old(asteroids).deep_view(), dt@).0,
            final(asteroids).deep_view() == ship_updated(
                old(self)@,
                old(asteroids).deep_view(),
                dt@,
            ).1,
    {
        let ghost ship0 = self@;
        let ghost orig = asteroids.deep_view();

        let mut acc = Vector::zero();
        let mut collision_data: Vec<(usize, Vector, Scalar)> = Vec::new();

        let mut i: usize = 0;
        while i < asteroids.len()
            invariant
                *self == *old(self),
                ship0 == old(self)@,
                orig == old(asteroids).deep_view(),
                orig.len() == old(asteroids)@.len(),
                i <= asteroids.len(),
                asteroids.len() == orig.len(),
                ship_phase1(ship0, orig.take(i as int), dt@).0.len() == i as int,
                asteroids.deep_view() == ship_phase1(ship0, orig.take(i as int), dt@).0 + orig.skip(
                    i as int,
                ),
                acc@ == ship_phase1(ship0, orig.take(i as int), dt@).1,
                collision_data@.len() == ship_phase1(ship0, orig.take(i as int), dt@).2.len(),
                forall|j: int|
                    #![trigger collision_data@[j]]
                    0 <= j < collision_data@.len() ==> collision_entry_ok(
                        collision_data@[j],
                        ship_phase1(ship0, orig.take(i as int), dt@).2[j],
                        orig,
                        ship0,
                    ),
            decreases asteroids.len() - i,
        {
            let ghost pre = asteroids.deep_view();
            let ghost pre_cd = collision_data@;
            let a = asteroids[i];
            proof {
                assert(pre[i as int] == orig[i as int]);
            }
            let direction = a.pos().sub(self.pos);
            let distance = direction.length();
            let touch = self.radius().add(a.radius());
            if distance.le(touch) {
                collision_data.push((i, direction, distance));
            } else {
                let force_magnitude = a.size().div(distance);
                acc = acc.add(direction.norm().mul(force_magnitude));
                let ship_force_magnitude = self.mass().div(distance);
                let ship_force = direction.norm().neg().mul(ship_force_magnitude);
                let a2 = Asteroid { vel: a.vel().add(ship_force.mul(dt)), ..a };
                asteroids.set(i, a2);
                proof {
                    assert(asteroids.deep_view() =~= pre.update(i as int, a2@));
                }
            }
            proof {
                lemma_phase1_unfold(ship0, orig, i as int, dt@);
                assert(asteroids.deep_view() =~= ship_phase1(ship0, orig.take(i as int + 1), dt@).0
                    + orig.skip(i as int + 1));
                let c1 = ship_phase1(ship0, orig.take(i as int), dt@).2;
                let c2 = ship_phase1(ship0, orig.take(i as int + 1), dt@).2;
                assert forall|j: int|
                    #![trigger collision_data@[j]]
                    0 <= j < collision_data@.len() implies collision_entry_ok(
                    collision_data@[j],
                    c2[j],
                    orig,
                    ship0,
                ) by {
                    if j < pre_cd.len() {
                        assert(collision_data@[j] == pre_cd[j]);
                        assert(collision_entry_ok(pre_cd[j], c1[j], orig, ship0));
                        assert(c2[j] == c1[j]);
                    } else {
                        assert(collision_data@[j] == (i, direction, distance));
                        assert(c2[j] == i as int);
                    }
                }
            }
            i = i + 1;
        }
        proof {
            assert(orig.take(orig.len() as int) =~= orig);
            assert(asteroids.deep_view() =~= ship_phase1(ship0, orig, dt@).0 + orig.skip(
                orig.len() as int,
            ));
            assert(asteroids.deep_view() =~= ship_phase1(ship0, orig, dt@).0);
        }
        let ghost asts1 = ship_phase1(ship0, orig, dt@).0;
        let ghost cols = ship_phase1(ship0, orig, dt@).2;
        proof {
            assert(ship_phase1(ship0, orig.take(i as int), dt@) == ship_phase1(ship0, orig, dt@));
            assert forall|j: int|
                #![trigger collision_data@[j]]
                0 <= j < collision_data@.len() implies collision_entry_ok(
                collision_data@[j],
                cols[j],
                orig,
                ship0,
            ) by {
                assert(collision_entry_ok(
                    collision_data@[j],
                    ship_phase1(ship0, orig.take(i as int), dt@).2[j],
                    orig,
                    ship0,
                ));
            }
        }

        let mut ship_vel_delta = Vector::zero();
        let mut k: usize = 0;
        while k < collision_data.len()
            invariant
                ship0 == old(self)@,
                orig == old(asteroids).deep_view(),
                asts1 == ship_phase1(ship0, orig, dt@).0,
                cols == ship_phase1(ship0, orig, dt@).2,
                k <= collision_data.len(),
                collision_data@.len() == cols.len(),
                forall|j: int|
                    #![trigger collision_data@[j]]
                    0 <= j < collision_data@.len() ==> collision_entry_ok(
                        collision_data@[j],
                        cols[j],
                        orig,
                        ship0,
                    ),
                asteroids.len() == orig.len(),
                ({
                    let st = ship_phase2(
                        ship0,
                        orig,
                        cols.take(k as int),
                        asts1,
                        ship0.pos,
                        ship0.health,
                        Vec2i { x: 0, y: 0 },
                    );
                    &&& asteroids.deep_view() == st.0
                    &&& self@.pos == st.1
                    &&& self@.health == st.2
                    &&& ship_vel_delta@ == st.3
                }),
                self@.vel == ship0.vel,
                self@.orientation == ship0.orientation,
                self@.engine_power == ship0.engine_power,
            decreases collision_data.len() - k,
        {
            let ghost pre = asteroids.deep_view();
            let entry = collision_data[k];
            proof {
                assert(collision_entry_ok(entry, cols[k as int], orig, ship0));
            }
            let index = entry.0;
            let direction = entry.1;
            let distance = entry.2;
            let a = asteroids[index];
            if distance.raw > 0 {
                let overlap = self.radius().add(a.radius()).sub(distance);
                let normal = direction.norm();
                let asteroid_mass = a.size();
                let total_mass = self.mass().add(asteroid_mass);

                let relative_vel = a.vel().sub(self.vel);
                let relative_vel_magnitude = relative_vel.length();
                let rel_vel_along_normal = relative_vel.dot(normal);

                if relative_vel_magnitude.raw > COLLISION_DAMAGE_THRESHOLD_RAW {
                    let surplus = relative_vel_magnitude.sub(
                        Scalar { raw: COLLISION_DAMAGE_THRESHOLD_RAW },
                    );
                    self.health = self.health.sub(
                        surplus.mul(surplus).mul(asteroid_mass).div(total_mass),
                    );
                }

                let mut a2 = a;
                if overlap.raw > 0 {
                    let ship_mass_ratio = self.mass().div(total_mass);
                    let asteroid_mass_ratio = asteroid_mass.div(total_mass);
                    self.pos = self.pos.sub(normal.mul(overlap).mul(asteroid_mass_ratio));
                    a2 = Asteroid { pos: a2.pos.add(normal.mul(overlap).mul(ship_mass_ratio)), ..a2 };
                }

                let impulse_magnitude = Scalar { raw: NEG_ONE_PLUS_RESTITUTION_RAW }.mul(
                    rel_vel_along_normal,
                ).mul(self.mass().mul(asteroid_mass)).div(total_mass);
                let impulse = normal.mul(impulse_magnitude);
                ship_vel_delta = ship_vel_delta.sub(impulse.div(self.mass()));
                a2 = Asteroid { vel: a2.vel.add(impulse.div(asteroid_mass)), ..a2 };
                asteroids.set(index, a2);
                proof {
                    assert(asteroids.deep_view() =~= pre.update(index as int, a2@));
                }
            }
            proof {
                assert(cols.take(k as int + 1).drop_last() =~= cols.take(k as int));
                assert(cols.take(k as int + 1).last() == cols[k as int]);
            }
            k = k + 1;
        }
        proof {
            assert(cols.take(cols.len() as int) =~= cols);
        }

        self.vel = self.vel.add(ship_vel_delta);
        self.vel = self.vel.add(acc.mul(dt));
        self.pos = self.pos.add(self.vel.mul(dt));
    }
    /// Apply one step of player control: rotation, engine power changes, and
    /// thrust along the resulting heading.
    pub fn apply_control(
        &mut self,
        rcs_forward: Scalar,
        rcs_strafe: Scalar,
        rotate: Scalar,
        engine_increase: bool,
        engine_decrease: bool,
        dt: Scalar,
    )
        ensures
            final(self)@ == controlled(
                old(self)@,
                rcs_forward@,
                rcs_strafe@,
                rotate@,
                engine_increase,
                engine_decrease,
                dt@,
            ),
    {
        self.orientation = self.orientation.add(
            rotate.mul(Scalar { raw: SHIP_ROTATION_SPEED_RAW }).mul(dt),
        );

        if engine_increase {
            self.engine_power = self.engine_power.add(
                Scalar { raw: ENGINE_POWER_CHANGE_RATE_RAW }.mul(dt),
            );
        }
        if engine_decrease {
            self.engine_power = self.engine_power.sub(
                Scalar { raw: ENGINE_POWER_CHANGE_RATE_RAW }.mul(dt),
            );
        }
        if self.engine_power.raw < 0 {
            self.engine_power = Scalar::zero();
        } else if self.engine_power.raw > SCALE {
            self.engine_power = Scalar::one();
        }

        let (sin_angle, cos_angle) = sin_cos(self.orientation);
        let forward = Vector { x: sin_angle, y: cos_angle.neg() };
        let sideways = Vector { x: cos_angle, y: sin_angle };

        let rcs_forward_acc = forward.mul(rcs_forward).mul(Scalar { raw: RCS_ACCELERATION_RAW });
        let rcs_strafe_acc = sideways.mul(rcs_strafe).mul(Scalar { raw: RCS_ACCELERATION_RAW });
        let main_engine_acc = forward.mul(self.engine_power).mul(
            Scalar { raw: MAIN_ENGINE_ACCELERATION_RAW },
        );

        self.vel = self.vel.add(rcs_forward_acc.add(rcs_strafe_acc).add(main_engine_acc).mul(dt));
    }
}

} // verus!
