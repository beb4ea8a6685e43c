//! Asteroids: circular mass-points.
//!
//! An [`Asteroid`] is a circle whose `size` is both its area and its mass;
//! its radius is `sqrt(size/π)`. Per tick it is attracted by every other
//! asteroid it does not overlap, with force `size_other / distance` (linear,
//! not inverse-square, so circular orbit speed is `sqrt(central_mass)` at any
//! radius), and the acceleration is applied directly, not divided by the
//! subject's own mass. Overlapping pairs exert no gravity; they merge
//! inelastically instead, conserving mass and momentum, at the mass-weighted
//! centroid.

use crate::fixed::{
    fx_add, fx_div, fx_mul, fx_sqrt, lemma_div_trunc_close, lemma_div_trunc_mag, Scalar, SCALE,
};
use crate::vector::{v_add, v_div, v_len, v_norm, v_scale, v_sub, Vec2i, Vector};
use vstd::prelude::*;

verus! {

/// Raw fixed-point representation of π, the ratio between an asteroid's size
/// (area) and the square of its radius.
pub const PI_RAW: i64 = 6746518852;

/// Magnitude bound under which the conservation laws below hold without any
/// saturation: 2^46 raw units (32768 whole units).
pub const LAW_BOUND: i64 = 70368744177664;

/// The mathematical image of an [`Asteroid`]: raw position, velocity and size
/// as unbounded integers.
pub struct AsteroidV {
    pub pos: Vec2i,
    pub vel: Vec2i,
    pub size: int,
}

/// The radius of a circle of area `size`: `sqrt(size / π)`.
pub open spec fn radius_of(size: int) -> int {
    fx_sqrt(fx_div(size, PI_RAW as int))
}

/// Whether the circles of two asteroids touch or overlap, measuring from `a`
/// toward `b`.
pub open spec fn collides(a: AsteroidV, b: AsteroidV) -> bool {
    v_len(v_sub(a.pos, b.pos)) <= fx_add(radius_of(a.size), radius_of(b.size))
}

/// The pull of `other` on `me` for one tick: zero if the circles overlap
/// (overlapping pairs merge instead of attracting, and an asteroid never
/// attracts itself), else `size_other / distance` along the unit vector from
/// `me` to `other`.
pub open spec fn grav_contrib(me: AsteroidV, other: AsteroidV) -> Vec2i {
    let direction = v_sub(other.pos, me.pos);
    let distance = v_len(direction);
    if distance <= fx_add(radius_of(me.size), radius_of(other.size)) {
        Vec2i { x: 0, y: 0 }
    } else {
        v_scale(v_norm(direction), fx_div(other.size, distance))
    }
}

/// Total gravitational acceleration on `me` from the first `n` of `others`.
pub open spec fn grav_acc(me: AsteroidV, others: Seq<AsteroidV>) -> Vec2i
    decreases others.len(),
{
    if others.len() == 0 {
        Vec2i { x: 0, y: 0 }
    } else {
        v_add(grav_acc(me, others.drop_last()), grav_contrib(me, others.last()))
    }
}

/// One semi-implicit Euler step for `me` against a fixed snapshot of the
/// whole body list: `v += a·dt` then `p += v·dt`.
pub open spec fn integrated(me: AsteroidV, others: Seq<AsteroidV>, step: int) -> AsteroidV {
    let acc = grav_acc(me, others);
    let vel = v_add(v_scale(acc, step), me.vel);
    let pos = v_add(me.pos, v_scale(vel, step));
    AsteroidV { pos, vel, size: me.size }
}

/// The perfectly inelastic merge of two asteroids: sizes add, momentum is
/// conserved, and the merged body sits at the mass-weighted centroid.
pub open spec fn merged(a: AsteroidV, b: AsteroidV) -> AsteroidV {
    let total = fx_add(a.size, b.size);
    let vel = v_div(v_add(v_scale(a.vel, a.size), v_scale(b.vel, b.size)), total);
    let pos = v_div(v_add(v_scale(a.pos, a.size), v_scale(b.pos, b.size)), total);
    AsteroidV { pos, vel, size: total }
}

/// A circular mass-point: position, velocity, and size-as-area (the size is
/// also the mass).
#[derive(Clone, Copy, PartialEq, Eq, Structural, Debug)]
pub struct Asteroid {
    pub pos: Vector,
    pub vel: Vector,
    pub size: Scalar,
}

impl View for Asteroid {
    type V = AsteroidV;

    open spec fn view(&self) -> AsteroidV {
        AsteroidV { pos: self.pos@, vel: self.vel@, size: self.size@ }
    }
}

impl DeepView for Asteroid {
    type V = AsteroidV;

    open spec fn deep_view(&self) -> AsteroidV {
        self@
    }
}

impl Asteroid {
    /// An asteroid with the given position, velocity and size.
    pub fn new(pos: Vector, vel: Vector, size: Scalar) -> (r: Asteroid)
        ensures
            r@ == (AsteroidV { pos: pos@, vel: vel@, size: size@ }),
    {
        Asteroid { pos, vel, size }
    }

    /// Current position.
    pub fn pos(&self) -> (r: Vector)
        ensures
            r@ == self@.pos,
    {
        self.pos
    }

    /// Current velocity.
    pub fn vel(&self) -> (r: Vector)
        ensures
            r@ == self@.vel,
    {
        self.vel
    }

    /// Replace the velocity (the ship's reciprocal gravity and collision
    /// impulses act on asteroid velocities).
    pub fn set_vel(&mut self, vel: Vector)
        ensures
            final(self)@ == (AsteroidV { vel: vel@, ..old(self)@ }),
    {
        self.vel = vel;
    }

    /// Replace the position (positional separation after a ship collision).
    pub fn set_pos(&mut self, pos: Vector)
        ensures
            final(self)@ == (AsteroidV { pos: pos@, ..old(self)@ }),
    {
        self.pos = pos;
    }

    /// Size (area, and equally mass).
    pub fn size(&self) -> (r: Scalar)
        ensures
            r@ == self@.size,
    {
        self.size
    }

    /// Radius of the circle: `sqrt(size / π)`.
    pub fn radius(&self) -> (r: Scalar)
        ensures
            r@ == radius_of(self@.size),
    {
        self.size.div(Scalar { raw: PI_RAW }).sqrt()
    }

    /// One gravity integration step against a fixed snapshot of all bodies
    /// (the snapshot may include this asteroid itself: an asteroid always
    /// overlaps itself, so it contributes nothing).
    pub fn update(&mut self, others: &Vec<Asteroid>, step: Scalar)
        ensures
            final(self)@ == integrated(old(self)@, others.deep_view(), step@),
    {
        let mut acc = Vector::zero();
        let ghost snapshot: Seq<AsteroidV> = others.deep_view();
        let mut i: usize = 0;
        while i < others.len()
            invariant
                *self == *old(self),
                snapshot == others.deep_view(),
                i <= others.len(),
                snapshot.len() == others.len(),
                acc@ == grav_acc(self@, snapshot.take(i as int)),
            decreases others.len() - i,
        {
            let other = &others[i];
            let direction = other.pos.sub(self.pos);
            let distance = direction.length();
            let touch = self.radius().add(other.radius());
            if !distance.le(touch) {
                let force_magnitude = other.size.div(distance);
                let force = direction.norm().mul(force_magnitude);
                acc = acc.add(force);
            }
            proof {
                assert(snapshot.take(i as int + 1).drop_last() =~= snapshot.take(i as int));
                assert(snapshot.take(i as int + 1).last() == snapshot[i as int]);
            }
            i = i + 1;
        }
        proof {
            assert(snapshot.take(others.len() as int) =~= snapshot);
        }
        self.vel = acc.mul(step).add(self.vel);
        self.pos = self.pos.add(self.vel.mul(step));
    }

    /// Whether this asteroid's circle touches or overlaps another's.
    pub fn collides_with(&self, other: &Asteroid) -> (r: bool)
        ensures
            r == collides(self@, other@),
    {
        let distance = self.pos.sub(other.pos).length();
        let touch = self.radius().add(other.radius());
        distance.le(touch)
    }

    /// Merge this asteroid with another into a single body, conserving size
    /// (mass) and momentum; the result sits at the mass-weighted centroid.
    pub fn merge_with(&self, other: &Asteroid) -> (r: Asteroid)
        ensures
            r@ == merged(self@, other@),
    {
        let total_mass = self.size.add(other.size);

        let momentum_x = self.vel.x.mul(self.size).add(other.vel.x.mul(other.size));
        let momentum_y = self.vel.y.mul(self.size).add(other.vel.y.mul(other.size));
        let new_vel = Vector { x: momentum_x.div(total_mass), y: momentum_y.div(total_mass) };

        let weighted_x = self.pos.x.mul(self.size).add(other.pos.x.mul(other.size));
        let weighted_y = self.pos.y.mul(self.size).add(other.pos.y.mul(other.size));
        let new_pos = Vector { x: weighted_x.div(total_mass), y: weighted_y.div(total_mass) };

        Asteroid { pos: new_pos, vel: new_vel, size: total_mass }
    }
}

/// The live-body invariant: every asteroid has positive size.
pub open spec fn sizes_positive(asts: Seq<AsteroidV>) -> bool {
    forall|i: int| 0 <= i < asts.len() ==> #[trigger] asts[i].size > 0
}

/// Merging two positive sizes gives a positive size: the saturated sum of
/// two positive numbers is positive.
pub proof fn lemma_merged_size_positive(a: AsteroidV, b: AsteroidV)
    requires
        a.size > 0,
        b.size > 0,
    ensures
        merged(a, b).size > 0,
{
}

/// Appending a positive-size body preserves the invariant.
pub proof fn lemma_sizes_positive_push(asts: Seq<AsteroidV>, a: AsteroidV)
    requires
        sizes_positive(asts),
        a.size > 0,
    ensures
        sizes_positive(asts.push(a)),
{
    assert forall|i: int| 0 <= i < asts.push(a).len() implies #[trigger] asts.push(a)[i].size
        > 0 by {
        if i < asts.len() {
            assert(asts.push(a)[i] == asts[i]);
        } else {
            assert(asts.push(a)[i] == a);
        }
    }
}

/// A prefix of an invariant-respecting list respects the invariant.
pub proof fn lemma_sizes_positive_drop_last(asts: Seq<AsteroidV>)
    requires
        sizes_positive(asts),
        asts.len() > 0,
    ensures
        sizes_positive(asts.drop_last()),
{
    assert forall|i: int| 0 <= i < asts.drop_last().len() implies #[trigger] asts.drop_last()[i].size
        > 0 by {
        assert(asts.drop_last()[i] == asts[i]);
    }
}

/// Replacing one body by a positive-size body preserves the invariant.
pub proof fn lemma_sizes_positive_update(asts: Seq<AsteroidV>, k: int, a: AsteroidV)
    requires
        sizes_positive(asts),
        0 <= k < asts.len(),
        a.size > 0,
    ensures
        sizes_positive(asts.update(k, a)),
{
    assert forall|i: int| 0 <= i < asts.update(k, a).len() implies #[trigger] asts.update(
        k,
        a,
    )[i].size > 0 by {
        if i != k {
            assert(asts.update(k, a)[i] == asts[i]);
        }
    }
}

/// Concatenating two invariant-respecting lists respects the invariant.
pub proof fn lemma_sizes_positive_concat(a: Seq<AsteroidV>, b: Seq<AsteroidV>)
    requires
        sizes_positive(a),
        sizes_positive(b),
    ensures
        sizes_positive(a + b),
{
    assert forall|i: int| 0 <= i < (a + b).len() implies #[trigger] (a + b)[i].size > 0 by {
        if i < a.len() {
            assert((a + b)[i] == a[i]);
        } else {
            assert((a + b)[i] == b[i - a.len()]);
        }
    }
}

/// Merging conserves mass: as long as the exact sum of sizes is
/// representable, the merged size is exactly `size_a + size_b`.
pub proof fn lemma_merge_conserves_mass(a: AsteroidV, b: AsteroidV)
    requires
        0 <= a.size,
        0 <= b.size,
        a.size + b.size <= i64::MAX as int,
    ensures
        merged(a, b).size == a.size + b.size,
{
}

/// The fixed-point mass-weighted average `(ua·sa + ub·sb) / (sa + sb)`, taken
/// through `fx_mul`, `fx_add` and `fx_div`, differs from the exact weighted
/// sum by less than one part: `|(sa+sb)·w − (sa·ua + sb·ub)| < (sa+sb) + 2·SCALE`
/// on the raw grid.
proof fn lemma_weighted_average(ua: int, ub: int, sa: int, sb: int)
    requires
        0 < sa,
        0 < sb,
        sa + sb <= LAW_BOUND as int,
        -(LAW_BOUND as int) <= ua <= LAW_BOUND as int,
        -(LAW_BOUND as int) <= ub <= LAW_BOUND as int,
    ensures
        ({
            let total = fx_add(sa, sb);
            let w = fx_div(fx_add(fx_mul(ua, sa), fx_mul(ub, sb)), total);
            total == sa + sb && -(sa + sb + 2 * (SCALE as int)) < (sa + sb) * w - (sa * ua + sb
                * ub) < sa + sb + 2 * (SCALE as int)
        }),
{
    let total = sa + sb;
    let pa = ua * sa;
    let pb = ub * sb;

    // Each per-body momentum term is exact to within one raw unit of the
    // exact product, and is bounded by 2^15 times that body's size.
    assert(-((32768 * sa) * (SCALE as int)) <= pa <= (32768 * sa) * (SCALE as int))
        by (nonlinear_arith)
        requires
            0 < sa,
            pa == ua * sa,
            -(LAW_BOUND as int) <= ua <= LAW_BOUND as int;
    assert(-((32768 * sb) * (SCALE as int)) <= pb <= (32768 * sb) * (SCALE as int))
        by (nonlinear_arith)
        requires
            0 < sb,
            pb == ub * sb,
            -(LAW_BOUND as int) <= ub <= LAW_BOUND as int;
    lemma_div_trunc_mag(pa, SCALE as int, 32768 * sa);
    lemma_div_trunc_mag(pb, SCALE as int, 32768 * sb);
    lemma_div_trunc_close(pa, SCALE as int);
    lemma_div_trunc_close(pb, SCALE as int);

    let ma = fx_mul(ua, sa);
    let mb = fx_mul(ub, sb);
    assert(-(32768 * sa) <= ma <= 32768 * sa);
    assert(-(32768 * sb) <= mb <= 32768 * sb);
    assert(pa - (SCALE as int) < ma * (SCALE as int) < pa + (SCALE as int));
    assert(pb - (SCALE as int) < mb * (SCALE as int) < pb + (SCALE as int));

    let m = fx_add(ma, mb);
    assert(m == ma + mb);

    // The quotient by the total mass stays within 2^15 of a unit, so the
    // outer division does not saturate either.
    assert(-((32768 * (SCALE as int)) * total) <= m * (SCALE as int) <= (32768 * (SCALE as int))
        * total) by (nonlinear_arith)
        requires
            0 < total,
            -(32768 * total) <= m <= 32768 * total;
    lemma_div_trunc_mag(m * (SCALE as int), total, 32768 * (SCALE as int));
    lemma_div_trunc_close(m * (SCALE as int), total);

    let w = fx_div(m, total);
    assert(w == crate::fixed::div_trunc(m * (SCALE as int), total));
    assert(m * (SCALE as int) - total < w * total < m * (SCALE as int) + total);
    assert((sa + sb) * w == w * total) by (nonlinear_arith)
        requires
            total == sa + sb;
    assert(ua * sa == sa * ua && ub * sb == sb * ub) by (nonlinear_arith);
}

/// Merging conserves momentum up to fixed-point rounding: along each axis the
/// merged body's momentum `size·vel` differs from the summed input momenta by
/// less than `size_total + 2·SCALE` on the raw product grid — less than
/// `mass_total + 2` fixed-point steps of momentum.
pub proof fn lemma_merge_conserves_momentum(a: AsteroidV, b: AsteroidV)
    requires
        0 < a.size,
        0 < b.size,
        a.size + b.size <= LAW_BOUND as int,
        -(LAW_BOUND as int) <= a.vel.x <= LAW_BOUND as int,
        -(LAW_BOUND as int) <= a.vel.y <= LAW_BOUND as int,
        -(LAW_BOUND as int) <= b.vel.x <= LAW_BOUND as int,
        -(LAW_BOUND as int) <= b.vel.y <= LAW_BOUND as int,
    ensures
        ({
            let m = merged(a, b);
            let tolerance = a.size + b.size + 2 * (SCALE as int);
            &&& m.size == a.size + b.size
            &&& -tolerance < m.size * m.vel.x - (a.size * a.vel.x + b.size * b.vel.x) < tolerance
            &&& -tolerance < m.size * m.vel.y - (a.size * a.vel.y + b.size * b.vel.y) < tolerance
        }),
{
    lemma_weighted_average(a.vel.x, b.vel.x, a.size, b.size);
    lemma_weighted_average(a.vel.y, b.vel.y, a.size, b.size);
}

/// The merged position is the mass-weighted average of the two input
/// positions, up to fixed-point rounding: along each axis,
/// `|size_total·pos − (size_a·pos_a + size_b·pos_b)|` is less than
/// `size_total + 2·SCALE` on the raw product grid.
pub proof fn lemma_merge_centroid(a: AsteroidV, b: AsteroidV)
    requires
        0 < a.size,
        0 < b.size,
        a.size + b.size <= LAW_BOUND as int,
        -(LAW_BOUND as int) <= a.pos.x <= LAW_BOUND as int,
        -(LAW_BOUND as int) <= a.pos.y <= LAW_BOUND as int,
        -(LAW_BOUND as int) <= b.pos.x <= LAW_BOUND as int,
        -(LAW_BOUND as int) <= b.pos.y <= LAW_BOUND as int,
    ensures
        ({
            let m = merged(a, b);
            let tolerance = a.size + b.size + 2 * (SCALE as int);
            &&& -tolerance < m.size * m.pos.x - (a.size * a.pos.x + b.size * b.pos.x) < tolerance
            &&& -tolerance < m.size * m.pos.y - (a.size * a.pos.y + b.size * b.pos.y) < tolerance
        }),
{
    lemma_weighted_average(a.pos.x, b.pos.x, a.size, b.size);
    lemma_weighted_average(a.pos.y, b.pos.y, a.size, b.size);
}

} // verus!
