//! The world: the asteroid collection, the ship, and the fixed-tick driver.
//!
//! `WorldState::update` converts elapsed simulated time into a whole number
//! of fixed ticks of duration `1/tick_rate` and returns exactly the time it
//! consumed; any sub-tick remainder is left for the caller to re-submit, so a
//! caller can track a precise "last processed" timestamp. Each tick runs,
//! in order: gravity integration for every asteroid against one consistent
//! snapshot, pairwise collision detection and inelastic merging, the ship's
//! gravity/collision pass (when a ship is present), and the cleanup that
//! evicts statistically distant bodies. `world_time` advances only in whole
//! ticks.
//!
//! Cleanup measures distances from the mass-weighted center of mass but uses
//! the count-weighted (unweighted) variance of those distances — each body
//! counts once in the spread regardless of its mass. Bodies farther than
//! `cleanup_threshold_multiplier` standard deviations from the center are
//! dropped.
//!
//! Merging is resolved pairwise in index order: the lowest-indexed
//! overlapping pair merges first, and a body merges at most once per tick. A
//! true simultaneous N-way collision therefore collapses to sequential
//! pairwise merges within the tick; this is a deliberate, documented
//! approximation, not a canonical N-body resolution.

use crate::fixed::{fx_add, fx_div, fx_mul, fx_sub, sat_u128, sqrt_floor, Scalar, SCALE};
use crate::objects::{
    collides, integrated, lemma_merged_size_positive, lemma_sizes_positive_concat,
    lemma_sizes_positive_push, merged, sizes_positive, Asteroid, AsteroidV,
};
use crate::ship::{lemma_ship_updated_sizes, ship_updated, Ship, ShipV};
use crate::vector::{v_add, v_div, v_len, v_scale, v_sub, Vec2i, Vector};
use vstd::pervasive::VecAdditionalExecFns;
use vstd::prelude::*;

verus! {

/// How often the updates-per-second diagnostic refreshes (5 refreshes per
/// wall-clock second).
pub const STATS_UPDATE_RATE: i64 = 5;

/// The mathematical image of a [`WorldState`].
pub struct WorldV {
    pub asteroids: Seq<AsteroidV>,
    pub ship: Option<ShipV>,
    pub world_time: int,
    pub tick_rate: int,
    pub cleanup_threshold_multiplier: int,
    pub update_count: int,
    pub last_ups_time: int,
    pub updates_per_second: int,
}

/// Every asteroid integrated against the same pre-tick snapshot: the update
/// never reads a partially updated neighbour.
pub open spec fn integrated_all(asts: Seq<AsteroidV>, step: int) -> Seq<AsteroidV> {
    Seq::new(asts.len(), |i: int| integrated(asts[i], asts, step))
}

/// The pair scan for one row `i`, from column `j` on: each still-unmarked
/// overlapping pair is scheduled (both indices marked, merged body appended).
pub open spec fn merge_scan_row(
    asts: Seq<AsteroidV>,
    i: int,
    j: int,
    removed: Seq<bool>,
    added: Seq<AsteroidV>,
) -> (Seq<bool>, Seq<AsteroidV>)
    decreases asts.len() - j,
{
    if j < 0 || j >= asts.len() || !(0 <= i < removed.len()) || j >= removed.len() {
        (removed, added)
    } else if !removed[i] && !removed[j] && collides(asts[i], asts[j]) {
        merge_scan_row(
            asts,
            i,
            j + 1,
            removed.update(i, true).update(j, true),
            added.push(merged(asts[i], asts[j])),
        )
    } else {
        merge_scan_row(asts, i, j + 1, removed, added)
    }
}

/// The full pair scan, rows `i` and up, in index order: the tie-break for
/// multiple simultaneous overlaps is the lowest pair index.
pub open spec fn merge_scan(
    asts: Seq<AsteroidV>,
    i: int,
    removed: Seq<bool>,
    added: Seq<AsteroidV>,
) -> (Seq<bool>, Seq<AsteroidV>)
    decreases asts.len() - i,
{
    if i < 0 || i >= asts.len() {
        (removed, added)
    } else {
        let (removed2, added2) = merge_scan_row(asts, i, i + 1, removed, added);
        merge_scan(asts, i + 1, removed2, added2)
    }
}

/// The first `k` asteroids that were not marked for removal, in order.
pub open spec fn retained(asts: Seq<AsteroidV>, removed: Seq<bool>, k: int) -> Seq<AsteroidV>
    decreases k,
{
    if k <= 0 {
        Seq::<AsteroidV>::empty()
    } else {
        let prev = retained(asts, removed, k - 1);
        if 0 <= k - 1 < asts.len() && 0 <= k - 1 < removed.len() && !removed[k - 1] {
            prev.push(asts[k - 1])
        } else {
            prev
        }
    }
}

/// One collision/merge pass: scan all pairs in index order, drop every body
/// scheduled for removal, and append the merged bodies.
pub open spec fn merge_pass(asts: Seq<AsteroidV>) -> Seq<AsteroidV> {
    let init = Seq::new(asts.len(), |k: int| false);
    let (removed, added) = merge_scan(asts, 0, init, Seq::<AsteroidV>::empty());
    retained(asts, removed, asts.len() as int) + added
}

/// The weight of one asteroid in an aggregate: its size when `weighted`, one
/// otherwise.
pub open spec fn mass_of(a: AsteroidV, weighted: bool) -> int {
    if weighted {
        a.size
    } else {
        SCALE as int
    }
}

/// Total mass (or count) of the asteroids, folded left with fixed-point
/// addition.
pub open spec fn mass_sum(asts: Seq<AsteroidV>, weighted: bool) -> int
    decreases asts.len(),
{
    if asts.len() == 0 {
        0
    } else {
        fx_add(mass_sum(asts.drop_last(), weighted), mass_of(asts.last(), weighted))
    }
}

/// Mass-weighted sum of positions, folded left.
pub open spec fn weighted_pos_sum(asts: Seq<AsteroidV>, weighted: bool) -> Vec2i
    decreases asts.len(),
{
    if asts.len() == 0 {
        Vec2i { x: 0, y: 0 }
    } else {
        v_add(
            weighted_pos_sum(asts.drop_last(), weighted),
            v_scale(asts.last().pos, mass_of(asts.last(), weighted)),
        )
    }
}

/// The center of mass: the weighted position sum over the total mass, and the
/// zero vector for an empty world — an empty world has no mass to divide by,
/// and the query must still answer.
pub open spec fn center_of_mass(asts: Seq<AsteroidV>, weighted: bool) -> Vec2i {
    if asts.len() == 0 {
        Vec2i { x: 0, y: 0 }
    } else {
        v_div(weighted_pos_sum(asts, weighted), mass_sum(asts, weighted))
    }
}

/// Sum of exact squared raw distances from `center`, folded left and
/// saturated at the accumulator's width. The squares are taken on the raw
/// integers — no fixed-point rescaling — so even sub-unit distances
/// contribute their full weight to the spread.
pub open spec fn dist_sq_sum(asts: Seq<AsteroidV>, center: Vec2i) -> int
    decreases asts.len(),
{
    if asts.len() == 0 {
        0
    } else {
        let d = v_len(v_sub(asts.last().pos, center));
        sat_u128(dist_sq_sum(asts.drop_last(), center) + d * d)
    }
}

/// Count-weighted standard deviation of the body distances from `center`:
/// the square root of the mean squared distance, each body counting once
/// regardless of its mass; zero for an empty world. This is the documented
/// variance choice of this engine (see the module note above).
pub open spec fn mass_std(asts: Seq<AsteroidV>, center: Vec2i) -> int {
    if asts.len() == 0 {
        0
    } else {
        sqrt_floor(dist_sq_sum(asts, center) / (asts.len() as int))
    }
}

/// A distance is a saturated square root: nonnegative and at most
/// `i64::MAX`.
proof fn lemma_v_len_range(v: Vec2i)
    ensures
        0 <= v_len(v) <= i64::MAX as int,
{
    assert(0 <= v.x * v.x + v.y * v.y) by (nonlinear_arith);
    crate::fixed::lemma_sqrt_floor(v.x * v.x + v.y * v.y);
}

/// Every partial squared-distance sum is nonnegative and at most the body
/// count times the largest possible square.
proof fn lemma_dist_sq_sum_bound(asts: Seq<AsteroidV>, center: Vec2i)
    ensures
        0 <= dist_sq_sum(asts, center) <= (asts.len() as int) * ((i64::MAX as int) * (
        i64::MAX as int)),
    decreases asts.len(),
{
    let maxsq = (i64::MAX as int) * (i64::MAX as int);
    if asts.len() > 0 {
        lemma_dist_sq_sum_bound(asts.drop_last(), center);
        let d = v_len(v_sub(asts.last().pos, center));
        lemma_v_len_range(v_sub(asts.last().pos, center));
        assert(0 <= d * d <= maxsq) by (nonlinear_arith)
            requires
                0 <= d <= i64::MAX as int,
                maxsq == (i64::MAX as int) * (i64::MAX as int);
        assert((asts.len() as int) * maxsq == (asts.len() - 1) * maxsq + maxsq)
            by (nonlinear_arith);
    }
}

/// The first `k` asteroids lying within `threshold` of `center`, in order.
pub open spec fn kept_within(
    asts: Seq<AsteroidV>,
    center: Vec2i,
    threshold: int,
    k: int,
) -> Seq<AsteroidV>
    decreases k,
{
    if k <= 0 {
        Seq::<AsteroidV>::empty()
    } else {
        let prev = kept_within(asts, center, threshold, k - 1);
        if 0 <= k - 1 < asts.len() && v_len(v_sub(asts[k - 1].pos, center)) <= threshold {
            prev.push(asts[k - 1])
        } else {
            prev
        }
    }
}

/// One cleanup pass: every body farther than `multiplier` count-weighted
/// standard deviations from the mass-weighted center of mass is evicted.
pub open spec fn cleanup_pass(asts: Seq<AsteroidV>, multiplier: int) -> Seq<AsteroidV> {
    let center = center_of_mass(asts, true);
    let threshold = fx_mul(mass_std(asts, center), multiplier);
    kept_within(asts, center, threshold, asts.len() as int)
}

/// The diagnostics after one tick: the tick counter steps (capped at the
/// counter's width), and when at least a fifth of a wall-clock second has
/// passed since the last refresh, the updates-per-second reading refreshes
/// and the counter restarts.
pub open spec fn stats_stepped(count: int, last: int, ups: int, wall_now: int) -> (int, int, int) {
    let count2 = if count < u32::MAX as int {
        count + 1
    } else {
        count
    };
    let elapsed = fx_sub(wall_now, last);
    if elapsed >= fx_div(SCALE as int, (STATS_UPDATE_RATE as int) * (SCALE as int)) {
        (0, wall_now, fx_div(count2 * (SCALE as int), elapsed))
    } else {
        (count2, last, ups)
    }
}

/// One whole tick: integrate, merge, run the ship, clean up, advance the
/// world clock by the tick duration, and step the diagnostics.
pub open spec fn ticked(w: WorldV, tick_duration: int, wall_now: int) -> WorldV {
    let asts1 = integrated_all(w.asteroids, tick_duration);
    let asts2 = merge_pass(asts1);
    let (ship2, asts3) = match w.ship {
        Some(s) => {
            let r = ship_updated(s, asts2, tick_duration);
            (Some(r.0), r.1)
        },
        None => (w.ship, asts2),
    };
    let asts4 = cleanup_pass(asts3, w.cleanup_threshold_multiplier);
    let (count, last, ups) = stats_stepped(
        w.update_count,
        w.last_ups_time,
        w.updates_per_second,
        wall_now,
    );
    WorldV {
        asteroids: asts4,
        ship: ship2,
        world_time: fx_add(w.world_time, tick_duration),
        tick_rate: w.tick_rate,
        cleanup_threshold_multiplier: w.cleanup_threshold_multiplier,
        update_count: count,
        last_ups_time: last,
        updates_per_second: ups,
    }
}

/// `n` whole ticks in a row.
pub open spec fn updated_n(w: WorldV, tick_duration: int, n: nat, wall_now: int) -> WorldV
    decreases n,
{
    if n == 0 {
        w
    } else {
        ticked(updated_n(w, tick_duration, (n - 1) as nat, wall_now), tick_duration, wall_now)
    }
}

/// The duration of one tick: `1 / tick_rate` in fixed point.
pub open spec fn tick_duration_of(tick_rate: int) -> int {
    fx_div(SCALE as int, tick_rate)
}

/// How many whole ticks fit in `delta`: `floor(delta / tick_duration)`, and
/// none at all when the requested time or the tick duration is not positive.
pub open spec fn tick_count(delta: int, tick_duration: int) -> int {
    if tick_duration >= 1 && delta >= 0 {
        delta / tick_duration
    } else {
        0
    }
}

/// An element-for-element copy of the asteroid list: the pre-tick snapshot
/// that every integration step reads from.
fn snapshot_asteroids(v: &Vec<Asteroid>) -> (r: Vec<Asteroid>)
    ensures
        r@ == v@,
        r.deep_view() == v.deep_view(),
{
    let mut r: Vec<Asteroid> = Vec::new();
    let mut i: usize = 0;
    while i < v.len()
        invariant
            i <= v.len(),
            r@ == v@.take(i as int),
        decreases v.len() - i,
    {
        r.push(v[i]);
        proof {
            assert(v@.take(i as int + 1) =~= v@.take(i as int).push(v@[i as int]));
        }
        i = i + 1;
    }
    proof {
        assert(v@.take(v@.len() as int) =~= v@);
    }
    r
}

/// The simulation world: the authoritative asteroid collection, the ship (if
/// one has been placed), the monotonic world clock, and diagnostics.
pub struct WorldState {
    pub asteroids: Vec<Asteroid>,
    pub ship: Option<Ship>,
    pub world_time: Scalar,
    pub tick_rate: Scalar,
    pub cleanup_threshold_multiplier: Scalar,
    pub update_count: u32,
    pub last_ups_time: Scalar,
    pub updates_per_second: Scalar,
}

impl View for WorldState {
    type V = WorldV;

    open spec fn view(&self) -> WorldV {
        WorldV {
            asteroids: self.asteroids.deep_view(),
            ship: match self.ship {
                Some(s) => Some(s@),
                None => None,
            },
            world_time: self.world_time@,
            tick_rate: self.tick_rate@,
            cleanup_threshold_multiplier: self.cleanup_threshold_multiplier@,
            update_count: self.update_count as int,
            last_ups_time: self.last_ups_time@,
            updates_per_second: self.updates_per_second@,
        }
    }
}

impl WorldState {
    /// An empty world with the given tick rate and cleanup threshold: no
    /// asteroids, no ship yet, clock at zero.
    pub fn new(tick_rate: Scalar, cleanup_threshold_multiplier: Scalar) -> (r: WorldState)
        ensures
            r@ == (WorldV {
                asteroids: Seq::<AsteroidV>::empty(),
                ship: None,
                world_time: 0,
                tick_rate: tick_rate@,
                cleanup_threshold_multiplier: cleanup_threshold_multiplier@,
                update_count: 0,
                last_ups_time: 0,
                updates_per_second: 0,
            }),
    {
        let r = WorldState {
            asteroids: Vec::new(),
            ship: None,
            world_time: Scalar::zero(),
            tick_rate,
            cleanup_threshold_multiplier,
            update_count: 0,
            last_ups_time: Scalar::zero(),
            updates_per_second: Scalar::zero(),
        };
        proof {
            assert(r.asteroids.deep_view() =~= Seq::<AsteroidV>::empty());
        }
        r
    }

    /// Place (or replace) the ship.
    pub fn set_ship(&mut self, ship: Ship)
        ensures
            final(self)@ == (WorldV { ship: Some(ship@), ..old(self)@ }),
    {
        self.ship = Some(ship);
    }

    /// Append a new body. Live bodies always have positive size: merges add
    /// positive sizes, and spawners must not emit non-positive ones.
    pub fn spawn_asteroid(&mut self, pos: Vector, vel: Vector, size: Scalar)
        requires
            size@ > 0,
        ensures
            final(self)@ == (WorldV {
                asteroids: old(self)@.asteroids.push(
                    AsteroidV { pos: pos@, vel: vel@, size: size@ },
                ),
                ..old(self)@
            }),
    {
        self.asteroids.push(Asteroid::new(pos, vel, size));
        proof {
            assert(self.asteroids.deep_view() =~= old(self).asteroids.deep_view().push(
                AsteroidV { pos: pos@, vel: vel@, size: size@ },
            ));
        }
    }

    /// The mass-weighted (or plain) average position of all bodies; the zero
    /// vector for an empty world.
    pub fn calculate_center_of_mass(&self, weighted: bool) -> (r: Vector)
        ensures
            r@ == center_of_mass(self@.asteroids, weighted),
    {
        if self.asteroids.len() == 0 {
            return Vector::zero();
        }
        let ghost asts = self.asteroids.deep_view();
        let mut total_mass = Scalar::zero();
        let mut weighted_pos = Vector::zero();
        let mut i: usize = 0;
        while i < self.asteroids.len()
            invariant
                asts == self.asteroids.deep_view(),
                asts.len() == self.asteroids.len(),
                i <= asts.len(),
                total_mass@ == mass_sum(asts.take(i as int), weighted),
                weighted_pos@ == weighted_pos_sum(asts.take(i as int), weighted),
            decreases asts.len() - i,
        {
            let a = &self.asteroids[i];
            let mass = if weighted {
                a.size()
            } else {
                Scalar::one()
            };
            total_mass = total_mass.add(mass);
            weighted_pos = weighted_pos.add(a.pos().mul(mass));
            proof {
                assert(asts.take(i as int + 1).drop_last() =~= asts.take(i as int));
                assert(asts.take(i as int + 1).last() == asts[i as int]);
            }
            i = i + 1;
        }
        proof {
            assert(asts.take(asts.len() as int) =~= asts);
        }
        weighted_pos.div(total_mass)
    }

    /// The count-weighted standard deviation of body distances from
    /// `center`: the square root of the mean squared raw distance, each body
    /// counting once regardless of its mass; zero for an empty world. The
    /// squared distances are accumulated exactly in a wide integer, so even
    /// sub-unit spreads register.
    pub fn calculate_mass_std(&self, center: Vector) -> (r: Scalar)
        ensures
            r@ == mass_std(self@.asteroids, center@),
    {
        let n = self.asteroids.len();
        if n == 0 {
            return Scalar::zero();
        }
        let ghost asts = self.asteroids.deep_view();
        let mut sum: u128 = 0;
        let mut i: usize = 0;
        while i < n
            invariant
                asts == self.asteroids.deep_view(),
                asts.len() == self.asteroids.len(),
                n == asts.len(),
                i <= n,
                sum as int == dist_sq_sum(asts.take(i as int), center@),
            decreases n - i,
        {
            let a = &self.asteroids[i];
            let distance = a.pos().sub(center).length();
            let sq: u128 = crate::fixed::sq_mag(distance.raw);
            sum = sum.saturating_add(sq);
            proof {
                assert(asts.take(i as int + 1).drop_last() =~= asts.take(i as int));
                assert(asts.take(i as int + 1).last() == asts[i as int]);
            }
            i = i + 1;
        }
        proof {
            assert(asts.take(n as int) =~= asts);
            lemma_dist_sq_sum_bound(asts, center@);
        }
        let mean: u128 = sum / (n as u128);
        let s: u128 = crate::fixed::isqrt_u128(mean);
        proof {
            let maxsq = (i64::MAX as int) * (i64::MAX as int);
            assert((n as int) * maxsq >= 0) by (nonlinear_arith)
                requires
                    n as int >= 0,
                    maxsq >= 0;
            vstd::arithmetic::div_mod::lemma_div_is_ordered(
                sum as int,
                (n as int) * maxsq,
                n as int,
            );
            vstd::arithmetic::div_mod::lemma_div_multiples_vanish(maxsq, n as int);
            assert(mean as int <= maxsq);
            crate::fixed::lemma_sqrt_floor(mean as int);
            assert(s as int <= i64::MAX as int) by (nonlinear_arith)
                requires
                    s as int >= 0,
                    (s as int) * (s as int) <= (mean as int),
                    mean as int <= (i64::MAX as int) * (i64::MAX as int);
        }
        Scalar { raw: s as i64 }
    }

    /// One whole tick: integrate every asteroid against a single consistent
    /// snapshot of the pre-tick positions, merge collisions, run the ship's
    /// pass if a ship is present, evict distant bodies, advance the world
    /// clock by one tick, and step the diagnostics.
    fn tick(&mut self, tick_duration: Scalar, wall_now: Scalar)
        ensures
            final(self)@ == ticked(old(self)@, tick_duration@, wall_now@),
    {
        let ghost asts0 = self.asteroids.deep_view();
        let snapshot = snapshot_asteroids(&self.asteroids);

        let mut i: usize = 0;
        while i < self.asteroids.len()
            invariant
                snapshot.deep_view() == asts0,
                snapshot@.len() == asts0.len(),
                self.asteroids.len() == asts0.len(),
                i <= asts0.len(),
                self.ship == old(self).ship,
                self.world_time == old(self).world_time,
                self.tick_rate == old(self).tick_rate,
                self.cleanup_threshold_multiplier == old(self).cleanup_threshold_multiplier,
                self.update_count == old(self).update_count,
                self.last_ups_time == old(self).last_ups_time,
                self.updates_per_second == old(self).updates_per_second,
                asts0 == old(self).asteroids.deep_view(),
                forall|k: int|
                    0 <= k < i ==> #[trigger] self.asteroids.deep_view()[k] == integrated(
                        asts0[k],
                        asts0,
                        tick_duration@,
                    ),
                forall|k: int|
                    i <= k < asts0.len() ==> #[trigger] self.asteroids.deep_view()[k] == asts0[k],
            decreases asts0.len() - i,
        {
            let ghost pre = self.asteroids.deep_view();
            let mut a = snapshot[i];
            a.update(&snapshot, tick_duration);
            self.asteroids.set(i, a);
            proof {
                assert(self.asteroids.deep_view() =~= pre.update(i as int, a@));
            }
            i = i + 1;
        }
        proof {
            assert(self.asteroids.deep_view() =~= integrated_all(asts0, tick_duration@));
        }

        self.check_collisions();

        if self.ship.is_some() {
            let mut s = self.ship.unwrap();
            s.update(&mut self.asteroids, tick_duration);
            self.ship = Some(s);
        }

        self.cleanup_distant_asteroids();

        self.world_time = self.world_time.add(tick_duration);
        if self.update_count < u32::MAX {
            self.update_count = self.update_count + 1;
        }
        let elapsed = wall_now.sub(self.last_ups_time);
        let interval = Scalar::one().div(Scalar::from_int(STATS_UPDATE_RATE));
        if elapsed.raw >= interval.raw {
            self.updates_per_second = Scalar::from_int(self.update_count as i64).div(elapsed);
            self.update_count = 0;
            self.last_ups_time = wall_now;
        }
    }

    /// Advance the simulation by `delta_time` simulated seconds, in whole
    /// ticks of `1/tick_rate`, and return exactly the simulated time
    /// consumed. The sub-tick remainder is not lost: the caller sees from
    /// the return value precisely how much was processed and can carry the
    /// rest into its next call. `wall_now` is the caller's wall clock in
    /// seconds, used only for the updates-per-second diagnostic.
    pub fn update(&mut self, delta_time: Scalar, wall_now: Scalar) -> (consumed: Scalar)
        ensures
            ({
                let dur = tick_duration_of(old(self)@.tick_rate);
                let k = tick_count(delta_time@, dur);
                &&& consumed@ == k * dur
                &&& final(self)@ == updated_n(old(self)@, dur, k as nat, wall_now@)
            }),
    {
        let tick_duration = Scalar::one().div(self.tick_rate);
        if tick_duration.raw <= 0 {
            return Scalar::zero();
        }
        let mut delta = delta_time;
        let ghost mut t: int = 0;
        while delta.raw >= tick_duration.raw
            invariant
                tick_duration@ == tick_duration_of(old(self)@.tick_rate),
                1 <= tick_duration@,
                0 <= t,
                delta@ == delta_time@ - t * tick_duration@,
                t >= 1 ==> delta@ >= 0,
                self@ == updated_n(old(self)@, tick_duration@, t as nat, wall_now@),
            decreases delta.raw,
        {
            self.tick(tick_duration, wall_now);
            delta = delta.sub(tick_duration);
            proof {
                assert((t + 1) * tick_duration@ == t * tick_duration@ + tick_duration@)
                    by (nonlinear_arith);
                t = t + 1;
            }
        }
        let consumed = delta_time.sub(delta);
        proof {
            if delta_time.raw >= 0 {
                assert(delta@ >= 0) by {
                    if t == 0 {
                        assert(delta@ == delta_time@);
                    }
                }
                vstd::arithmetic::div_mod::lemma_fundamental_div_mod_converse(
                    delta_time@,
                    tick_duration@,
                    t,
                    delta@,
                );
            } else {
                assert(t == 0) by {
                    if t >= 1 {
                        assert(t * tick_duration@ >= tick_duration@) by (nonlinear_arith)
                            requires
                                t >= 1,
                                tick_duration@ >= 1;
                    }
                }
            }
        }
        consumed
    }

    /// Detect and merge every colliding pair, in index order. A body already
    /// scheduled for removal is skipped, so each body merges at most once per
    /// tick; the removal marks are taken on stable slot indices computed
    /// before any mutation, and the live collection is rebuilt in one pass.
    pub fn check_collisions(&mut self)
        ensures
            final(self)@ == (WorldV { asteroids: merge_pass(old(self)@.asteroids), ..old(self)@ }),
    {
        let ghost asts = self.asteroids.deep_view();
        let n = self.asteroids.len();

        let mut removed: Vec<bool> = Vec::new();
        let mut f: usize = 0;
        while f < n
            invariant
                removed@.len() == f <= n,
                forall|k: int| 0 <= k < f ==> !removed@[k],
            decreases n - f,
        {
            removed.push(false);
            f = f + 1;
        }
        proof {
            assert(removed@ =~= Seq::new(asts.len(), |k: int| false));
        }

        let mut to_add: Vec<Asteroid> = Vec::new();
        proof {
            assert(to_add.deep_view() =~= Seq::<AsteroidV>::empty());
        }
        let ghost scan = merge_scan(
            asts,
            0,
            Seq::new(asts.len(), |k: int| false),
            Seq::<AsteroidV>::empty(),
        );

        let mut i: usize = 0;
        while i < n
            invariant
                asts == self.asteroids.deep_view(),
                asts.len() == self.asteroids.len(),
                n == asts.len(),
                i <= n,
                removed@.len() == n,
                scan == merge_scan(asts, i as int, removed@, to_add.deep_view()),
            decreases n - i,
        {
            let ghost row_removed = removed@;
            let ghost row_added = to_add.deep_view();
            let mut j: usize = i + 1;
            while j < n
                invariant
                    asts == self.asteroids.deep_view(),
                    asts.len() == self.asteroids.len(),
                    n == asts.len(),
                    i < n,
                    i < j <= n,
                    removed@.len() == n,
                    merge_scan_row(asts, i as int, j as int, removed@, to_add.deep_view())
                        == merge_scan_row(asts, i as int, i as int + 1, row_removed, row_added),
                decreases n - j,
            {
                if !removed[i] && !removed[j] {
                    let a1 = self.asteroids[i];
                    let a2 = self.asteroids[j];
                    if a1.collides_with(&a2) {
                        let ghost pre_added = to_add.deep_view();
                        let merged_body = a1.merge_with(&a2);
                        to_add.push(merged_body);
                        removed.set(i, true);
                        removed.set(j, true);
                        proof {
                            assert(to_add.deep_view() =~= pre_added.push(
                                merged(asts[i as int], asts[j as int]),
                            ));
                        }
                    }
                }
                j = j + 1;
            }
            i = i + 1;
        }

        let ghost removed_final = removed@;
        let ghost added_final = to_add.deep_view();
        proof {
            assert(scan == (removed_final, added_final));
        }

        let mut kept: Vec<Asteroid> = Vec::new();
        let mut k: usize = 0;
        while k < n
            invariant
                asts == self.asteroids.deep_view(),
                asts.len() == self.asteroids.len(),
                n == asts.len(),
                k <= n,
                removed@ == removed_final,
                removed@.len() == n,
                kept.deep_view() == retained(asts, removed_final, k as int),
            decreases n - k,
        {
            if !removed[k] {
                let ghost pre = kept.deep_view();
                kept.push(self.asteroids[k]);
                proof {
                    assert(kept.deep_view() =~= pre.push(asts[k as int]));
                }
            }
            k = k + 1;
        }

        let mut m: usize = 0;
        while m < to_add.len()
            invariant
                to_add.deep_view() == added_final,
                added_final.len() == to_add.len(),
                m <= to_add.len(),
                kept.deep_view() == retained(asts, removed_final, n as int) + added_final.take(
                    m as int,
                ),
            decreases to_add.len() - m,
        {
            let ghost pre = kept.deep_view();
            kept.push(to_add[m]);
            proof {
                assert(kept.deep_view() =~= pre.push(added_final[m as int]));
                assert(added_final.take(m as int + 1) =~= added_final.take(m as int).push(
                    added_final[m as int],
                ));
                assert(pre.push(added_final[m as int]) =~= retained(asts, removed_final, n as int)
                    + added_final.take(m as int + 1));
            }
            m = m + 1;
        }
        proof {
            assert(added_final.take(to_add.len() as int) =~= added_final);
        }

        self.asteroids = kept;
    }

    /// Evict every body farther than `cleanup_threshold_multiplier` standard
    /// deviations (count-weighted) from the mass-weighted center of mass.
    /// This bounds unbounded growth from outward-drifting ejecta without an
    /// explicit body cap.
    pub fn cleanup_distant_asteroids(&mut self)
        ensures
            final(self)@ == (WorldV {
                asteroids: cleanup_pass(
                    old(self)@.asteroids,
                    old(self)@.cleanup_threshold_multiplier,
                ),
                ..old(self)@
            }),
    {
        let ghost asts = self.asteroids.deep_view();
        let center = self.calculate_center_of_mass(true);
        let std_dev = self.calculate_mass_std(center);
        let threshold = std_dev.mul(self.cleanup_threshold_multiplier);

        let mut kept: Vec<Asteroid> = Vec::new();
        let mut k: usize = 0;
        while k < self.asteroids.len()
            invariant
                asts == self.asteroids.deep_view(),
                asts.len() == self.asteroids.len(),
                k <= asts.len(),
                center@ == center_of_mass(asts, true),
                threshold@ == fx_mul(
                    mass_std(asts, center_of_mass(asts, true)),
                    old(self)@.cleanup_threshold_multiplier,
                ),
                kept.deep_view() == kept_within(asts, center@, threshold@, k as int),
                *self == *old(self),
            decreases asts.len() - k,
        {
            let a = self.asteroids[k];
            if a.pos().sub(center).length().le(threshold) {
                let ghost pre = kept.deep_view();
                kept.push(a);
                proof {
                    assert(kept.deep_view() =~= pre.push(asts[k as int]));
                }
            }
            k = k + 1;
        }
        self.asteroids = kept;
    }

    /// The most recent updates-per-second reading.
    pub fn updates_per_second(&self) -> (r: Scalar)
        ensures
            r@ == self@.updates_per_second,
    {
        self.updates_per_second
    }

    /// The configured tick rate.
    pub fn tick_rate(&self) -> (r: Scalar)
        ensures
            r@ == self@.tick_rate,
    {
        self.tick_rate
    }

    /// Achieved fraction of real-time speed: achieved updates per second over
    /// the configured tick rate.
    pub fn actual_speed(&self) -> (r: Scalar)
        ensures
            r@ == fx_div(self@.updates_per_second, self@.tick_rate),
    {
        self.updates_per_second().div(self.tick_rate())
    }
}

/// The pair scan only appends merges of positive-size bodies.
proof fn lemma_merge_scan_row_sizes(
    asts: Seq<AsteroidV>,
    i: int,
    j: int,
    removed: Seq<bool>,
    added: Seq<AsteroidV>,
)
    requires
        sizes_positive(asts),
        sizes_positive(added),
        0 <= i < asts.len(),
    ensures
        sizes_positive(merge_scan_row(asts, i, j, removed, added).1),
    decreases asts.len() - j,
{
    if !(j < 0 || j >= asts.len() || !(0 <= i < removed.len()) || j >= removed.len()) {
        if !removed[i] && !removed[j] && collides(asts[i], asts[j]) {
            lemma_merged_size_positive(asts[i], asts[j]);
            lemma_sizes_positive_push(added, merged(asts[i], asts[j]));
            lemma_merge_scan_row_sizes(
                asts,
                i,
                j + 1,
                removed.update(i, true).update(j, true),
                added.push(merged(asts[i], asts[j])),
            );
        } else {
            lemma_merge_scan_row_sizes(asts, i, j + 1, removed, added);
        }
    }
}

/// Marks aside, nothing in the whole pair scan makes a non-positive size.
proof fn lemma_merge_scan_sizes(
    asts: Seq<AsteroidV>,
    i: int,
    removed: Seq<bool>,
    added: Seq<AsteroidV>,
)
    requires
        sizes_positive(asts),
        sizes_positive(added),
    ensures
        sizes_positive(merge_scan(asts, i, removed, added).1),
    decreases asts.len() - i,
{
    if !(i < 0 || i >= asts.len()) {
        lemma_merge_scan_row_sizes(asts, i, i + 1, removed, added);
        let (removed2, added2) = merge_scan_row(asts, i, i + 1, removed, added);
        lemma_merge_scan_sizes(asts, i + 1, removed2, added2);
    }
}

/// The unremoved survivors are original bodies.
proof fn lemma_retained_sizes(asts: Seq<AsteroidV>, removed: Seq<bool>, k: int)
    requires
        sizes_positive(asts),
    ensures
        sizes_positive(retained(asts, removed, k)),
    decreases k,
{
    if k > 0 {
        lemma_retained_sizes(asts, removed, k - 1);
        if 0 <= k - 1 < asts.len() && 0 <= k - 1 < removed.len() && !removed[k - 1] {
            lemma_sizes_positive_push(retained(asts, removed, k - 1), asts[k - 1]);
        }
    }
}

/// A merge pass keeps the live-body invariant: survivors are originals, and
/// merges only add positive sizes.
proof fn lemma_merge_pass_sizes(asts: Seq<AsteroidV>)
    requires
        sizes_positive(asts),
    ensures
        sizes_positive(merge_pass(asts)),
{
    let init = Seq::new(asts.len(), |k: int| false);
    let (removed, added) = merge_scan(asts, 0, init, Seq::<AsteroidV>::empty());
    lemma_merge_scan_sizes(asts, 0, init, Seq::<AsteroidV>::empty());
    lemma_retained_sizes(asts, removed, asts.len() as int);
    lemma_sizes_positive_concat(retained(asts, removed, asts.len() as int), added);
}

/// Cleanup only drops bodies.
proof fn lemma_kept_within_sizes(asts: Seq<AsteroidV>, center: Vec2i, threshold: int, k: int)
    requires
        sizes_positive(asts),
    ensures
        sizes_positive(kept_within(asts, center, threshold, k)),
    decreases k,
{
    if k > 0 {
        lemma_kept_within_sizes(asts, center, threshold, k - 1);
        if 0 <= k - 1 < asts.len() && v_len(v_sub(asts[k - 1].pos, center)) <= threshold {
            lemma_sizes_positive_push(kept_within(asts, center, threshold, k - 1), asts[k - 1]);
        }
    }
}

/// Gravity integration changes no size.
proof fn lemma_integrated_all_sizes(asts: Seq<AsteroidV>, step: int)
    requires
        sizes_positive(asts),
    ensures
        sizes_positive(integrated_all(asts, step)),
{
    assert forall|i: int|
        0 <= i < integrated_all(asts, step).len() implies #[trigger] integrated_all(
        asts,
        step,
    )[i].size > 0 by {
        assert(integrated_all(asts, step)[i] == integrated(asts[i], asts, step));
    }
}

/// The live-body invariant holds across a whole tick: integration and the
/// ship pass never change a size, merges only add positive sizes, and
/// cleanup only drops bodies. No tick can produce a body of non-positive
/// size.
pub proof fn lemma_tick_preserves_positive_sizes(w: WorldV, tick_duration: int, wall_now: int)
    requires
        sizes_positive(w.asteroids),
    ensures
        sizes_positive(ticked(w, tick_duration, wall_now).asteroids),
{
    lemma_integrated_all_sizes(w.asteroids, tick_duration);
    let asts1 = integrated_all(w.asteroids, tick_duration);
    lemma_merge_pass_sizes(asts1);
    let asts2 = merge_pass(asts1);
    let asts3 = match w.ship {
        Some(s) => {
            lemma_ship_updated_sizes(s, asts2, tick_duration);
            ship_updated(s, asts2, tick_duration).1
        },
        None => asts2,
    };
    lemma_kept_within_sizes(
        asts3,
        center_of_mass(asts3, true),
        fx_mul(mass_std(asts3, center_of_mass(asts3, true)), w.cleanup_threshold_multiplier),
        asts3.len() as int,
    );
}

/// The live-body invariant holds over any run of whole ticks.
pub proof fn lemma_update_preserves_positive_sizes(
    w: WorldV,
    tick_duration: int,
    n: nat,
    wall_now: int,
)
    requires
        sizes_positive(w.asteroids),
    ensures
        sizes_positive(updated_n(w, tick_duration, n, wall_now).asteroids),
    decreases n,
{
    if n > 0 {
        lemma_update_preserves_positive_sizes(w, tick_duration, (n - 1) as nat, wall_now);
        lemma_tick_preserves_positive_sizes(
            updated_n(w, tick_duration, (n - 1) as nat, wall_now),
            tick_duration,
            wall_now,
        );
    }
}

/// Tick quantization: as long as the world clock does not saturate, `n` ticks
/// advance `world_time` by exactly `n` tick durations — no simulated time is
/// lost or invented, whatever else the ticks do to the bodies. Together with
/// the contract of [`WorldState::update`] (which consumes exactly
/// `tick_count(delta, dur)` ticks and returns `tick_count(delta, dur) * dur`),
/// this pins the clock: `update(k·dur + r)` with `0 <= r < dur` consumes
/// exactly `k·dur` and advances `world_time` by exactly that amount.
pub proof fn lemma_tick_quantization(w: WorldV, dur: int, n: nat, wall_now: int)
    requires
        0 <= w.world_time,
        0 <= dur,
        w.world_time + n * dur <= i64::MAX as int,
    ensures
        updated_n(w, dur, n, wall_now).world_time == w.world_time + n * dur,
    decreases n,
{
    if n == 0 {
        assert(n * dur == 0) by (nonlinear_arith)
            requires
                n == 0;
    } else {
        let m = (n - 1) as nat;
        assert(m * dur + dur == n * dur && 0 <= m * dur) by (nonlinear_arith)
            requires
                0 <= dur,
                m == n - 1,
                0 <= m;
        lemma_tick_quantization(w, dur, m, wall_now);
        assert(updated_n(w, dur, n, wall_now) == ticked(
            updated_n(w, dur, m, wall_now),
            dur,
            wall_now,
        ));
        assert(updated_n(w, dur, n, wall_now).world_time == fx_add(w.world_time + m * dur, dur));
    }
}

/// Cleanup eviction: a body farther from the mass-weighted center of mass
/// than `multiplier` (count-weighted) standard deviations is removed by the
/// cleanup pass; a body within that radius is retained.
pub proof fn lemma_cleanup_eviction(asts: Seq<AsteroidV>, multiplier: int, i: int)
    requires
        0 <= i < asts.len(),
    ensures
        ({
            let center = center_of_mass(asts, true);
            let threshold = fx_mul(mass_std(asts, center), multiplier);
            &&& v_len(v_sub(asts[i].pos, center)) > threshold ==> !cleanup_pass(
                asts,
                multiplier,
            ).contains(asts[i])
            &&& v_len(v_sub(asts[i].pos, center)) <= threshold ==> cleanup_pass(
                asts,
                multiplier,
            ).contains(asts[i])
        }),
{
    let center = center_of_mass(asts, true);
    let threshold = fx_mul(mass_std(asts, center), multiplier);
    lemma_kept_within_contains(asts, center, threshold, asts.len() as int, asts[i]);
    if v_len(v_sub(asts[i].pos, center)) <= threshold {
        assert(exists|idx: int|
            0 <= idx < asts.len() && asts[idx] == asts[i] && v_len(v_sub(asts[i].pos, center))
                <= threshold) by {
            assert(asts[i] == asts[i]);
        }
    }
}

/// What the cleanup prefix holds: exactly the bodies of the prefix whose
/// distance from the center is within the threshold.
proof fn lemma_kept_within_contains(
    asts: Seq<AsteroidV>,
    center: Vec2i,
    threshold: int,
    k: int,
    a: AsteroidV,
)
    requires
        0 <= k <= asts.len(),
    ensures
        kept_within(asts, center, threshold, k).contains(a) <==> exists|idx: int|
            0 <= idx < k && asts[idx] == a && v_len(v_sub(a.pos, center)) <= threshold,
    decreases k,
{
    if k == 0 {
    } else {
        lemma_kept_within_contains(asts, center, threshold, k - 1, a);
        let prev = kept_within(asts, center, threshold, k - 1);
        let cur = kept_within(asts, center, threshold, k);
        if 0 <= k - 1 < asts.len() && v_len(v_sub(asts[k - 1].pos, center)) <= threshold {
            assert(cur == prev.push(asts[k - 1]));
            if cur.contains(a) {
                let w = choose|w: int| 0 <= w < cur.len() && cur[w] == a;
                if w < prev.len() {
                    assert(prev[w] == a);
                } else {
                    assert(a == asts[k - 1]);
                }
            }
            if prev.contains(a) {
                let w = choose|w: int| 0 <= w < prev.len() && prev[w] == a;
                assert(cur[w] == a);
            }
            if a == asts[k - 1] {
                assert(cur[cur.len() - 1] == a);
            }
        }
    }
}

impl Default for WorldState {
    /// The default world: 100 ticks per second, cleanup threshold of 10
    /// standard deviations.
    fn default() -> (r: WorldState)
        ensures
            r@ == (WorldV {
                asteroids: Seq::<AsteroidV>::empty(),
                ship: None,
                world_time: 0,
                tick_rate: 100 * SCALE as int,
                cleanup_threshold_multiplier: 10 * SCALE as int,
                update_count: 0,
                last_ups_time: 0,
                updates_per_second: 0,
            }),
    {
        WorldState::new(Scalar::from_int(100), Scalar::from_int(10))
    }
}

} // verus!
