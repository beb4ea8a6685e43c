//! Two-dimensional fixed-point vectors.
//!
//! A [`Vector`] carries a position, a velocity or a force. Its mathematical
//! image is a [`Vec2i`]: the pair of raw coordinates as unbounded integers,
//! over which every contract of the simulation is stated.

use crate::fixed::{
    clamp_i64, fx_add, fx_div, fx_mul, fx_neg, fx_sub, sat64, sq_mag, sqrt_floor, Scalar,
};
use vstd::prelude::*;

verus! {

/// The mathematical image of a [`Vector`]: raw coordinates as unbounded
/// integers.
pub struct Vec2i {
    pub x: int,
    pub y: int,
}

/// Componentwise sum.
pub open spec fn v_add(a: Vec2i, b: Vec2i) -> Vec2i {
    Vec2i { x: fx_add(a.x, b.x), y: fx_add(a.y, b.y) }
}

/// Componentwise difference.
pub open spec fn v_sub(a: Vec2i, b: Vec2i) -> Vec2i {
    Vec2i { x: fx_sub(a.x, b.x), y: fx_sub(a.y, b.y) }
}

/// Componentwise negation.
pub open spec fn v_neg(a: Vec2i) -> Vec2i {
    Vec2i { x: fx_neg(a.x), y: fx_neg(a.y) }
}

/// Scaling by a scalar (raw representation `s`).
pub open spec fn v_scale(a: Vec2i, s: int) -> Vec2i {
    Vec2i { x: fx_mul(a.x, s), y: fx_mul(a.y, s) }
}

/// Division by a scalar; a zero divisor yields the zero vector.
pub open spec fn v_div(a: Vec2i, s: int) -> Vec2i {
    Vec2i { x: fx_div(a.x, s), y: fx_div(a.y, s) }
}

/// Euclidean length: the square root of the exact sum of squared raw
/// coordinates, saturated. The squares are taken on the raw integers, so no
/// precision is lost before the root.
pub open spec fn v_len(a: Vec2i) -> int {
    sat64(sqrt_floor(a.x * a.x + a.y * a.y))
}

/// The unit vector in the direction of `a`; the zero vector if `a` has length
/// zero.
pub open spec fn v_norm(a: Vec2i) -> Vec2i {
    v_div(a, v_len(a))
}

/// Fixed-point dot product.
pub open spec fn v_dot(a: Vec2i, b: Vec2i) -> int {
    fx_add(fx_mul(a.x, b.x), fx_mul(a.y, b.y))
}

/// A 2D vector of fixed-point coordinates.
#[derive(Clone, Copy, PartialEq, Eq, Structural, Debug)]
pub struct Vector {
    pub x: Scalar,
    pub y: Scalar,
}

impl View for Vector {
    type V = Vec2i;

    open spec fn view(&self) -> Vec2i {
        Vec2i { x: self.x@, y: self.y@ }
    }
}

impl Vector {
    /// The vector with the given coordinates.
    pub fn new(x: Scalar, y: Scalar) -> (r: Vector)
        ensures
            r@ == (Vec2i { x: x@, y: y@ }),
    {
        Vector { x, y }
    }

    /// The zero vector.
    pub fn zero() -> (r: Vector)
        ensures
            r@ == (Vec2i { x: 0, y: 0 }),
    {
        Vector { x: Scalar::zero(), y: Scalar::zero() }
    }

    /// Componentwise sum.
    pub fn add(self, o: Vector) -> (r: Vector)
        ensures
            r@ == v_add(self@, o@),
    {
        Vector { x: self.x.add(o.x), y: self.y.add(o.y) }
    }

    /// Componentwise difference.
    pub fn sub(self, o: Vector) -> (r: Vector)
        ensures
            r@ == v_sub(self@, o@),
    {
        Vector { x: self.x.sub(o.x), y: self.y.sub(o.y) }
    }

    /// Componentwise negation.
    pub fn neg(self) -> (r: Vector)
        ensures
            r@ == v_neg(self@),
    {
        Vector { x: self.x.neg(), y: self.y.neg() }
    }

    /// Scaling by a scalar.
    pub fn mul(self, s: Scalar) -> (r: Vector)
        ensures
            r@ == v_scale(self@, s@),
    {
        Vector { x: self.x.mul(s), y: self.y.mul(s) }
    }

    /// Division by a scalar; a zero divisor yields the zero vector.
    pub fn div(self, s: Scalar) -> (r: Vector)
        ensures
            r@ == v_div(self@, s@),
    {
        Vector { x: self.x.div(s), y: self.y.div(s) }
    }

    /// Fixed-point dot product.
    pub fn dot(self, o: Vector) -> (r: Scalar)
        ensures
            r@ == v_dot(self@, o@),
    {
        self.x.mul(o.x).add(self.y.mul(o.y))
    }

    /// Euclidean length.
    pub fn length(&self) -> (r: Scalar)
        ensures
            r@ == v_len(self@),
            0 <= r@,
    {
        let xx: u128 = sq_mag(self.x.raw);
        let yy: u128 = sq_mag(self.y.raw);
        let s: u128 = isqrt_sum(xx, yy);
        if s > i64::MAX as u128 {
            Scalar { raw: i64::MAX }
        } else {
            Scalar { raw: s as i64 }
        }
    }

    /// The unit vector in this vector's direction; the zero vector if the
    /// length is zero.
    pub fn norm(&self) -> (r: Vector)
        ensures
            r@ == v_norm(self@),
    {
        let len = self.length();
        self.div(len)
    }
}

/// Square root of the sum of two squares that each fit in 126 bits.
fn isqrt_sum(xx: u128, yy: u128) -> (r: u128)
    requires
        xx <= 0x4000_0000_0000_0000_0000_0000_0000_0000,
        yy <= 0x4000_0000_0000_0000_0000_0000_0000_0000,
    ensures
        r as int == sqrt_floor(xx as int + yy as int),
{
    crate::fixed::isqrt_u128(xx + yy)
}

} // verus!
