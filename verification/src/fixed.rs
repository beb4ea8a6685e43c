//! Fixed-point scalars.
//!
//! Every quantity of the simulation (positions, velocities, sizes, times) is a
//! [`Scalar`]: an `i64` count of 1/[`SCALE`] units. Arithmetic is exact up to
//! two explicit, fully specified roundings: results are truncated toward zero
//! at the 1/[`SCALE`] grid, and results outside the `i64` range saturate at
//! the nearest representable value. Nothing here panics and nothing is left
//! undefined: division by zero and the square root of a negative number are
//! both defined as zero, so callers state exact contracts for every input.

use vstd::arithmetic::div_mod::{
    lemma_div_nonincreasing, lemma_div_pos_is_pos, lemma_fundamental_div_mod, lemma_mod_bound,
};
use vstd::prelude::*;

verus! {

/// Number of fixed-point steps per unit; the value of a [`Scalar`] with raw
/// representation `raw` is `raw / SCALE`.
pub const SCALE: i64 = 2147483648;

/// Largest integer `v` such that `v * SCALE` still fits in an `i64`.
pub const INT_LIMIT: i64 = 4294967295;

/// Saturation to the `i64` range: the value actually stored when a raw
/// computation lands outside it.
pub open spec fn sat64(x: int) -> int {
    if x > i64::MAX as int {
        i64::MAX as int
    } else if x < i64::MIN as int {
        i64::MIN as int
    } else {
        x
    }
}

/// Saturation to the `u128` range, for wide nonnegative accumulators.
pub open spec fn sat_u128(x: int) -> int {
    if x > u128::MAX as int {
        u128::MAX as int
    } else {
        x
    }
}

/// Division truncated toward zero (the rounding of Rust's `/` on signed
/// integers), total: division by zero yields zero.
pub open spec fn div_trunc(x: int, d: int) -> int {
    if d == 0 {
        0
    } else if x == 0 {
        0
    } else if x > 0 && d > 0 {
        x / d
    } else if x < 0 && d < 0 {
        (x * -1) / (d * -1)
    } else if x < 0 {
        ((x * -1) / d) * -1
    } else {
        (x / (d * -1)) * -1
    }
}

/// Raw-level addition: exact sum, saturated to the `i64` range.
pub open spec fn fx_add(a: int, b: int) -> int {
    sat64(a + b)
}

/// Raw-level subtraction.
pub open spec fn fx_sub(a: int, b: int) -> int {
    sat64(a - b)
}

/// Raw-level negation (the negation of `i64::MIN` saturates).
pub open spec fn fx_neg(a: int) -> int {
    sat64(-a)
}

/// Raw-level multiplication: the product of two fixed-point values `a/SCALE`
/// and `b/SCALE` is `a*b/SCALE²`, so the raw result is `a*b/SCALE`, truncated
/// and saturated.
pub open spec fn fx_mul(a: int, b: int) -> int {
    sat64(div_trunc(a * b, SCALE as int))
}

/// Raw-level division: `(a/SCALE) / (b/SCALE)` has raw representation
/// `a*SCALE/b`, truncated and saturated; division by zero yields zero.
pub open spec fn fx_div(a: int, b: int) -> int {
    if b == 0 {
        0
    } else {
        sat64(div_trunc(a * (SCALE as int), b))
    }
}

/// Floor of the square root of an integer (zero for negative input).
pub open spec fn sqrt_floor(n: int) -> int
    decreases n,
{
    if n <= 0 {
        0
    } else {
        let r = sqrt_floor(n - 1);
        if (r + 1) * (r + 1) <= n {
            r + 1
        } else {
            r
        }
    }
}

/// Raw-level square root: `sqrt(a/SCALE)` has raw representation
/// `sqrt(a*SCALE)`, rounded down; negative input yields zero.
pub open spec fn fx_sqrt(a: int) -> int {
    if a <= 0 {
        0
    } else {
        sqrt_floor(a * (SCALE as int))
    }
}

/// `sqrt_floor(n)` is the unique `r >= 0` with `r² <= n < (r+1)²`.
pub proof fn lemma_sqrt_floor(n: int)
    requires
        n >= 0,
    ensures
        sqrt_floor(n) >= 0,
        sqrt_floor(n) * sqrt_floor(n) <= n,
        n < (sqrt_floor(n) + 1) * (sqrt_floor(n) + 1),
    decreases n,
{
    if n == 0 {
    } else {
        lemma_sqrt_floor(n - 1);
        let r = sqrt_floor(n - 1);
        let s = sqrt_floor(n);
        if (r + 1) * (r + 1) <= n {
            assert(s == r + 1);
            assert(n < (s + 1) * (s + 1)) by (nonlinear_arith)
                requires
                    r >= 0,
                    s == r + 1,
                    n - 1 < (r + 1) * (r + 1);
        } else {
            assert(s == r);
        }
    }
}

/// Any `r >= 0` with `r² <= n < (r+1)²` equals `sqrt_floor(n)`.
pub proof fn lemma_sqrt_floor_unique(n: int, r: int)
    requires
        n >= 0,
        r >= 0,
        r * r <= n,
        n < (r + 1) * (r + 1),
    ensures
        r == sqrt_floor(n),
{
    lemma_sqrt_floor(n);
    let s = sqrt_floor(n);
    assert(!(r < s) && !(s < r)) by (nonlinear_arith)
        requires
            r >= 0,
            s >= 0,
            r * r <= n,
            n < (r + 1) * (r + 1),
            s * s <= n,
            n < (s + 1) * (s + 1),
    ;
}

/// Truncating division by a positive divisor never grows a magnitude.
pub proof fn lemma_div_trunc_bounds(x: int, d: int)
    requires
        d >= 1,
    ensures
        x >= 0 ==> 0 <= div_trunc(x, d) <= x,
        x < 0 ==> x <= div_trunc(x, d) <= 0,
{
    if x == 0 {
    } else if x > 0 {
        lemma_div_pos_is_pos(x, d);
        lemma_div_nonincreasing(x, d);
    } else {
        lemma_div_pos_is_pos(x * -1, d);
        lemma_div_nonincreasing(x * -1, d);
    }
}

/// Multiplying a truncated quotient back by the divisor lands within one
/// divisor of the dividend, on the side of zero.
pub proof fn lemma_div_trunc_close(x: int, d: int)
    requires
        d >= 1,
    ensures
        x - d < div_trunc(x, d) * d,
        div_trunc(x, d) * d < x + d,
        x >= 0 ==> div_trunc(x, d) * d <= x,
        x < 0 ==> x <= div_trunc(x, d) * d,
{
    if x == 0 {
    } else if x > 0 {
        lemma_fundamental_div_mod(x, d);
        lemma_mod_bound(x, d);
        let q = x / d;
        assert(div_trunc(x, d) == q);
        assert(q * d == d * q) by (nonlinear_arith);
        assert(q * d == x - x % d);
    } else {
        let y = x * -1;
        lemma_fundamental_div_mod(y, d);
        lemma_mod_bound(y, d);
        let q = y / d;
        assert(div_trunc(x, d) == q * -1);
        assert(q * d == d * q) by (nonlinear_arith);
        assert((q * -1) * d == -(q * d)) by (nonlinear_arith);
        assert(div_trunc(x, d) * d == -(y - y % d));
    }
}

/// A dividend bounded by `c` divisors gives a quotient bounded by `c`.
pub proof fn lemma_div_trunc_mag(x: int, d: int, c: int)
    requires
        d >= 1,
        c >= 0,
        -(c * d) <= x <= c * d,
    ensures
        -c <= div_trunc(x, d) <= c,
{
    lemma_div_trunc_close(x, d);
    let q = div_trunc(x, d);
    assert(-c <= q <= c) by (nonlinear_arith)
        requires
            d >= 1,
            c >= 0,
            -(c * d) <= x <= c * d,
            x - d < q * d,
            q * d < x + d;
}

/// A fixed-point number: the value `raw / SCALE`.
#[derive(Clone, Copy, PartialEq, Eq, Structural, Debug)]
pub struct Scalar {
    pub raw: i64,
}

impl View for Scalar {
    type V = int;

    open spec fn view(&self) -> int {
        self.raw as int
    }
}

/// Saturate a wide intermediate result to the `i64` range.
pub(crate) fn clamp_i64(w: i128) -> (r: i64)
    ensures
        r as int == sat64(w as int),
{
    if w > i64::MAX as i128 {
        i64::MAX
    } else if w < i64::MIN as i128 {
        i64::MIN
    } else {
        w as i64
    }
}

/// The square of a raw value, as an unsigned wide integer.
pub(crate) fn sq_mag(v: i64) -> (r: u128)
    ensures
        r as int == (v as int) * (v as int),
        r <= 0x4000_0000_0000_0000_0000_0000_0000_0000,
{
    proof {
        assert(0 <= (v as int) * (v as int) <= 0x4000_0000_0000_0000_0000_0000_0000_0000int)
            by (nonlinear_arith)
            requires
                i64::MIN <= v <= i64::MAX;
    }
    let w: i128 = (v as i128) * (v as i128);
    w as u128
}

/// Floor of the square root, by binary search over the raw integers.
pub(crate) fn isqrt_u128(n: u128) -> (r: u128)
    ensures
        r as int == sqrt_floor(n as int),
{
    let mut lo: u128 = 0;
    let mut hi: u128 = 0x1_0000_0000_0000_0000;
    assert((n as int) < (hi as int) * (hi as int)) by (nonlinear_arith)
        requires
            n <= u128::MAX,
            hi as int == 0x1_0000_0000_0000_0000,
    ;
    while lo + 1 < hi
        invariant
            0 <= lo < hi <= 0x1_0000_0000_0000_0000,
            (lo as int) * (lo as int) <= n as int,
            (n as int) < (hi as int) * (hi as int),
        decreases hi - lo,
    {
        let mid: u128 = lo + (hi - lo) / 2;
        assert((mid as int) * (mid as int) <= u128::MAX as int) by (nonlinear_arith)
            requires
                0 <= mid < 0x1_0000_0000_0000_0000,
        ;
        if mid * mid <= n {
            lo = mid;
        } else {
            hi = mid;
        }
    }
    proof {
        lemma_sqrt_floor_unique(n as int, lo as int);
    }
    lo
}

impl Scalar {
    /// The value zero.
    pub fn zero() -> (r: Scalar)
        ensures
            r@ == 0,
    {
        Scalar { raw: 0 }
    }

    /// The value one.
    pub fn one() -> (r: Scalar)
        ensures
            r@ == SCALE as int,
    {
        Scalar { raw: SCALE }
    }

    /// The value `raw / SCALE`.
    pub fn from_raw(raw: i64) -> (r: Scalar)
        ensures
            r@ == raw as int,
    {
        Scalar { raw }
    }

    /// The exact fixed-point image of an integer.
    pub fn from_int(v: i64) -> (r: Scalar)
        requires
            -INT_LIMIT <= v <= INT_LIMIT,
        ensures
            r@ == v * (SCALE as int),
    {
        Scalar { raw: v * SCALE }
    }

    /// Saturating addition.
    pub fn add(self, o: Scalar) -> (r: Scalar)
        ensures
            r@ == fx_add(self@, o@),
    {
        Scalar { raw: clamp_i64(self.raw as i128 + o.raw as i128) }
    }

    /// Saturating subtraction.
    pub fn sub(self, o: Scalar) -> (r: Scalar)
        ensures
            r@ == fx_sub(self@, o@),
    {
        Scalar { raw: clamp_i64(self.raw as i128 - o.raw as i128) }
    }

    /// Saturating negation.
    pub fn neg(self) -> (r: Scalar)
        ensures
            r@ == fx_neg(self@),
    {
        Scalar { raw: clamp_i64(-(self.raw as i128)) }
    }

    /// Truncating, saturating multiplication.
    pub fn mul(self, o: Scalar) -> (r: Scalar)
        ensures
            r@ == fx_mul(self@, o@),
    {
        proof {
            assert(i128::MIN as int <= (self.raw as int) * (o.raw as int) <= i128::MAX as int)
                by (nonlinear_arith)
                requires
                    i64::MIN <= self.raw <= i64::MAX,
                    i64::MIN <= o.raw <= i64::MAX,
            ;
        }
        let w: i128 = (self.raw as i128) * (o.raw as i128);
        proof {
            lemma_div_trunc_bounds(w as int, SCALE as int);
        }
        let q: i128 = match w.checked_div(SCALE as i128) {
            Some(q) => q,
            None => 0,
        };
        Scalar { raw: clamp_i64(q) }
    }

    /// Truncating, saturating division; division by zero yields zero.
    pub fn div(self, o: Scalar) -> (r: Scalar)
        ensures
            r@ == fx_div(self@, o@),
    {
        if o.raw == 0 {
            Scalar { raw: 0 }
        } else {
            let w: i128 = (self.raw as i128) * (SCALE as i128);
            proof {
                lemma_div_trunc_bounds_any(w as int, o.raw as int);
            }
            let q: i128 = match w.checked_div(o.raw as i128) {
                Some(q) => q,
                None => 0,
            };
            Scalar { raw: clamp_i64(q) }
        }
    }

    /// Square root, rounded down to the fixed-point grid; negative input
    /// yields zero.
    pub fn sqrt(self) -> (r: Scalar)
        ensures
            r@ == fx_sqrt(self@),
    {
        if self.raw <= 0 {
            Scalar { raw: 0 }
        } else {
            let n: u128 = (self.raw as u128) * (SCALE as u128);
            let s: u128 = isqrt_u128(n);
            proof {
                lemma_sqrt_floor(n as int);
                assert(s as int <= i64::MAX as int) by (nonlinear_arith)
                    requires
                        s as int >= 0,
                        (s as int) * (s as int) <= n as int,
                        n as int <= 0x8000_0000_0000_0000_0000_0000int,
                ;
            }
            Scalar { raw: s as i64 }
        }
    }

    /// Comparison on the underlying values.
    pub fn le(self, o: Scalar) -> (r: bool)
        ensures
            r == (self@ <= o@),
    {
        self.raw <= o.raw
    }

    /// Strict comparison on the underlying values.
    pub fn lt(self, o: Scalar) -> (r: bool)
        ensures
            r == (self@ < o@),
    {
        self.raw < o.raw
    }
}

/// Truncating division by any nonzero divisor never grows a magnitude.
pub proof fn lemma_div_trunc_bounds_any(x: int, d: int)
    requires
        d != 0,
    ensures
        x >= 0 ==> -x <= div_trunc(x, d) <= x,
        x < 0 ==> x <= div_trunc(x, d) <= -x,
{
    if d >= 1 {
        lemma_div_trunc_bounds(x, d);
    } else {
        if x == 0 {
        } else if x > 0 {
            lemma_div_pos_is_pos(x, d * -1);
            lemma_div_nonincreasing(x, d * -1);
        } else {
            lemma_div_pos_is_pos(x * -1, d * -1);
            lemma_div_nonincreasing(x * -1, d * -1);
        }
    }
}

} // verus!
