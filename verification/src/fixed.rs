//! Decimal fixed-point coordinates.
//!
//! A plot coordinate is carried as a count of steps of `10^-12`, so that
//! comparisons, halving, doubling, rounding to a multiple of ten and the
//! decimal exponent are all exact integer computations.

use vstd::prelude::*;

verus! {

/// Steps per whole unit: `10^12`.
pub const ONE: i128 = 1_000_000_000_000;

/// Steps per ten whole units: `10^13`.  The x-axis upper bound is rounded
/// up to a multiple of this.
pub const TEN: i128 = 10_000_000_000_000;

/// Steps of the logarithmic floor `10^-10`, used in place of a zero or
/// negative y minimum.
pub const LOG_FLOOR: i128 = 100;

/// Largest step count a well-formed coordinate may carry (`10^32`, i.e. a
/// magnitude of `10^20` whole units).  The bound keeps every arithmetic
/// step of the planner inside `i128`.
pub const MAX_UNITS: i128 = 100_000_000_000_000_000_000_000_000_000_000;

/// Mathematical `10^e`.
pub open spec fn pow10(e: nat) -> int
    decreases e,
{
    if e == 0 {
        1
    } else {
        10 * pow10((e - 1) as nat)
    }
}

pub broadcast proof fn lemma_pow10_pos(e: nat)
    ensures
        #[trigger] pow10(e) >= 1,
    decreases e,
{
    if e > 0 {
        lemma_pow10_pos((e - 1) as nat);
    }
}

/// A decimal fixed-point number; its value is `units * 10^-12`.
#[derive(Clone, Copy, PartialEq, Eq, Structural, Debug)]
pub struct Fixed {
    pub units: i128,
}

impl Fixed {
    /// A coordinate the planner accepts: bounded so that doubling it or
    /// rounding it up stays inside `i128`.
    pub open spec fn wf(self) -> bool {
        -MAX_UNITS <= self.units <= MAX_UNITS
    }

    /// Builds a coordinate from a raw step count (steps of `10^-12`).
    pub fn from_units(units: i128) -> (r: Fixed)
        ensures
            r.units == units,
    {
        Fixed { units }
    }

    /// Builds a coordinate from a count of whole units.
    pub fn from_int(v: i64) -> (r: Fixed)
        ensures
            r.units == v * ONE,
            r.wf(),
    {
        Fixed { units: (v as i128) * ONE }
    }
}

/// The least multiple of ten whole units that is not below `u` steps.
pub open spec fn round_up_ten(u: int) -> int {
    if u % (TEN as int) == 0 {
        u
    } else {
        (u / (TEN as int)) * (TEN as int) + (TEN as int)
    }
}

/// The rounded x upper bound is a multiple of ten whole units, is not
/// below the value it rounds, and exceeds it by less than ten units.
pub proof fn lemma_round_up_ten(u: int)
    ensures
        round_up_ten(u) % (TEN as int) == 0,
        round_up_ten(u) >= u,
        round_up_ten(u) < u + (TEN as int),
{
}

/// Rounds a coordinate up to the next multiple of ten whole units.
pub fn round_up_to_ten(x: Fixed) -> (r: Fixed)
    requires
        x.wf(),
    ensures
        r.units == round_up_ten(x.units as int),
{
    let u = x.units;
    if u >= 0 {
        let m: u128 = u as u128;
        let q: u128 = m / (TEN as u128);
        let rem: u128 = m % (TEN as u128);
        if rem == 0 {
            x
        } else {
            Fixed { units: ((q + 1) * (TEN as u128)) as i128 }
        }
    } else {
        let m: u128 = (-u) as u128;
        let q: u128 = m / (TEN as u128);
        let rem: u128 = m % (TEN as u128);
        if rem == 0 {
            x
        } else {
            let down: i128 = (q * (TEN as u128)) as i128;
            assert(u as int == -(TEN as int) * (q as int) - (rem as int));
            assert(u as int == (TEN as int) * (-(q as int) - 1) + ((TEN as int) - rem as int));
            Fixed { units: -down }
        }
    }
}

/// Halves a positive y minimum (in steps, rounding down).
pub fn halve(y: Fixed) -> (r: Fixed)
    requires
        y.wf(),
        y.units > 0,
    ensures
        r.units == y.units as int / 2,
{
    Fixed { units: ((y.units as u128) / 2) as i128 }
}

/// The floor of the base-ten logarithm of a positive integer.
pub open spec fn floor_log10(n: int) -> int
    recommends
        n >= 1,
    decreases n,
{
    if n < 10 {
        0
    } else {
        1 + floor_log10(n / 10)
    }
}

/// `floor_log10` deserves its name: it is the unique exponent whose power
/// of ten brackets `n`.
pub proof fn lemma_floor_log10_brackets(n: int)
    requires
        n >= 1,
    ensures
        floor_log10(n) >= 0,
        pow10(floor_log10(n) as nat) <= n < pow10((floor_log10(n) + 1) as nat),
    decreases n,
{
    if n < 10 {
    } else {
        lemma_floor_log10_brackets(n / 10);
        let d = floor_log10(n / 10);
        assert(pow10((d + 1) as nat) == 10 * pow10(d as nat));
        assert(pow10((d + 2) as nat) == 10 * pow10((d + 1) as nat));
        assert(n / 10 >= pow10(d as nat));
        assert(n >= 10 * (n / 10));
        assert(n / 10 + 1 <= pow10((d + 1) as nat));
        assert(n < 10 * (n / 10) + 10);
    }
}

/// The shared decimal exponent of the y axis: the floor of the base-ten
/// logarithm of the value `u * 10^-12`, or zero when the value is not
/// positive (a logarithm of such a value is undefined).
pub open spec fn exponent_spec(u: int) -> int {
    if u <= 0 {
        0
    } else {
        floor_log10(u) - 12
    }
}

/// Computes the shared decimal exponent of a y maximum.
pub fn exponent_of(y_max: Fixed) -> (e: i32)
    requires
        y_max.wf(),
    ensures
        e == exponent_spec(y_max.units as int),
        -12 <= e <= 21,
{
    if y_max.units <= 0 {
        0
    } else {
        let mut n: u128 = y_max.units as u128;
        let mut d: i32 = 0;
        proof {
            lemma_floor_log10_mono_bound(n as int);
        }
        while n >= 10
            invariant
                1 <= n,
                0 <= d <= 33,
                floor_log10(y_max.units as int) == d + floor_log10(n as int),
                floor_log10(n as int) <= 33 - d,
            decreases n,
        {
            proof {
                lemma_floor_log10_nonneg(n as int / 10);
                assert(floor_log10(n as int) == 1 + floor_log10(n as int / 10));
            }
            n = n / 10;
            d = d + 1;
        }
        d - 12
    }
}

/// `floor_log10` of a positive integer is never negative.
proof fn lemma_floor_log10_nonneg(n: int)
    requires
        n >= 1,
    ensures
        floor_log10(n) >= 0,
    decreases n,
{
    if n >= 10 {
        lemma_floor_log10_nonneg(n / 10);
    }
}

/// `floor_log10` of a bounded step count is itself bounded.
proof fn lemma_floor_log10_mono_bound(n: int)
    requires
        1 <= n <= MAX_UNITS,
    ensures
        floor_log10(n) <= 33,
{
    lemma_floor_log10_brackets(n);
    if floor_log10(n) > 33 {
        lemma_pow10_ge(34nat, floor_log10(n) as nat);
        assert(pow10(34nat) > MAX_UNITS) by {
            reveal_with_fuel(pow10, 36);
        }
    }
}

/// `pow10` does not decrease as the exponent grows.
pub proof fn lemma_pow10_ge(e1: nat, e2: nat)
    requires
        e1 <= e2,
    ensures
        pow10(e1) <= pow10(e2),
    decreases e2,
{
    if e1 < e2 {
        lemma_pow10_ge(e1, (e2 - 1) as nat);
        lemma_pow10_pos((e2 - 1) as nat);
    }
}

/// Computes `10^e` for exponents small enough to fit in `u128`.
pub fn pow10_u128(e: u32) -> (r: u128)
    requires
        e <= 37,
    ensures
        r == pow10(e as nat),
{
    let mut r: u128 = 1;
    let mut i: u32 = 0;
    while i < e
        invariant
            i <= e,
            e <= 37,
            r == pow10(i as nat),
        decreases e - i,
    {
        proof {
            assert(pow10((i + 1) as nat) == 10 * pow10(i as nat));
            lemma_pow10_ge((i + 1) as nat, 38nat);
            assert(pow10(38nat) <= u128::MAX) by {
                reveal_with_fuel(pow10, 39);
            }
        }
        r = r * 10;
        i = i + 1;
    }
    r
}

/// Doubles a y maximum to leave headroom above the curve.
pub fn double(y: Fixed) -> (r: Fixed)
    requires
        y.wf(),
    ensures
        r.units == 2 * (y.units as int),
{
    Fixed { units: y.units * 2 }
}

} // verus!
