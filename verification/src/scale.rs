//! Fixed-point parameter scaling.
//!
//! A real quantity `r` is stored as the integer `floor(r * UNIT)`, so `UNIT`
//! stands for `1.0` and a normalized coordinate is an integer in `[0, UNIT]`.
//! Discrete parameters are plain integers. Both kinds are scaled by the same
//! rule: the normalized coordinate selects a point of `[min, max]` linearly,
//! rounding towards negative infinity.

use vstd::prelude::*;
use vstd::arithmetic::div_mod::lemma_fundamental_div_mod;
use vstd::arithmetic::div_mod::lemma_fundamental_div_mod_converse;

verus! {

/// The fixed-point representation of `1.0`.
pub const UNIT: i64 = 1_000_000;

/// `value` limited to `[min, max]`.
pub open spec fn clamped(value: int, min: int, max: int) -> int {
    if value < min {
        min
    } else if value > max {
        max
    } else {
        value
    }
}

/// `part / whole` as a fixed-point number, rounded down.
pub open spec fn fraction(part: int, whole: int) -> int {
    (part * UNIT) / whole
}

/// The distance covered in a range of width `max - min` by the normalized
/// amount `normalized`, rounded down.
pub open spec fn span_part(normalized: int, min: int, max: int) -> int {
    (normalized * (max - min)) / (UNIT as int)
}

/// The point of `[min, max]` that the normalized coordinate selects.
pub open spec fn scaled(normalized: int, min: int, max: int) -> int {
    min + span_part(normalized, min, max)
}

/// The parameter `old` moved by the normalized amount `delta` and held
/// inside `[min, max]`.
pub open spec fn accumulated(old: int, delta: int, min: int, max: int) -> int {
    clamped(old + span_part(delta, min, max), min, max)
}

/// A normalized coordinate inside a range of non-negative width stays inside
/// the range, and the two ends of the coordinate select the two ends of the
/// range.
pub proof fn lemma_scaled_in_range(normalized: int, min: int, max: int)
    requires
        0 <= normalized <= UNIT,
        min <= max,
    ensures
        min <= scaled(normalized, min, max) <= max,
        scaled(0, min, max) == min,
        scaled(UNIT as int, min, max) == max,
{
    let span = max - min;
    assert(0 <= normalized * span <= UNIT * span) by (nonlinear_arith)
        requires
            0 <= normalized <= UNIT,
            0 <= span,
    ;
    assert(0 * span == 0);
}

/// A larger normalized coordinate never selects a smaller value.
pub proof fn lemma_scaled_monotonic(low: int, high: int, min: int, max: int)
    requires
        low <= high,
        min <= max,
    ensures
        scaled(low, min, max) <= scaled(high, min, max),
{
    let span = max - min;
    assert(low * span <= high * span) by (nonlinear_arith)
        requires
            low <= high,
            0 <= span,
    ;
}

/// Accumulation never leaves the range, whatever the old value and the
/// amount of motion.
pub proof fn lemma_accumulated_in_range(old: int, delta: int, min: int, max: int)
    requires
        min <= max,
    ensures
        min <= accumulated(old, delta, min, max) <= max,
{
}

/// No motion leaves a value that is inside its range where it is.
pub proof fn lemma_accumulated_still(old: int, min: int, max: int)
    requires
        min <= old <= max,
    ensures
        accumulated(old, 0, min, max) == old,
{
    assert(0 * (max - min) == 0);
}

/// Floor division by a positive divisor.
fn floor_div(a: i128, b: i128) -> (q: i128)
    requires
        b > 0,
        a > i128::MIN + b,
    ensures
        q == a as int / b as int,
{
    if a >= 0 {
        a / b
    } else {
        let n: i128 = -a;
        let up: i128 = (n + (b - 1)) / b;
        let q: i128 = -up;
        proof {
            let r: int = (n + (b - 1)) % (b as int);
            assert((n + (b - 1)) == b * up + r && 0 <= r < b) by {
                lemma_fundamental_div_mod(n + (b - 1), b as int);
            }
            let rem: int = b - 1 - r;
            assert(a == b * q + rem) by (nonlinear_arith)
                requires
                    n + (b - 1) == b * up + r,
                    rem == b - 1 - r,
                    q == -up,
                    n == -a,
            ;
            lemma_fundamental_div_mod_converse(a as int, b as int, q as int, rem);
        }
        q
    }
}

/// A floor quotient by a divisor of at least one is no farther from zero
/// than the dividend.
proof fn lemma_quotient_bounded(a: int, b: int)
    requires
        b >= 1,
    ensures
        a >= 0 ==> 0 <= a / b <= a,
        a < 0 ==> a <= a / b < 0,
{
    let q = a / b;
    let r = a % b;
    lemma_fundamental_div_mod(a, b);
    assert(a == b * q + r && 0 <= r < b);
    if a >= 0 {
        assert(0 <= q <= a) by (nonlinear_arith)
            requires
                a == b * q + r,
                0 <= r < b,
                b >= 1,
                a >= 0,
        ;
    } else {
        assert(a <= q < 0) by (nonlinear_arith)
            requires
                a == b * q + r,
                0 <= r < b,
                b >= 1,
                a < 0,
        ;
    }
}

/// The position `part` inside an extent `whole`, as a fixed-point fraction.
///
/// The result is not clamped: a position outside the extent gives a
/// fraction below zero or above `UNIT`.
pub fn ratio(part: i32, whole: u32) -> (r: i64)
    requires
        whole > 0,
    ensures
        r == fraction(part as int, whole as int),
        part >= 0 ==> 0 <= r <= part * UNIT,
        part < 0 ==> part * UNIT <= r < 0,
{
    let scaled_part: i128 = (part as i128) * 1_000_000;
    let q: i128 = floor_div(scaled_part, whole as i128);
    proof {
        lemma_quotient_bounded(scaled_part as int, whole as int);
    }
    q as i64
}

/// `span_part` on machine integers, for a range of non-negative width.
fn span_part_of(normalized: i64, min: i64, max: i64) -> (d: i128)
    requires
        min <= max,
    ensures
        d == span_part(normalized as int, min as int, max as int),
        -0x8000_0000_0000_0000_0000_0000_0000 <= d <= 0x8000_0000_0000_0000_0000_0000_0000,
{
    let span: i128 = (max as i128) - (min as i128);
    assert(-0x8000_0000_0000_0000 * span <= normalized * span <= 0x8000_0000_0000_0000 * span)
        by (nonlinear_arith)
        requires
            -0x8000_0000_0000_0000 <= normalized <= 0x8000_0000_0000_0000,
            0 <= span,
    ;
    let product: i128 = (normalized as i128) * span;
    floor_div(product, 1_000_000)
}

/// Maps a normalized coordinate linearly onto the continuous range
/// `[min, max]`: `normalized * (max - min) + min` in fixed point.
pub fn scale_continuous(normalized: i64, min: i64, max: i64) -> (value: i64)
    requires
        0 <= normalized <= UNIT,
        min <= max,
    ensures
        value == scaled(normalized as int, min as int, max as int),
        min <= value <= max,
{
    proof {
        lemma_scaled_in_range(normalized as int, min as int, max as int);
    }
    let part: i128 = span_part_of(normalized, min, max);
    ((min as i128) + part) as i64
}

/// Maps a normalized coordinate onto the integer range `[min, max]`: the
/// floor of `normalized * (max - min)`, added to `min`.
pub fn scale_discrete(normalized: i64, min: i32, max: i32) -> (value: i32)
    requires
        0 <= normalized <= UNIT,
        min <= max,
    ensures
        value == scaled(normalized as int, min as int, max as int),
        min <= value <= max,
{
    proof {
        lemma_scaled_in_range(normalized as int, min as int, max as int);
    }
    let part: i128 = span_part_of(normalized, min as i64, max as i64);
    ((min as i128) + part) as i32
}

/// Moves a continuous parameter by a normalized amount of motion and holds
/// it inside `[min, max]`: `clamp(old + delta * (max - min), min, max)`.
pub fn accumulate_continuous(old: i64, delta: i64, min: i64, max: i64) -> (value: i64)
    requires
        min <= max,
    ensures
        value == accumulated(old as int, delta as int, min as int, max as int),
        min <= value <= max,
{
    let part: i128 = span_part_of(delta, min, max);
    let moved: i128 = (old as i128) + part;
    if moved < min as i128 {
        min
    } else if moved > max as i128 {
        max
    } else {
        moved as i64
    }
}

/// Moves a discrete parameter by a normalized amount of motion and holds it
/// inside `[min, max]`: `clamp(old + floor(delta * (max - min)), min, max)`.
///
/// The floor rounds towards negative infinity, so a motion against the axis
/// moves the parameter by at least one step, however small the motion.
pub fn accumulate_discrete(old: i32, delta: i64, min: i32, max: i32) -> (value: i32)
    requires
        min <= max,
    ensures
        value == accumulated(old as int, delta as int, min as int, max as int),
        min <= value <= max,
{
    let part: i128 = span_part_of(delta, min as i64, max as i64);
    let moved: i128 = (old as i128) + part;
    if moved < min as i128 {
        min
    } else if moved > max as i128 {
        max
    } else {
        moved as i32
    }
}

} // verus!
