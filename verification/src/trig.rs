//! Fixed-point sine over binary angle units.
//!
//! Angles are measured in units of 1/65536 of a turn, so a full cycle is
//! `ANGLE_TURN` and reduction modulo one period is exact integer arithmetic.
//! The sine value is Q16.16 fixed point in `[-SIN_ONE, SIN_ONE]`, computed by
//! a rational (Bhaskara-style) approximation on each half turn. The
//! approximation is the library's definition of its wave shape: it is zero
//! exactly at angles `0` and `ANGLE_HALF_TURN`, positive strictly inside the
//! first half turn, negative strictly inside the second, and exactly
//! `SIN_ONE` at a quarter turn.

use vstd::arithmetic::div_mod::lemma_div_is_ordered;
use vstd::arithmetic::div_mod::lemma_div_multiples_vanish;
use vstd::arithmetic::div_mod::lemma_div_non_zero;
use vstd::arithmetic::div_mod::lemma_div_pos_is_pos;
use vstd::arithmetic::mul::lemma_mul_upper_bound;
use vstd::prelude::*;

verus! {

/// Angle units in one full turn.
pub const ANGLE_TURN: u64 = 65536;

/// Angle units in half a turn.
pub const ANGLE_HALF_TURN: u64 = 32768;

/// The Q16.16 fixed-point representation of 1.0, the sine's peak value.
pub const SIN_ONE: i64 = 65536;

/// Rational approximation of `sin` on the first half turn, `0 <= x <= 32768`,
/// scaled so a quarter turn gives exactly 65536.
pub open spec fn sin_half_turn(x: int) -> int
    recommends
        0 <= x <= 32768,
{
    let y = x * (32768 - x);
    (1048576 * y) / (5368709120 - 4 * y)
}

/// The library's sine: odd-symmetric across the two half turns.
pub open spec fn spec_sin(angle: int) -> int
    recommends
        0 <= angle < 65536,
{
    if angle <= 32768 {
        sin_half_turn(angle)
    } else {
        -sin_half_turn(angle - 32768)
    }
}

/// Bounds of the half-turn quadratic `x * (32768 - x)`.
proof fn lemma_quad_bounds(x: int)
    by (nonlinear_arith)
    requires
        0 <= x <= 32768,
    ensures
        0 <= x * (32768 - x) <= 268435456,
        1 <= x <= 32767 ==> 32767 <= x * (32768 - x),
{
}

/// The half-turn sine stays within one Q16.16 unit.
pub proof fn lemma_sin_half_turn_bounds(x: int)
    requires
        0 <= x <= 32768,
    ensures
        0 <= sin_half_turn(x) <= 65536,
{
    let y = x * (32768 - x);
    let num = 1048576 * y;
    let den = 5368709120 - 4 * y;
    lemma_quad_bounds(x);
    lemma_div_pos_is_pos(num, den);
    lemma_div_is_ordered(num, den * 65536, den);
    lemma_div_multiples_vanish(65536, den);
}

/// The sine's sign over one turn: zero exactly at the two half-turn
/// boundaries, positive strictly inside the first half turn, negative
/// strictly inside the second.
pub proof fn lemma_sin_sign(angle: int)
    requires
        0 <= angle < 65536,
    ensures
        angle == 0 || angle == 32768 ==> spec_sin(angle) == 0,
        0 < angle < 32768 ==> spec_sin(angle) >= 1,
        32768 < angle < 65536 ==> spec_sin(angle) <= -1,
{
    if angle == 0 || angle == 32768 {
        assert(spec_sin(angle) == 0);
    } else {
        let x = if angle < 32768 { angle } else { angle - 32768 };
        let y = x * (32768 - x);
        let num = 1048576 * y;
        let den = 5368709120 - 4 * y;
        lemma_quad_bounds(x);
        lemma_div_non_zero(num, den);
    }
}

/// Fixed-point sine of a reduced angle.
pub fn sin_q16(angle: u64) -> (r: i64)
    requires
        angle < 65536,
    ensures
        r == spec_sin(angle as int),
        -65536 <= r <= 65536,
{
    let x: u64 = if angle <= 32768 {
        angle
    } else {
        angle - 32768
    };
    proof {
        lemma_quad_bounds(x as int);
        lemma_sin_half_turn_bounds(x as int);
    }
    let y: u64 = x * (32768 - x);
    let num: u64 = 1048576 * y;
    let den: u64 = 5368709120 - 4 * y;
    let mag: u64 = num / den;
    if angle <= 32768 {
        mag as i64
    } else {
        -(mag as i64)
    }
}

/// The phase argument of the periodic presets, reduced to one turn:
/// `frequency * elapsed` cycles (both Q16.16, so the product carries 32
/// fractional bits and dropping 16 of them leaves angle units), plus the
/// fixed phase shift, plus the per-glyph stagger.
pub open spec fn spec_phase_angle(
    frequency: int,
    elapsed: int,
    phase_shift: int,
    stagger: int,
    index: int,
) -> int {
    ((frequency * elapsed) / 65536 + phase_shift + index * stagger) % 65536
}

/// Computes the reduced phase angle for one glyph.
pub fn phase_angle(
    frequency: u64,
    elapsed_ticks: u64,
    phase_shift: u64,
    stagger: u64,
    index: usize,
) -> (r: u64)
    requires
        phase_shift < 65536,
        stagger < 65536,
    ensures
        r == spec_phase_angle(
            frequency as int,
            elapsed_ticks as int,
            phase_shift as int,
            stagger as int,
            index as int,
        ),
        r < 65536,
{
    proof {
        lemma_mul_upper_bound(
            frequency as int,
            0xffff_ffff_ffff_ffff,
            elapsed_ticks as int,
            0xffff_ffff_ffff_ffff,
        );
        lemma_mul_upper_bound(index as int, 0xffff_ffff_ffff_ffff, stagger as int, 65535);
    }
    let cycles: u128 = ((frequency as u128) * (elapsed_ticks as u128)) / 65536;
    let total: u128 = cycles + (phase_shift as u128) + (index as u128) * (stagger as u128);
    (total % 65536) as u64
}

} // verus!
