//! Fixed-point angles.
//!
//! An angle is an `i64` that counts nanoradians, so `UNIT` stands for one
//! radian. A power scale is counted in the same unit: `UNIT` is full power.
//! The circle constant is the five-decimal value that the whole controller is
//! tuned with, which makes every constant below an exact integer but the
//! thirds of a turn, which are rounded down.
//!
//! Counting in integers keeps the rules of the controller exact: what is
//! normalised, clamped, averaged or compared has no rounding but the one
//! that its definition names. Only the cosine of a duty cycle is left to
//! floating point, and that is taken outside this crate.

use vstd::prelude::*;

verus! {

/// One radian, and full power.
pub const UNIT: i64 = 1_000_000_000;

/// Half a turn.
pub const PI: i64 = 3_141_590_000;

/// A full turn.
pub const PI2: i64 = 6_283_180_000;

/// A quarter turn.
pub const PI1_2: i64 = 1_570_795_000;

/// An eighth of a turn.
pub const PI1_4: i64 = 785_397_500;

/// A third of a turn, rounded down.
pub const PI2_3: i64 = 2_094_393_333;

/// Two thirds of a turn: twice `PI2_3`.
pub const PI4_3: i64 = 4_188_786_666;

/// The angle in `[0, PI2)` that differs from `rads` by whole turns.
pub open spec fn spec_norm_rads(rads: int) -> int {
    rads % (PI2 as int)
}

/// Brings an angle into one turn. Negative angles wrap upwards, so the result
/// is never negative.
pub fn norm_rads(rads: i64) -> (r: i64)
    ensures
        r == spec_norm_rads(rads as int),
        0 <= r < PI2,
{
    let inner: i64 = rads % PI2;
    (PI2 + inner) % PI2
}

/// Normalising is periodic in the full turn, lands in `[0, PI2)`, leaves
/// what is already there alone, and sends both ends of the turn to zero.
pub proof fn lemma_norm_rads(rads: int)
    ensures
        spec_norm_rads(rads + PI2) == spec_norm_rads(rads),
        spec_norm_rads(rads - PI2) == spec_norm_rads(rads),
        0 <= spec_norm_rads(rads) < PI2,
        0 <= rads < PI2 ==> spec_norm_rads(rads) == rads,
        spec_norm_rads(spec_norm_rads(rads)) == spec_norm_rads(rads),
        spec_norm_rads(0) == 0,
        spec_norm_rads(PI2 as int) == 0,
        spec_norm_rads(-1) == PI2 - 1,
{
    let turn = PI2 as int;
    vstd::arithmetic::div_mod::lemma_mod_add_multiples_vanish(rads, turn);
    vstd::arithmetic::div_mod::lemma_mod_sub_multiples_vanish(rads, turn);
    assert(rads + turn == turn + rads);
    assert(rads - turn == -turn + rads);
    vstd::arithmetic::div_mod::lemma_mod_twice(rads, turn);
    if 0 <= rads < turn {
        vstd::arithmetic::div_mod::lemma_small_mod(rads as nat, turn as nat);
    }
}

/// Whole turns in the angle that another is taken from make no difference
/// to the normalised difference.
pub proof fn lemma_norm_rads_sub(rads: int, behind: int)
    ensures
        spec_norm_rads(spec_norm_rads(rads) - behind) == spec_norm_rads(rads - behind),
{
    let turn = PI2 as int;
    vstd::arithmetic::div_mod::lemma_add_mod_noop_right(-behind, rads, turn);
    assert((-behind) + (rads % turn) == (rads % turn) - behind);
    assert((-behind) + rads == rads - behind);
}

} // verus!
