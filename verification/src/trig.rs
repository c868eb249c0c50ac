//! Fixed-point sine and cosine for the twenty rotation increments of a
//! full turn, in thousandths of a unit.

use vstd::prelude::*;

verus! {

/// Number of rotation increments in a full turn: one key press turns the
/// ship by a twentieth of a turn.
pub const ROTATION_STEPS: u8 = 20;

/// All lengths, speeds and trigonometric values are carried in thousandths
/// of a unit, so that the unit-step motion of the ship stays exact.
pub const MILLI: i64 = 1000;

/// Sine of `step` twentieths of a turn, in thousandths of a unit, rounded
/// to the nearest thousandth. Outside a single turn the value is 0.
pub open spec fn spec_sin_milli(step: int) -> int {
    if step == 0 {
        0
    } else if step == 1 {
        309
    } else if step == 2 {
        588
    } else if step == 3 {
        809
    } else if step == 4 {
        951
    } else if step == 5 {
        1000
    } else if step == 6 {
        951
    } else if step == 7 {
        809
    } else if step == 8 {
        588
    } else if step == 9 {
        309
    } else if step == 10 {
        0
    } else if step == 11 {
        -309
    } else if step == 12 {
        -588
    } else if step == 13 {
        -809
    } else if step == 14 {
        -951
    } else if step == 15 {
        -1000
    } else if step == 16 {
        -951
    } else if step == 17 {
        -809
    } else if step == 18 {
        -588
    } else if step == 19 {
        -309
    } else {
        0
    }
}

/// Cosine of `step` twentieths of a turn, in thousandths of a unit: the
/// sine table advanced by a quarter turn.
pub open spec fn spec_cos_milli(step: int) -> int {
    if 0 <= step < ROTATION_STEPS {
        spec_sin_milli(if step + 5 < ROTATION_STEPS { step + 5 } else { step + 5 - ROTATION_STEPS })
    } else {
        0
    }
}

/// Sine of `step` twentieths of a turn, in thousandths of a unit.
pub fn sin_milli(step: u8) -> (r: i64)
    requires
        step < ROTATION_STEPS,
    ensures
        r as int == spec_sin_milli(step as int),
        -MILLI <= r <= MILLI,
{
    if step == 0 {
        0
    } else if step == 1 {
        309
    } else if step == 2 {
        588
    } else if step == 3 {
        809
    } else if step == 4 {
        951
    } else if step == 5 {
        1000
    } else if step == 6 {
        951
    } else if step == 7 {
        809
    } else if step == 8 {
        588
    } else if step == 9 {
        309
    } else if step == 10 {
        0
    } else if step == 11 {
        -309
    } else if step == 12 {
        -588
    } else if step == 13 {
        -809
    } else if step == 14 {
        -951
    } else if step == 15 {
        -1000
    } else if step == 16 {
        -951
    } else if step == 17 {
        -809
    } else if step == 18 {
        -588
    } else {
        -309
    }
}

/// Cosine of `step` twentieths of a turn, in thousandths of a unit.
pub fn cos_milli(step: u8) -> (r: i64)
    requires
        step < ROTATION_STEPS,
    ensures
        r as int == spec_cos_milli(step as int),
        -MILLI <= r <= MILLI,
{
    let shifted: u8 = if step + 5 < ROTATION_STEPS {
        step + 5
    } else {
        step + 5 - ROTATION_STEPS
    };
    sin_milli(shifted)
}

} // verus!
