//! Eased movement: a velocity component is driven toward a target value at a
//! bounded rate, never overshooting the target within one tick.

use vstd::prelude::*;

verus! {

/// Largest magnitude any simulation scalar (velocity, speed, acceleration,
/// offset) may take, in thousandths of a unit. A generous machine-limit
/// guard: all products computed by the core stay inside `i64`.
pub const SCALAR_MAX: i64 = 1_000_000_000;

/// The fixed-point scale: a thousand thousandths to the world unit, and a
/// thousand milliseconds to the second.
pub const UNIT: i64 = 1000;

/// Distance covered in `delta` milliseconds at `rate` thousandths of a unit
/// per second.
pub open spec fn spec_scaled_step(rate: int, delta: int) -> int {
    rate * delta / (UNIT as int)
}

/// The value `current` moves to when eased toward `target` by at most `step`.
pub open spec fn spec_move_toward_by(current: int, target: int, step: int) -> int {
    if current == target {
        target
    } else if target > current {
        if current + step >= target {
            target
        } else {
            current + step
        }
    } else {
        if current - step <= target {
            target
        } else {
            current - step
        }
    }
}

/// `move_toward` as a function of its four arguments.
pub open spec fn spec_move_toward(current: int, target: int, acceleration: int, delta: int) -> int {
    spec_move_toward_by(current, target, spec_scaled_step(acceleration, delta))
}

/// The distance covered in one tick: `acceleration * delta / UNIT`, in
/// thousandths of a unit.
fn scaled_step(acceleration: i64, delta: i64) -> (step: i64)
    requires
        0 <= acceleration <= SCALAR_MAX,
        0 <= delta <= SCALAR_MAX,
    ensures
        step == spec_scaled_step(acceleration as int, delta as int),
        0 <= step,
{
    proof {
        assert(acceleration * delta <= SCALAR_MAX * SCALAR_MAX) by (nonlinear_arith)
            requires
                0 <= acceleration <= SCALAR_MAX,
                0 <= delta <= SCALAR_MAX,
        ;
        assert(0 <= acceleration * delta) by (nonlinear_arith)
            requires
                0 <= acceleration,
                0 <= delta,
        ;
    }
    acceleration * delta / UNIT
}

/// Eases `current` toward `target`, covering at most `acceleration * delta /
/// UNIT` per call and stopping exactly at `target`, never past it.
pub fn move_toward(current: i64, target: i64, acceleration: i64, delta: i64) -> (r: i64)
    requires
        -SCALAR_MAX <= current <= SCALAR_MAX,
        -SCALAR_MAX <= target <= SCALAR_MAX,
        0 <= acceleration <= SCALAR_MAX,
        0 <= delta <= SCALAR_MAX,
    ensures
        r == spec_move_toward(current as int, target as int, acceleration as int, delta as int),
{
    let step = scaled_step(acceleration, delta);
    if current == target {
        return target;
    }
    if target > current {
        if target - current <= step {
            target
        } else {
            current + step
        }
    } else {
        if current - target <= step {
            target
        } else {
            current - step
        }
    }
}

/// Easing never overshoots: the result always lies between the current value
/// and the target, and it reaches the target exactly once the step covers the
/// remaining distance.
pub proof fn lemma_move_toward_no_overshoot(current: int, target: int, step: int)
    requires
        0 <= step,
    ensures
        current <= target ==> current <= spec_move_toward_by(current, target, step) <= target,
        target <= current ==> target <= spec_move_toward_by(current, target, step) <= current,
        step >= (if target >= current {
            target - current
        } else {
            current - target
        }) ==> spec_move_toward_by(current, target, step) == target,
{
}

} // verus!
