//! Kinematic components shared by every character: velocity, facing
//! orientation, and the reactive gravity marker. Each tick the host's
//! kinematic controller consumes `Velocity` as the requested translation;
//! this module only decides what that velocity is.

use vstd::prelude::*;

use crate::motion::SCALAR_MAX;

verus! {

/// Downward acceleration while the gravity marker is attached, in
/// thousandths of a unit per second (negative y is down).
pub const GRAVITY: i64 = -9810;

/// Magnitude of `GRAVITY`, used for the per-tick fall step.
pub const GRAVITY_MAGNITUDE: i64 = 9810;

/// Vertical velocity a character settles at when it lands. An empirical
/// tuning value that reproduces the observed "settle onto the ground"
/// behaviour; it is not derived from the physics constants.
pub const LANDING_SETTLE_VELOCITY: i64 = -500;

/// Terminal fall speed: gravity never drives the vertical velocity below
/// this. A machine-limit guard far beyond any speed the simulation reaches.
pub const TERMINAL_VELOCITY: i64 = -1_000_000_000;

/// Requested translation per second, in thousandths of a unit. Written by
/// the state machines and gravity; consumed (overwritten, not accumulated)
/// by the host's kinematic controller once per tick.
#[derive(PartialEq, Eq, Structural, Clone, Copy, Debug)]
pub struct Velocity {
    pub x: i64,
    pub y: i64,
}

/// Both components stay inside the simulation's scalar range.
pub open spec fn velocity_wf(v: Velocity) -> bool {
    &&& -SCALAR_MAX <= v.x <= SCALAR_MAX
    &&& -SCALAR_MAX <= v.y <= SCALAR_MAX
}

impl Velocity {
    /// A character at rest.
    pub fn zero() -> (v: Velocity)
        ensures
            v.x == 0,
            v.y == 0,
    {
        Velocity { x: 0, y: 0 }
    }
}

impl Default for Velocity {
    fn default() -> (v: Velocity)
        ensures
            v.x == 0,
            v.y == 0,
    {
        Velocity { x: 0, y: 0 }
    }
}

/// Facing direction of a character. Sensor x-offsets are signed according to
/// the current orientation at all times.
#[derive(PartialEq, Eq, Structural, Clone, Copy, Debug)]
pub enum Orientation {
    Right,
    Left,
}

impl Default for Orientation {
    fn default() -> (o: Orientation)
        ensures
            o == Orientation::Right,
    {
        Orientation::Right
    }
}

/// Vertical velocity after one tick of gravity: fall by
/// `GRAVITY_MAGNITUDE * delta / 1000`, clamped at the terminal speed.
pub open spec fn spec_apply_gravity(y: int, delta: int) -> int {
    let fallen = y - crate::motion::spec_scaled_step(GRAVITY_MAGNITUDE as int, delta);
    if fallen < TERMINAL_VELOCITY {
        TERMINAL_VELOCITY as int
    } else {
        fallen
    }
}

/// The unconditional per-tick gravity step, run only for characters whose
/// gravity marker is attached.
pub fn apply_gravity(velocity: &mut Velocity, delta: i64)
    requires
        velocity_wf(*old(velocity)),
        0 <= delta <= SCALAR_MAX,
    ensures
        final(velocity).y == spec_apply_gravity(old(velocity).y as int, delta as int),
        final(velocity).x == old(velocity).x,
        velocity_wf(*final(velocity)),
{
    proof {
        assert(GRAVITY_MAGNITUDE * delta <= SCALAR_MAX * SCALAR_MAX) by (nonlinear_arith)
            requires
                0 <= delta <= SCALAR_MAX,
        ;
        assert(0 <= GRAVITY_MAGNITUDE * delta) by (nonlinear_arith)
            requires
                0 <= delta,
        ;
    }
    let step = GRAVITY_MAGNITUDE * delta / crate::motion::UNIT;
    if velocity.y - step < TERMINAL_VELOCITY {
        velocity.y = TERMINAL_VELOCITY;
    } else {
        velocity.y = velocity.y - step;
    }
}

/// Gravity marker and vertical velocity after a change of ground contact:
/// the first component says whether the marker is attached afterwards, the
/// second is the new vertical velocity.
pub open spec fn spec_toggle_gravity(gravity: bool, y: int, down_active: bool) -> (bool, int) {
    if gravity {
        if down_active && y <= 0 {
            (false, LANDING_SETTLE_VELOCITY as int)
        } else {
            (gravity, y)
        }
    } else {
        if !down_active {
            (true, y)
        } else {
            (gravity, y)
        }
    }
}

/// Reactive gravity toggle, run only when a character's collision set
/// changed this tick. A character with gravity that now touches the ground
/// while not moving upward has landed: the marker is removed and the
/// vertical velocity settles at `LANDING_SETTLE_VELOCITY`. A character
/// without gravity that lost ground contact (walked off an edge) gets the
/// marker back.
pub fn toggle_gravity(gravity: &mut bool, velocity: &mut Velocity, down_active: bool)
    requires
        velocity_wf(*old(velocity)),
    ensures
        (*final(gravity), final(velocity).y as int) == spec_toggle_gravity(
            *old(gravity),
            old(velocity).y as int,
            down_active,
        ),
        final(velocity).x == old(velocity).x,
        velocity_wf(*final(velocity)),
{
    if *gravity {
        if down_active && velocity.y <= 0 {
            *gravity = false;
            velocity.y = LANDING_SETTLE_VELOCITY;
        }
    } else {
        if !down_active {
            *gravity = true;
        }
    }
}

/// Orientation after a movement update: horizontal motion turns the
/// character toward where it is going; standing still keeps the old facing.
pub open spec fn spec_orientation_after(x: int, o: Orientation) -> Orientation {
    if x > 0 {
        Orientation::Right
    } else if x < 0 {
        Orientation::Left
    } else {
        o
    }
}

/// Turns a character toward its direction of motion. Returns whether the
/// orientation actually changed, so that the sensor mirror runs exactly once
/// per facing change and not once per tick.
pub fn update_character_orientations(velocity: &Velocity, orientation: &mut Orientation) -> (changed: bool)
    ensures
        *final(orientation) == spec_orientation_after(velocity.x as int, *old(orientation)),
        changed == (*final(orientation) != *old(orientation)),
{
    if velocity.x != 0 {
        let new_direction = if velocity.x > 0 {
            Orientation::Right
        } else {
            Orientation::Left
        };
        if new_direction != *orientation {
            *orientation = new_direction;
            return true;
        }
    }
    false
}

} // verus!
