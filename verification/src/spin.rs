//! The continuous-spin animation: an unconditional, stateless demo spin that
//! turns the die every frame about its local Y axis at 1 rad/s and about its
//! local X axis at 0.3 rad/s.

use vstd::prelude::*;

verus! {

use crate::roll::RotationDelta;

/// Fixed-point angle units accumulated per millisecond about the Y axis
/// (1 rad/s at `ANGLE_UNITS_PER_RAD` units per radian).
pub const SPIN_Y_UNITS_PER_MS: u64 = 10_000;

/// Fixed-point angle units accumulated per millisecond about the X axis
/// (0.3 rad/s).
pub const SPIN_X_UNITS_PER_MS: u64 = 3_000;

/// Largest frame delta the spin accepts, in milliseconds (one day); it keeps
/// the delta arithmetic inside `u64`.
pub const MAX_FRAME_MS: u64 = 86_400_000;

/// The rotation of one frame of the continuous spin: exactly `dt` seconds
/// worth of 1 rad/s about Y and 0.3 rad/s about X, nothing about Z,
/// independent of any state.
pub fn spin_delta(dt_ms: u64) -> (delta: RotationDelta)
    requires
        dt_ms <= MAX_FRAME_MS,
    ensures
        delta.y_units == SPIN_Y_UNITS_PER_MS * dt_ms,
        delta.x_units == SPIN_X_UNITS_PER_MS * dt_ms,
        delta.z_units == 0,
{
    RotationDelta {
        x_units: SPIN_X_UNITS_PER_MS * dt_ms,
        y_units: SPIN_Y_UNITS_PER_MS * dt_ms,
        z_units: 0,
    }
}

} // verus!
