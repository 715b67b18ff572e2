//! The input mapper: given the world-space ray of a mouse click, test it
//! against a die's bounding sphere and start the roll on a hit.
//!
//! The host hands in the ray already converted from the cursor position; a
//! frame without a click, window, cursor or camera is simply not mapped, so
//! no such absence appears here.

use vstd::prelude::*;

verus! {

use crate::geom::{Vec3Milli, ray_hits_sphere, ray_hits_sphere_spec, COORD_LIMIT};
use crate::roll::RollState;

/// Bounding-sphere radius of the demo die, in milli-units (1.3 world units,
/// a fixed demo constant chosen to enclose the cube).
pub const BOUNDING_RADIUS_MILLI: i64 = 1300;

/// Map one click onto one die: a die already rolling is skipped (its state,
/// in particular its elapsed time, is left exactly as it is); an idle die
/// starts rolling if and only if the click ray hits its bounding sphere.
/// Returns whether a roll was started.
pub fn apply_click(
    state: &mut RollState,
    ray_origin: Vec3Milli,
    ray_dir: Vec3Milli,
    die_center: Vec3Milli,
    radius: i64,
) -> (started: bool)
    requires
        old(state).wf(),
        ray_origin.in_bounds(COORD_LIMIT as int),
        ray_dir.in_bounds(COORD_LIMIT as int),
        die_center.in_bounds(COORD_LIMIT as int),
        0 <= radius <= COORD_LIMIT,
    ensures
        final(state).wf(),
        final(state).duration_ms == old(state).duration_ms,
        old(state).is_rolling ==> *final(state) == *old(state) && !started,
        !old(state).is_rolling ==> started == ray_hits_sphere_spec(
            ray_origin,
            ray_dir,
            die_center,
            radius as int,
        ),
        !old(state).is_rolling && started ==> final(state).is_rolling
            && final(state).elapsed_ms == 0,
        !started ==> *final(state) == *old(state),
{
    if state.is_rolling {
        return false;
    }
    if ray_hits_sphere(ray_origin, ray_dir, die_center, radius) {
        state.register_hit()
    } else {
        false
    }
}

} // verus!
