//! Fixed data of the startup scene: the die's dimensions and initial
//! animation state, the camera offset, and the light settings. The host
//! engine spawns the actual entities from these values.

use vstd::prelude::*;

verus! {

use crate::geom::Vec3Milli;
use crate::roll::{RollState, DEFAULT_DURATION_MS};

/// Edge length of the die cube, in milli-units (1.5 world units).
pub const DIE_EDGE_MILLI: i64 = 1500;

/// Half the die's edge length, in milli-units.
pub const DIE_HALF_EXTENT_MILLI: i64 = 750;

/// How far beyond the cube surface each textured face quad sits, in
/// milli-units, to avoid z-fighting with the cube itself.
pub const FACE_QUAD_EPSILON_MILLI: i64 = 10;

/// Brightness of the ambient light (lux).
pub const AMBIENT_BRIGHTNESS: u64 = 200;

/// Illuminance of the shadow-casting directional light (lux).
pub const DIRECTIONAL_ILLUMINANCE: u64 = 10_000;

/// Base color of the die's material: an almost-white grey, each channel in
/// thousandths (0.95).
pub const DIE_COLOR_CHANNEL_MILLI: i64 = 950;

/// Perceptual roughness of the die's material, in thousandths (0.4).
pub const DIE_ROUGHNESS_MILLI: i64 = 400;

/// The animation state every die starts in: idle, nothing elapsed, with the
/// demo's fixed 1.5 s roll duration.
pub fn initial_roll_state() -> (s: RollState)
    ensures
        s.wf(),
        !s.is_rolling,
        s.elapsed_ms == 0,
        s.duration_ms == DEFAULT_DURATION_MS,
{
    RollState::new(DEFAULT_DURATION_MS)
}

/// Where the camera stands relative to the die, in milli-units
/// ((0, 3, 6) world units, looking back at the origin).
pub fn camera_offset() -> (p: Vec3Milli)
    ensures
        p == (Vec3Milli { x: 0, y: 3000, z: 6000 }),
{
    Vec3Milli { x: 0, y: 3000, z: 6000 }
}

/// Orientation of the directional light as XYZ Euler angles in milliradians
/// ((-0.7, 0.5, 0) radians).
pub fn directional_light_euler_millirad() -> (a: Vec3Milli)
    ensures
        a == (Vec3Milli { x: (-700) as i64, y: 500, z: 0 }),
{
    Vec3Milli { x: -700, y: 500, z: 0 }
}

} // verus!
