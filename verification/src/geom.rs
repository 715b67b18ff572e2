//! Fixed-point 3D geometry: vectors in milli-units and the ray–sphere
//! intersection test used to detect a click on the die.

use vstd::prelude::*;

verus! {

use crate::arith::lemma_mul_bound;

/// Number of fixed-point units per world unit: positions and radii are
/// measured in thousandths of a world unit.
pub const MILLI: i64 = 1000;

/// Largest coordinate magnitude (in milli-units) the geometry accepts; it
/// keeps every intermediate product of the hit test inside `i128`.
pub const COORD_LIMIT: i64 = 1_000_000;

/// A 3D vector with coordinates in milli-units (thousandths of a world unit).
#[derive(Clone, Copy, PartialEq, Eq, Structural, Debug)]
pub struct Vec3Milli {
    pub x: i64,
    pub y: i64,
    pub z: i64,
}

impl Vec3Milli {
    /// Every coordinate lies within `limit` of zero.
    pub open spec fn in_bounds(self, limit: int) -> bool {
        &&& -limit <= self.x <= limit
        &&& -limit <= self.y <= limit
        &&& -limit <= self.z <= limit
    }
}

/// Whether a ray hits a sphere, by the sign of the quadratic discriminant.
///
/// With `oc = origin - center`, the real-valued test for a unit direction is
/// `dot(oc, dir)^2 - (dot(oc, oc) - radius^2) >= 0`. Here every coordinate
/// carries a factor `MILLI` and `dir` is the unit ray direction scaled by
/// `MILLI`, so the two sides are cleared of denominators: `dot(oc, dir)`
/// carries `MILLI^2` and `dot(oc, oc) - radius^2` carries `MILLI^2`, hence
/// the test multiplies the latter by `MILLI^2` before comparing.
pub open spec fn ray_hits_sphere_spec(
    origin: Vec3Milli,
    dir: Vec3Milli,
    center: Vec3Milli,
    radius: int,
) -> bool {
    let ocx = origin.x - center.x;
    let ocy = origin.y - center.y;
    let ocz = origin.z - center.z;
    let b = ocx * dir.x + ocy * dir.y + ocz * dir.z;
    let c = ocx * ocx + ocy * ocy + ocz * ocz - radius * radius;
    b * b - (MILLI * MILLI) * c >= 0
}

/// Ray–sphere intersection test on milli-unit coordinates.
///
/// `dir` is the unit ray direction scaled by `MILLI`; the result is exactly
/// the discriminant test of `ray_hits_sphere_spec`.
pub fn ray_hits_sphere(
    origin: Vec3Milli,
    dir: Vec3Milli,
    center: Vec3Milli,
    radius: i64,
) -> (hit: bool)
    requires
        origin.in_bounds(COORD_LIMIT as int),
        center.in_bounds(COORD_LIMIT as int),
        dir.in_bounds(COORD_LIMIT as int),
        0 <= radius <= COORD_LIMIT,
    ensures
        hit == ray_hits_sphere_spec(origin, dir, center, radius as int),
{
    let ocx: i128 = origin.x as i128 - center.x as i128;
    let ocy: i128 = origin.y as i128 - center.y as i128;
    let ocz: i128 = origin.z as i128 - center.z as i128;
    proof {
        lemma_mul_bound(ocx as int, dir.x as int, 2_000_000, 1_000_000);
        lemma_mul_bound(ocy as int, dir.y as int, 2_000_000, 1_000_000);
        lemma_mul_bound(ocz as int, dir.z as int, 2_000_000, 1_000_000);
        lemma_mul_bound(ocx as int, ocx as int, 2_000_000, 2_000_000);
        lemma_mul_bound(ocy as int, ocy as int, 2_000_000, 2_000_000);
        lemma_mul_bound(ocz as int, ocz as int, 2_000_000, 2_000_000);
        lemma_mul_bound(radius as int, radius as int, 1_000_000, 1_000_000);
    }
    let b: i128 = ocx * dir.x as i128 + ocy * dir.y as i128 + ocz * dir.z as i128;
    let c: i128 = ocx * ocx + ocy * ocy + ocz * ocz - (radius as i128) * (radius as i128);
    proof {
        lemma_mul_bound(b as int, b as int, 6_000_000_000_000, 6_000_000_000_000);
        lemma_mul_bound((MILLI * MILLI) as int, c as int, 1_000_000, 13_000_000_000_000);
    }
    let discriminant: i128 = b * b - (MILLI as i128 * MILLI as i128) * c;
    discriminant >= 0
}

} // verus!
