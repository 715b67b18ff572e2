//! Layout of the six textured face quads of the die: one quad per cube face,
//! pushed out along the face normal by half the cube extent plus a small
//! epsilon, and labelled 1–6 so that opposite faces sum to 7 (the standard
//! die convention: 1 opposite 6, 2 opposite 5, 3 opposite 4).
//!
//! Faces are indexed 0–5: +X, -X, +Y, -Y, +Z, -Z, so that face `2k` and face
//! `2k + 1` are opposite.

use vstd::prelude::*;

verus! {

use crate::geom::{Vec3Milli, MILLI, COORD_LIMIT};

/// Number of faces of the die.
pub const FACE_COUNT: u8 = 6;

/// The index of the face opposite a given face.
pub open spec fn opposite_face_spec(face: u8) -> u8
    recommends
        face < FACE_COUNT,
{
    if face % 2 == 0 {
        (face + 1) as u8
    } else {
        (face - 1) as u8
    }
}

/// The pip value (1–6) shown on a face: +X is 2, -X is 5, +Y is 1, -Y is 6,
/// +Z is 3, -Z is 4.
pub open spec fn face_value_spec(face: u8) -> u8
    recommends
        face < FACE_COUNT,
{
    if face == 0 {
        2
    } else if face == 1 {
        5
    } else if face == 2 {
        1
    } else if face == 3 {
        6
    } else if face == 4 {
        3
    } else {
        4
    }
}

/// The outward unit normal of a face, scaled by `MILLI`.
pub open spec fn face_normal_spec(face: u8) -> Vec3Milli
    recommends
        face < FACE_COUNT,
{
    if face == 0 {
        Vec3Milli { x: MILLI, y: 0, z: 0 }
    } else if face == 1 {
        Vec3Milli { x: (-MILLI) as i64, y: 0, z: 0 }
    } else if face == 2 {
        Vec3Milli { x: 0, y: MILLI, z: 0 }
    } else if face == 3 {
        Vec3Milli { x: 0, y: (-MILLI) as i64, z: 0 }
    } else if face == 4 {
        Vec3Milli { x: 0, y: 0, z: MILLI }
    } else {
        Vec3Milli { x: 0, y: 0, z: (-MILLI) as i64 }
    }
}

/// The point at distance `d` (milli-units) from the cube's center along the
/// outward normal of a face: where the face's quad is centered.
pub open spec fn face_offset_spec(face: u8, d: int) -> Vec3Milli
    recommends
        face < FACE_COUNT,
        0 <= d <= COORD_LIMIT,
{
    if face == 0 {
        Vec3Milli { x: d as i64, y: 0, z: 0 }
    } else if face == 1 {
        Vec3Milli { x: (-d) as i64, y: 0, z: 0 }
    } else if face == 2 {
        Vec3Milli { x: 0, y: d as i64, z: 0 }
    } else if face == 3 {
        Vec3Milli { x: 0, y: (-d) as i64, z: 0 }
    } else if face == 4 {
        Vec3Milli { x: 0, y: 0, z: d as i64 }
    } else {
        Vec3Milli { x: 0, y: 0, z: (-d) as i64 }
    }
}

/// The index of the face opposite a given face.
pub fn opposite_face(face: u8) -> (o: u8)
    requires
        face < FACE_COUNT,
    ensures
        o == opposite_face_spec(face),
        o < FACE_COUNT,
        o != face,
{
    if face % 2 == 0 {
        face + 1
    } else {
        face - 1
    }
}

/// The pip value (1–6) shown on a face, used to pick its texture.
pub fn face_value(face: u8) -> (v: u8)
    requires
        face < FACE_COUNT,
    ensures
        v == face_value_spec(face),
        1 <= v <= 6,
{
    if face == 0 {
        2
    } else if face == 1 {
        5
    } else if face == 2 {
        1
    } else if face == 3 {
        6
    } else if face == 4 {
        3
    } else {
        4
    }
}

/// The outward unit normal of a face, scaled by `MILLI`.
pub fn face_normal(face: u8) -> (n: Vec3Milli)
    requires
        face < FACE_COUNT,
    ensures
        n == face_normal_spec(face),
        n.in_bounds(MILLI as int),
{
    if face == 0 {
        Vec3Milli { x: MILLI, y: 0, z: 0 }
    } else if face == 1 {
        Vec3Milli { x: -MILLI, y: 0, z: 0 }
    } else if face == 2 {
        Vec3Milli { x: 0, y: MILLI, z: 0 }
    } else if face == 3 {
        Vec3Milli { x: 0, y: -MILLI, z: 0 }
    } else if face == 4 {
        Vec3Milli { x: 0, y: 0, z: MILLI }
    } else {
        Vec3Milli { x: 0, y: 0, z: -MILLI }
    }
}

/// Where to center a face's quad: `half_extent + epsilon` milli-units out
/// from the cube's center along the face's outward normal (the epsilon keeps
/// the quad just off the cube surface).
pub fn face_quad_center(face: u8, half_extent: i64, epsilon: i64) -> (p: Vec3Milli)
    requires
        face < FACE_COUNT,
        0 <= half_extent,
        0 <= epsilon,
        half_extent + epsilon <= COORD_LIMIT,
    ensures
        p == face_offset_spec(face, half_extent + epsilon),
        p.in_bounds(COORD_LIMIT as int),
{
    let d: i64 = half_extent + epsilon;
    if face == 0 {
        Vec3Milli { x: d, y: 0, z: 0 }
    } else if face == 1 {
        Vec3Milli { x: -d, y: 0, z: 0 }
    } else if face == 2 {
        Vec3Milli { x: 0, y: d, z: 0 }
    } else if face == 3 {
        Vec3Milli { x: 0, y: -d, z: 0 }
    } else if face == 4 {
        Vec3Milli { x: 0, y: 0, z: d }
    } else {
        Vec3Milli { x: 0, y: 0, z: -d }
    }
}

/// Opposite faces are genuinely opposite: taking the opposite twice returns
/// the face itself, and the two normals cancel.
pub proof fn lemma_opposite_involution(face: u8)
    requires
        face < FACE_COUNT,
    ensures
        opposite_face_spec(face) < FACE_COUNT,
        opposite_face_spec(opposite_face_spec(face)) == face,
        face_normal_spec(face).x + face_normal_spec(opposite_face_spec(face)).x == 0,
        face_normal_spec(face).y + face_normal_spec(opposite_face_spec(face)).y == 0,
        face_normal_spec(face).z + face_normal_spec(opposite_face_spec(face)).z == 0,
{
}

/// The pip values of two opposite faces always sum to 7.
pub proof fn lemma_opposite_values_sum_to_seven(face: u8)
    requires
        face < FACE_COUNT,
    ensures
        face_value_spec(face) + face_value_spec(opposite_face_spec(face)) == 7,
{
}

/// Each of the six faces shows a different pip value, so all of 1–6 appear.
pub proof fn lemma_face_values_distinct(f1: u8, f2: u8)
    requires
        f1 < FACE_COUNT,
        f2 < FACE_COUNT,
        f1 != f2,
    ensures
        face_value_spec(f1) != face_value_spec(f2),
{
}

/// A face's quad sits on the ray from the cube's center through the face's
/// normal: scaled by `MILLI`, the quad center is the normal times the
/// distance `d`.
pub proof fn lemma_quad_center_along_normal(face: u8, d: int)
    requires
        face < FACE_COUNT,
        0 <= d <= COORD_LIMIT,
    ensures
        MILLI * face_offset_spec(face, d).x == d * face_normal_spec(face).x,
        MILLI * face_offset_spec(face, d).y == d * face_normal_spec(face).y,
        MILLI * face_offset_spec(face, d).z == d * face_normal_spec(face).z,
{
    assert(d * 0 == 0) by (nonlinear_arith);
    assert(d * MILLI == MILLI * d) by (nonlinear_arith);
    assert(d * (-MILLI) == -(MILLI * d)) by (nonlinear_arith);
    if face == 0 {
        assert(MILLI * face_offset_spec(face, d).x == d * MILLI);
    } else if face == 1 {
        assert(MILLI * face_offset_spec(face, d).x == d * (-MILLI));
    } else if face == 2 {
        assert(MILLI * face_offset_spec(face, d).y == d * MILLI);
    } else if face == 3 {
        assert(MILLI * face_offset_spec(face, d).y == d * (-MILLI));
    } else if face == 4 {
        assert(MILLI * face_offset_spec(face, d).z == d * MILLI);
    } else {
        assert(MILLI * face_offset_spec(face, d).z == d * (-MILLI));
    }
}

} // verus!
