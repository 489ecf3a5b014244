//! The three planes of rotation: opposite faces turn in the same plane.

use vstd::prelude::*;
use super::face::{CubeFace, face_of, is_face_turn, move_to_face};
use super::moves::CubeMove;

verus! {

#[derive(Debug, Clone, Copy, PartialEq, Eq, Structural)]
pub enum CubePlane {
    UpDown,
    LeftRight,
    FrontBack,
}

/// The plane in which a face turns.
pub open spec fn plane_of_face(face: CubeFace) -> CubePlane {
    match face {
        CubeFace::Up | CubeFace::Down => CubePlane::UpDown,
        CubeFace::Left | CubeFace::Right => CubePlane::LeftRight,
        CubeFace::Front | CubeFace::Back => CubePlane::FrontBack,
    }
}

/// The plane in which a face turn turns.
pub open spec fn plane_of(m: CubeMove) -> CubePlane
    recommends
        is_face_turn(m),
{
    plane_of_face(face_of(m))
}

pub fn move_to_plane(mv: CubeMove) -> (plane: CubePlane)
    requires
        is_face_turn(mv),
    ensures
        plane == plane_of(mv),
{
    face_to_plane(move_to_face(mv))
}

pub fn face_to_plane(cube_face: CubeFace) -> (plane: CubePlane)
    ensures
        plane == plane_of_face(cube_face),
{
    match cube_face {
        CubeFace::Up | CubeFace::Down => CubePlane::UpDown,
        CubeFace::Left | CubeFace::Right => CubePlane::LeftRight,
        CubeFace::Front | CubeFace::Back => CubePlane::FrontBack,
    }
}

} // verus!
