//! The six faces, and the face that a face turn turns.

use vstd::prelude::*;
use super::moves::CubeMove;

verus! {

#[derive(Debug, Clone, Copy, PartialEq, Eq, Structural)]
pub enum CubeFace {
    Up,
    Down,
    Left,
    Right,
    Front,
    Back,
}

/// The eighteen turns of a single face: six faces, each by a quarter either
/// way or by a half.  Slice moves and whole-cube rotations are not among them.
pub open spec fn is_face_turn(m: CubeMove) -> bool {
    match m {
        CubeMove::U | CubeMove::UPrime | CubeMove::U2 => true,
        CubeMove::D | CubeMove::DPrime | CubeMove::D2 => true,
        CubeMove::L | CubeMove::LPrime | CubeMove::L2 => true,
        CubeMove::R | CubeMove::RPrime | CubeMove::R2 => true,
        CubeMove::F | CubeMove::FPrime | CubeMove::F2 => true,
        CubeMove::B | CubeMove::BPrime | CubeMove::B2 => true,
        _ => false,
    }
}

/// The face that a face turn turns.
pub open spec fn face_of(m: CubeMove) -> CubeFace
    recommends
        is_face_turn(m),
{
    match m {
        CubeMove::U | CubeMove::UPrime | CubeMove::U2 => CubeFace::Up,
        CubeMove::L | CubeMove::LPrime | CubeMove::L2 => CubeFace::Left,
        CubeMove::F | CubeMove::FPrime | CubeMove::F2 => CubeFace::Front,
        CubeMove::R | CubeMove::RPrime | CubeMove::R2 => CubeFace::Right,
        CubeMove::B | CubeMove::BPrime | CubeMove::B2 => CubeFace::Back,
        CubeMove::D | CubeMove::DPrime | CubeMove::D2 => CubeFace::Down,
        _ => arbitrary(),
    }
}

/// The face that `cube_move` turns.  Only a face turn has one.
pub fn move_to_face(cube_move: CubeMove) -> (face: CubeFace)
    requires
        is_face_turn(cube_move),
    ensures
        face == face_of(cube_move),
{
    match cube_move {
        CubeMove::U | CubeMove::UPrime | CubeMove::U2 => CubeFace::Up,
        CubeMove::L | CubeMove::LPrime | CubeMove::L2 => CubeFace::Left,
        CubeMove::F | CubeMove::FPrime | CubeMove::F2 => CubeFace::Front,
        CubeMove::R | CubeMove::RPrime | CubeMove::R2 => CubeFace::Right,
        CubeMove::B | CubeMove::BPrime | CubeMove::B2 => CubeFace::Back,
        CubeMove::D | CubeMove::DPrime | CubeMove::D2 => CubeFace::Down,
        _ => unreached(),
    }
}

} // verus!
