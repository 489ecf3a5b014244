//! A cube that is turned from the keyboard: what each key does to it.

use vstd::prelude::*;
use crate::cube::moves::{CubeMove, apply_move};
use crate::cube::state::{CubeState, Facelets, solved_facelets};

verus! {

/// The move that a key stands for.  A lower-case letter turns clockwise, the
/// upper-case letter the other way; the letters name the faces, the slices
/// and the rotations.
pub open spec fn key_move(key: char) -> Option<CubeMove> {
    if key == 'u' {
        Some(CubeMove::U)
    } else if key == 'U' {
        Some(CubeMove::UPrime)
    } else if key == 'd' {
        Some(CubeMove::D)
    } else if key == 'D' {
        Some(CubeMove::DPrime)
    } else if key == 'l' {
        Some(CubeMove::L)
    } else if key == 'L' {
        Some(CubeMove::LPrime)
    } else if key == 'r' {
        Some(CubeMove::R)
    } else if key == 'R' {
        Some(CubeMove::RPrime)
    } else if key == 'f' {
        Some(CubeMove::F)
    } else if key == 'F' {
        Some(CubeMove::FPrime)
    } else if key == 'b' {
        Some(CubeMove::B)
    } else if key == 'B' {
        Some(CubeMove::BPrime)
    } else if key == 'm' {
        Some(CubeMove::M)
    } else if key == 'M' {
        Some(CubeMove::MPrime)
    } else if key == 'e' {
        Some(CubeMove::E)
    } else if key == 'E' {
        Some(CubeMove::EPrime)
    } else if key == 's' {
        Some(CubeMove::S)
    } else if key == 'S' {
        Some(CubeMove::SPrime)
    } else if key == 'x' {
        Some(CubeMove::X)
    } else if key == 'X' {
        Some(CubeMove::XPrime)
    } else if key == 'y' {
        Some(CubeMove::Y)
    } else if key == 'Y' {
        Some(CubeMove::YPrime)
    } else if key == 'z' {
        Some(CubeMove::Z)
    } else if key == 'Z' {
        Some(CubeMove::ZPrime)
    } else {
        None
    }
}

/// What a key makes of the cube: `c` puts the solved cube back, the key of a
/// move applies the move, any other key changes nothing.
pub open spec fn after_key(s: Facelets, key: char) -> Facelets {
    if key == 'c' {
        solved_facelets()
    } else {
        match key_move(key) {
            Some(m) => apply_move(s, m),
            None => s,
        }
    }
}

/// The simulator: the cube that the keys act on.
pub struct App {
    pub cube: CubeState,
}

impl App {
    /// A simulator that starts with the solved cube.
    pub fn new() -> (app: App)
        ensures
            app.cube@ == solved_facelets(),
    {
        App { cube: CubeState::new_solved() }
    }

    /// Acts on one key, and tells whether the simulator goes on: `q` ends it.
    pub fn handle_key(&mut self, key: char) -> (goes_on: bool)
        ensures
            goes_on == (key != 'q'),
            final(self).cube@ == after_key(old(self).cube@, key),
    {
        match key {
            'q' => {
                return false;
            },
            'u' => self.cube.execute_move(CubeMove::U),
            'U' => self.cube.execute_move(CubeMove::UPrime),
            'd' => self.cube.execute_move(CubeMove::D),
            'D' => self.cube.execute_move(CubeMove::DPrime),
            'l' => self.cube.execute_move(CubeMove::L),
            'L' => self.cube.execute_move(CubeMove::LPrime),
            'r' => self.cube.execute_move(CubeMove::R),
            'R' => self.cube.execute_move(CubeMove::RPrime),
            'f' => self.cube.execute_move(CubeMove::F),
            'F' => self.cube.execute_move(CubeMove::FPrime),
            'b' => self.cube.execute_move(CubeMove::B),
            'B' => self.cube.execute_move(CubeMove::BPrime),
            'm' => self.cube.execute_move(CubeMove::M),
            'M' => self.cube.execute_move(CubeMove::MPrime),
            'e' => self.cube.execute_move(CubeMove::E),
            'E' => self.cube.execute_move(CubeMove::EPrime),
            's' => self.cube.execute_move(CubeMove::S),
            'S' => self.cube.execute_move(CubeMove::SPrime),
            'x' => self.cube.execute_move(CubeMove::X),
            'X' => self.cube.execute_move(CubeMove::XPrime),
            'y' => self.cube.execute_move(CubeMove::Y),
            'Y' => self.cube.execute_move(CubeMove::YPrime),
            'z' => self.cube.execute_move(CubeMove::Z),
            'Z' => self.cube.execute_move(CubeMove::ZPrime),
            'c' => {
                self.cube = CubeState::new_solved();
            },
            _ => {},
        }
        true
    }
}

} // verus!
