//! Solvers, and the searches they are made of.

use vstd::prelude::*;
use crate::cube::moves::CubeMove;
use crate::cube::state::CubeState;

pub mod cfop_exploration;
pub mod exploration_laws;
pub mod util;

verus! {

/// Something that proposes a sequence of moves for a state, or reports that
/// it has none.
pub trait Solver {
    fn solve(&self, state: &CubeState) -> Option<Vec<CubeMove>>;
}

} // verus!
