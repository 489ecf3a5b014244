//! The greedy search.

use vstd::prelude::*;
use crate::cube::moves::CubeMove;
use crate::cube::state::CubeState;

verus! {

/// A search that would follow one promising move at a time.  It reports
/// nothing: no greedy strategy is defined for the cube, and every state is
/// left to the exhaustive search.
pub fn greedy_find_with_criteria<F: Fn(&CubeState) -> bool>(
    state: CubeState,
    max_depth: usize,
    criterion: F,
    legal_moves: &[CubeMove],
) -> (found: Option<(CubeState, Vec<CubeMove>)>)
    ensures
        found is None,
{
    None
}

} // verus!
