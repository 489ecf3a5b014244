//! The first stage: the cross on the down face.

use vstd::prelude::*;
use crate::cube::moves::{CubeMove, NON_ROTATION_MOVES};
use crate::cube::state::{CubeState, Facelets};
use super::enumerate::{decides, enumerate_states_with_criteria, outcomes, search};
use super::solved::matches_center;

verus! {

/// The four edges of the down face are in place: each shows the down colour
/// on the down face and the colour of its side face on that side.
pub open spec fn cross_complete(s: Facelets) -> bool {
    &&& matches_center(s, 5, 1)
    &&& matches_center(s, 5, 3)
    &&& matches_center(s, 5, 5)
    &&& matches_center(s, 5, 7)
    &&& matches_center(s, 1, 7)
    &&& matches_center(s, 2, 7)
    &&& matches_center(s, 3, 7)
    &&& matches_center(s, 4, 7)
}

impl CubeState {
    pub fn cross_solved(&self) -> (done: bool)
        ensures
            done == cross_complete(self@),
    {
        let bottom_center_color = self.faces[5][4];
        let bottom_edge_positions: [usize; 4] = [1, 3, 5, 7];
        let mut i: usize = 0;
        while i < 4
            invariant
                i <= 4,
                bottom_edge_positions@ == seq![1usize, 3, 5, 7],
                bottom_center_color == self@[5][4],
                forall|j: int| 0 <= j < i ==> matches_center(self@, 5, #[trigger] bottom_edge_positions[j] as int),
            decreases 4 - i,
        {
            let pos = bottom_edge_positions[i];
            if self.faces[5][pos] != bottom_center_color {
                assert(!matches_center(self@, 5, pos as int));
                return false;
            }
            i += 1;
        }
        assert(matches_center(self@, 5, bottom_edge_positions[0] as int));
        assert(matches_center(self@, 5, bottom_edge_positions[1] as int));
        assert(matches_center(self@, 5, bottom_edge_positions[2] as int));
        assert(matches_center(self@, 5, bottom_edge_positions[3] as int));
        let mut face_idx: usize = 1;
        while face_idx < 5
            invariant
                1 <= face_idx <= 5,
                forall|f: int| 1 <= f < face_idx ==> #[trigger] matches_center(self@, f, 7),
            decreases 5 - face_idx,
        {
            let edge_color = self.faces[face_idx][7];
            let center_color = self.faces[face_idx][4];
            if edge_color != center_color {
                assert(!matches_center(self@, face_idx as int, 7));
                return false;
            }
            face_idx += 1;
        }
        true
    }
}

/// `CubeState::cross_solved` as a function, to hand to a search.
pub fn cross_solved(state: &CubeState) -> (done: bool)
    ensures
        done == cross_complete(state@),
{
    state.cross_solved()
}

/// The goal of the first stage, as a search takes it.
pub open spec fn cross_goal() -> spec_fn(Facelets) -> bool {
    |s: Facelets| cross_complete(s)
}

/// Every sequence of at most `max_depth` face turns that completes the cross.
pub fn enumerate_cross_solutions(state: &CubeState, max_depth: usize) -> (results: Vec<
    (CubeState, Vec<CubeMove>),
>)
    ensures
        outcomes(results@) == search(state@, max_depth as nat, cross_goal(), NON_ROTATION_MOVES@),
{
    let legal_moves = NON_ROTATION_MOVES;
    assert(decides(cross_solved, cross_goal()));
    enumerate_states_with_criteria(*state, max_depth, cross_solved, &legal_moves)
}

} // verus!
