//! The third stage: the up face shows one colour.

use vstd::prelude::*;
use crate::cube::moves::{CubeMove, NON_ROTATION_MOVES};
use crate::cube::sequence::moves_to_vec;
use crate::cube::state::{CubeState, Facelets};
use super::enumerate::{decides, enumerate_states_with_criteria, outcomes, search};
use super::f2l::f2l_complete;
use super::solved::matches_center;

verus! {

/// The first two layers are complete and the whole up face shows the colour
/// of its centre.
pub open spec fn oll_complete(s: Facelets) -> bool {
    &&& f2l_complete(s)
    &&& forall|p: int| 0 <= p < 9 ==> #[trigger] matches_center(s, 0, p)
}

impl CubeState {
    pub fn oll_solved(&self) -> (done: bool)
        ensures
            done == oll_complete(self@),
    {
        if !self.f2l_solved() {
            return false;
        }
        let top_color = self.faces[0][4];
        let positions: [usize; 8] = [0, 1, 2, 3, 5, 6, 7, 8];
        let mut i: usize = 0;
        while i < 8
            invariant
                i <= 8,
                positions@ == seq![0usize, 1, 2, 3, 5, 6, 7, 8],
                top_color == self@[0][4],
                forall|j: int| 0 <= j < i ==> matches_center(self@, 0, #[trigger] positions[j] as int),
            decreases 8 - i,
        {
            let pos = positions[i];
            if self.faces[0][pos] != top_color {
                assert(!matches_center(self@, 0, pos as int));
                return false;
            }
            i += 1;
        }
        assert forall|p: int| 0 <= p < 9 implies #[trigger] matches_center(self@, 0, p) by {
            if p != 4 {
                let j = if p < 4 { p } else { p - 1 };
                assert(positions[j] as int == p);
            }
        }
        true
    }
}

/// `CubeState::oll_solved` as a function, to hand to a search.
pub fn oll_solved(state: &CubeState) -> (done: bool)
    ensures
        done == oll_complete(state@),
{
    state.oll_solved()
}

/// The first orientation algorithm of the table.
pub const OLL_1: [CubeMove; 11] = [
    CubeMove::R, CubeMove::U2, CubeMove::R2, CubeMove::F, CubeMove::R, CubeMove::FPrime,
    CubeMove::U2, CubeMove::RPrime, CubeMove::F, CubeMove::R, CubeMove::FPrime,
];

/// The second orientation algorithm of the table.
pub const OLL_2: [CubeMove; 12] = [
    CubeMove::F, CubeMove::R, CubeMove::U, CubeMove::RPrime, CubeMove::UPrime, CubeMove::S,
    CubeMove::R, CubeMove::U, CubeMove::RPrime, CubeMove::UPrime, CubeMove::FPrime,
    CubeMove::SPrime,
];

/// The third orientation algorithm of the table.
pub const OLL_3: [CubeMove; 12] = [
    CubeMove::UPrime, CubeMove::RPrime, CubeMove::F2, CubeMove::R2, CubeMove::U2,
    CubeMove::RPrime, CubeMove::FPrime, CubeMove::R, CubeMove::U2, CubeMove::R2, CubeMove::F2,
    CubeMove::R,
];

/// The fourth orientation algorithm of the table.
pub const OLL_4: [CubeMove; 11] = [
    CubeMove::RPrime, CubeMove::F2, CubeMove::R2, CubeMove::U2, CubeMove::RPrime,
    CubeMove::FPrime, CubeMove::R, CubeMove::U2, CubeMove::R2, CubeMove::F2, CubeMove::R,
];

/// The fifth orientation algorithm of the table.
pub const OLL_5: [CubeMove; 7] = [
    CubeMove::LPrime, CubeMove::B2, CubeMove::R, CubeMove::B, CubeMove::RPrime, CubeMove::B,
    CubeMove::L,
];

/// The tabulated algorithms that orient the up layer.
pub open spec fn oll_table() -> Seq<Seq<CubeMove>> {
    seq![OLL_1@, OLL_2@, OLL_3@, OLL_4@, OLL_5@]
}

/// The sequences that a list of vectors holds.
pub open spec fn move_lists(algorithms: Seq<Vec<CubeMove>>) -> Seq<Seq<CubeMove>> {
    Seq::new(algorithms.len(), |i: int| algorithms[i]@)
}

/// The tabulated algorithms that orient the up layer, in the table's order.
pub fn oll_algorithms() -> (algorithms: Vec<Vec<CubeMove>>)
    ensures
        move_lists(algorithms@) == oll_table(),
{
    let mut algorithms: Vec<Vec<CubeMove>> = Vec::new();
    algorithms.push(moves_to_vec(&OLL_1));
    algorithms.push(moves_to_vec(&OLL_2));
    algorithms.push(moves_to_vec(&OLL_3));
    algorithms.push(moves_to_vec(&OLL_4));
    algorithms.push(moves_to_vec(&OLL_5));
    assert(move_lists(algorithms@) =~= oll_table());
    algorithms
}

/// The goal of the third stage, as a search takes it.
pub open spec fn oll_goal() -> spec_fn(Facelets) -> bool {
    |s: Facelets| oll_complete(s)
}

/// Every sequence of at most `max_depth` face turns that orients the up
/// layer over complete first two layers.
pub fn enumerate_oll_solutions(state: &CubeState, max_depth: usize) -> (results: Vec<
    (CubeState, Vec<CubeMove>),
>)
    ensures
        outcomes(results@) == search(state@, max_depth as nat, oll_goal(), NON_ROTATION_MOVES@),
{
    let legal_moves = NON_ROTATION_MOVES;
    assert(decides(oll_solved, oll_goal()));
    enumerate_states_with_criteria(*state, max_depth, oll_solved, &legal_moves)
}

} // verus!
