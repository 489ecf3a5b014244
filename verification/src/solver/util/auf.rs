//! The last step: the turn of the up layer that is left when everything else
//! is in place.

use vstd::prelude::*;
use vstd::string::StringExecFns;
use crate::cube::moves::{CubeMove, apply_move};
use crate::cube::state::{CubeState, Facelets};
use super::enumerate::{Outcome, outcomes};
use super::solved::is_solved;

verus! {

/// The turns of the up layer, in the order in which they are tried.
pub const AUF_MOVES: [CubeMove; 3] = [CubeMove::U, CubeMove::UPrime, CubeMove::U2];

/// The first of `AUF_MOVES` that solves `s`, by its index.
pub open spec fn first_auf(s: Facelets) -> Option<int> {
    if is_solved(apply_move(s, AUF_MOVES[0])) {
        Some(0)
    } else if is_solved(apply_move(s, AUF_MOVES[1])) {
        Some(1)
    } else if is_solved(apply_move(s, AUF_MOVES[2])) {
        Some(2)
    } else {
        None
    }
}

/// The adjustment of the up layer that solves `s`, with the state it gives:
/// nothing where `s` is solved, else the first of `AUF_MOVES` that solves it.
pub open spec fn auf_outcome(s: Facelets) -> Option<Outcome> {
    if is_solved(s) {
        Some((s, Seq::<CubeMove>::empty()))
    } else {
        match first_auf(s) {
            Some(i) => Some((apply_move(s, AUF_MOVES[i]), seq![AUF_MOVES[i]])),
            None => None,
        }
    }
}

/// Finds the turn of the up layer that solves `state`.
///
/// Succeeds with one result, the solved state and the moves to it (none, or
/// one turn of the up layer), or fails where no such turn solves the state.
pub fn get_auf_solution(state: &CubeState) -> (result: Result<
    Vec<(CubeState, Vec<CubeMove>)>,
    String,
>)
    ensures
        match auf_outcome(state@) {
            Some(outcome) => result is Ok && outcomes(result->Ok_0@) == seq![outcome],
            None => result is Err && result->Err_0@ == "No AUF solution found"@,
        },
{
    if state.solved() {
        let mut found: Vec<(CubeState, Vec<CubeMove>)> = Vec::new();
        found.push((*state, Vec::new()));
        assert(outcomes(found@) =~= seq![auf_outcome(state@).unwrap()]);
        return Ok(found);
    }
    let mut i: usize = 0;
    while i < 3
        invariant
            i <= 3,
            !is_solved(state@),
            forall|j: int| 0 <= j < i ==> !is_solved(apply_move(state@, #[trigger] AUF_MOVES[j])),
        decreases 3 - i,
    {
        let mv = AUF_MOVES[i];
        let mut test_state = *state;
        test_state.execute_move(mv);
        if test_state.solved() {
            let mut moves: Vec<CubeMove> = Vec::new();
            moves.push(mv);
            let mut found: Vec<(CubeState, Vec<CubeMove>)> = Vec::new();
            found.push((test_state, moves));
            proof {
                assert(first_auf(state@) == Some(i as int));
                assert(moves@ =~= seq![mv]);
                assert(outcomes(found@) =~= seq![auf_outcome(state@).unwrap()]);
            }
            return Ok(found);
        }
        i += 1;
    }
    assert(first_auf(state@) is None);
    Err(String::from_str("No AUF solution found"))
}

} // verus!
