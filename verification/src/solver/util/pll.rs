//! The fourth stage: the pieces of the up layer stand in their places, up to
//! a turn of that layer.

use vstd::prelude::*;
use vstd::string::StringExecFns;
use crate::cube::moves::CubeMove;
use crate::cube::sequence::{apply_moves, joined_moves, moves_to_vec};
use crate::cube::state::{CubeState, Facelets};
use super::auf::AUF_MOVES;
use super::enumerate::outcomes;
use super::oll::{move_lists, oll_complete};

verus! {

/// The top row of side face `f` shows one colour.
pub open spec fn top_row_uniform(s: Facelets, f: int) -> bool {
    s[f][1] == s[f][0] && s[f][1] == s[f][2]
}

/// The up face is oriented and the top row of each side face shows one
/// colour: only a turn of the up layer is left.
pub open spec fn pll_complete(s: Facelets) -> bool {
    &&& oll_complete(s)
    &&& top_row_uniform(s, 1)
    &&& top_row_uniform(s, 2)
    &&& top_row_uniform(s, 3)
    &&& top_row_uniform(s, 4)
}

impl CubeState {
    pub fn pll_solved(&self) -> (done: bool)
        ensures
            done == pll_complete(self@),
    {
        if !self.oll_solved() {
            return false;
        }
        if self.faces[1][1] != self.faces[1][0] || self.faces[1][1] != self.faces[1][2] {
            return false;
        }
        if self.faces[2][1] != self.faces[2][0] || self.faces[2][1] != self.faces[2][2] {
            return false;
        }
        if self.faces[3][1] != self.faces[3][0] || self.faces[3][1] != self.faces[3][2] {
            return false;
        }
        if self.faces[4][1] != self.faces[4][0] || self.faces[4][1] != self.faces[4][2] {
            return false;
        }
        true
    }
}


/// The permutation algorithm Aa.
pub const PLL_AA: [CubeMove; 9] = [
    CubeMove::RPrime, CubeMove::F, CubeMove::RPrime, CubeMove::B2, CubeMove::R,
    CubeMove::FPrime, CubeMove::RPrime, CubeMove::B2, CubeMove::R2,
];

/// The permutation algorithm Ab.
pub const PLL_AB: [CubeMove; 13] = [
    CubeMove::RPrime, CubeMove::BPrime, CubeMove::R, CubeMove::UPrime, CubeMove::R, CubeMove::D,
    CubeMove::RPrime, CubeMove::U, CubeMove::R, CubeMove::DPrime, CubeMove::R2, CubeMove::B,
    CubeMove::R,
];

/// The permutation algorithm E.
pub const PLL_E: [CubeMove; 18] = [
    CubeMove::R2, CubeMove::U, CubeMove::FPrime, CubeMove::RPrime, CubeMove::U, CubeMove::R,
    CubeMove::UPrime, CubeMove::RPrime, CubeMove::U, CubeMove::R, CubeMove::UPrime,
    CubeMove::RPrime, CubeMove::U, CubeMove::R, CubeMove::UPrime, CubeMove::F, CubeMove::UPrime,
    CubeMove::R2,
];

/// The permutation algorithm F.
pub const PLL_F: [CubeMove; 14] = [
    CubeMove::RPrime, CubeMove::U, CubeMove::R, CubeMove::UPrime, CubeMove::R2,
    CubeMove::FPrime, CubeMove::UPrime, CubeMove::F, CubeMove::U, CubeMove::R, CubeMove::F,
    CubeMove::RPrime, CubeMove::FPrime, CubeMove::R2,
];

/// The permutation algorithm Ga.
pub const PLL_GA: [CubeMove; 15] = [
    CubeMove::R2, CubeMove::U, CubeMove::RPrime, CubeMove::U, CubeMove::RPrime,
    CubeMove::UPrime, CubeMove::R, CubeMove::UPrime, CubeMove::R2, CubeMove::D,
    CubeMove::UPrime, CubeMove::RPrime, CubeMove::U, CubeMove::R, CubeMove::DPrime,
];

/// The permutation algorithm Gb.
pub const PLL_GB: [CubeMove; 15] = [
    CubeMove::D, CubeMove::RPrime, CubeMove::UPrime, CubeMove::R, CubeMove::U, CubeMove::DPrime,
    CubeMove::R2, CubeMove::U, CubeMove::RPrime, CubeMove::U, CubeMove::R, CubeMove::UPrime,
    CubeMove::R, CubeMove::UPrime, CubeMove::R2,
];

/// The permutation algorithm Gc.
pub const PLL_GC: [CubeMove; 15] = [
    CubeMove::R2, CubeMove::UPrime, CubeMove::R, CubeMove::UPrime, CubeMove::R, CubeMove::U,
    CubeMove::RPrime, CubeMove::U, CubeMove::R2, CubeMove::DPrime, CubeMove::U, CubeMove::R,
    CubeMove::UPrime, CubeMove::RPrime, CubeMove::D,
];

/// The permutation algorithm Gd.
pub const PLL_GD: [CubeMove; 15] = [
    CubeMove::R, CubeMove::U, CubeMove::RPrime, CubeMove::UPrime, CubeMove::D, CubeMove::R2,
    CubeMove::UPrime, CubeMove::R, CubeMove::UPrime, CubeMove::RPrime, CubeMove::U,
    CubeMove::RPrime, CubeMove::U, CubeMove::R2, CubeMove::DPrime,
];

/// The permutation algorithm H.
pub const PLL_H: [CubeMove; 11] = [
    CubeMove::R2, CubeMove::U2, CubeMove::R, CubeMove::U2, CubeMove::R2, CubeMove::U2,
    CubeMove::R2, CubeMove::U2, CubeMove::R, CubeMove::U2, CubeMove::R2,
];

/// The permutation algorithm Ja.
pub const PLL_JA: [CubeMove; 10] = [
    CubeMove::RPrime, CubeMove::U, CubeMove::LPrime, CubeMove::U2, CubeMove::R,
    CubeMove::UPrime, CubeMove::RPrime, CubeMove::U2, CubeMove::R, CubeMove::L,
];

/// The permutation algorithm Jb.
pub const PLL_JB: [CubeMove; 13] = [
    CubeMove::R, CubeMove::U, CubeMove::RPrime, CubeMove::FPrime, CubeMove::R, CubeMove::U,
    CubeMove::RPrime, CubeMove::UPrime, CubeMove::RPrime, CubeMove::F, CubeMove::R2,
    CubeMove::UPrime, CubeMove::RPrime,
];

/// The permutation algorithm Na.
pub const PLL_NA: [CubeMove; 16] = [
    CubeMove::FPrime, CubeMove::R, CubeMove::U, CubeMove::RPrime, CubeMove::UPrime,
    CubeMove::RPrime, CubeMove::F, CubeMove::R2, CubeMove::F, CubeMove::UPrime,
    CubeMove::RPrime, CubeMove::UPrime, CubeMove::R, CubeMove::U, CubeMove::FPrime,
    CubeMove::RPrime,
];

/// The permutation algorithm Nb.
pub const PLL_NB: [CubeMove; 14] = [
    CubeMove::RPrime, CubeMove::U, CubeMove::LPrime, CubeMove::U2, CubeMove::R,
    CubeMove::UPrime, CubeMove::L, CubeMove::RPrime, CubeMove::U, CubeMove::LPrime,
    CubeMove::U2, CubeMove::R, CubeMove::UPrime, CubeMove::L,
];

/// The permutation algorithm Ra.
pub const PLL_RA: [CubeMove; 15] = [
    CubeMove::R, CubeMove::UPrime, CubeMove::RPrime, CubeMove::UPrime, CubeMove::R, CubeMove::U,
    CubeMove::R, CubeMove::D, CubeMove::RPrime, CubeMove::UPrime, CubeMove::R, CubeMove::DPrime,
    CubeMove::RPrime, CubeMove::U2, CubeMove::RPrime,
];

/// The permutation algorithm Rb.
pub const PLL_RB: [CubeMove; 13] = [
    CubeMove::RPrime, CubeMove::U2, CubeMove::R, CubeMove::U2, CubeMove::RPrime, CubeMove::F,
    CubeMove::R, CubeMove::U, CubeMove::RPrime, CubeMove::UPrime, CubeMove::RPrime,
    CubeMove::FPrime, CubeMove::R2,
];

/// The permutation algorithm T.
pub const PLL_T: [CubeMove; 14] = [
    CubeMove::R, CubeMove::U, CubeMove::RPrime, CubeMove::UPrime, CubeMove::RPrime, CubeMove::F,
    CubeMove::R2, CubeMove::UPrime, CubeMove::RPrime, CubeMove::UPrime, CubeMove::R,
    CubeMove::U, CubeMove::RPrime, CubeMove::FPrime,
];

/// The permutation algorithm Ua.
pub const PLL_UA: [CubeMove; 13] = [
    CubeMove::R, CubeMove::U, CubeMove::RPrime, CubeMove::U, CubeMove::RPrime, CubeMove::UPrime,
    CubeMove::R2, CubeMove::UPrime, CubeMove::RPrime, CubeMove::U, CubeMove::RPrime,
    CubeMove::U, CubeMove::R,
];

/// The permutation algorithm Ub.
pub const PLL_UB: [CubeMove; 11] = [
    CubeMove::RPrime, CubeMove::U, CubeMove::RPrime, CubeMove::UPrime, CubeMove::RPrime,
    CubeMove::UPrime, CubeMove::RPrime, CubeMove::U, CubeMove::R, CubeMove::U, CubeMove::R2,
];

/// The permutation algorithm V.
pub const PLL_V: [CubeMove; 16] = [
    CubeMove::RPrime, CubeMove::U, CubeMove::RPrime, CubeMove::UPrime, CubeMove::R,
    CubeMove::DPrime, CubeMove::RPrime, CubeMove::D, CubeMove::RPrime, CubeMove::U,
    CubeMove::DPrime, CubeMove::R2, CubeMove::UPrime, CubeMove::R2, CubeMove::D, CubeMove::R2,
];

/// The permutation algorithm Y.
pub const PLL_Y: [CubeMove; 17] = [
    CubeMove::F, CubeMove::R, CubeMove::UPrime, CubeMove::RPrime, CubeMove::UPrime, CubeMove::R,
    CubeMove::U, CubeMove::RPrime, CubeMove::FPrime, CubeMove::R, CubeMove::U, CubeMove::RPrime,
    CubeMove::UPrime, CubeMove::RPrime, CubeMove::F, CubeMove::R, CubeMove::FPrime,
];

/// The permutation algorithm Z.
pub const PLL_Z: [CubeMove; 15] = [
    CubeMove::RPrime, CubeMove::UPrime, CubeMove::R, CubeMove::UPrime, CubeMove::R, CubeMove::U,
    CubeMove::R, CubeMove::UPrime, CubeMove::RPrime, CubeMove::U, CubeMove::R, CubeMove::U,
    CubeMove::R2, CubeMove::UPrime, CubeMove::RPrime,
];

/// The tabulated algorithms that permute the up layer.
pub open spec fn pll_table() -> Seq<Seq<CubeMove>> {
    seq![
        PLL_AA@,
        PLL_AB@,
        PLL_E@,
        PLL_F@,
        PLL_GA@,
        PLL_GB@,
        PLL_GC@,
        PLL_GD@,
        PLL_H@,
        PLL_JA@,
        PLL_JB@,
        PLL_NA@,
        PLL_NB@,
        PLL_RA@,
        PLL_RB@,
        PLL_T@,
        PLL_UA@,
        PLL_UB@,
        PLL_V@,
        PLL_Y@,
        PLL_Z@,
    ]
}

/// The tabulated algorithms that permute the up layer, in the table's order.
pub fn pll_algorithms() -> (algorithms: Vec<Vec<CubeMove>>)
    ensures
        move_lists(algorithms@) == pll_table(),
{
    let mut algorithms: Vec<Vec<CubeMove>> = Vec::new();
    algorithms.push(moves_to_vec(&PLL_AA));
    algorithms.push(moves_to_vec(&PLL_AB));
    algorithms.push(moves_to_vec(&PLL_E));
    algorithms.push(moves_to_vec(&PLL_F));
    algorithms.push(moves_to_vec(&PLL_GA));
    algorithms.push(moves_to_vec(&PLL_GB));
    algorithms.push(moves_to_vec(&PLL_GC));
    algorithms.push(moves_to_vec(&PLL_GD));
    algorithms.push(moves_to_vec(&PLL_H));
    algorithms.push(moves_to_vec(&PLL_JA));
    algorithms.push(moves_to_vec(&PLL_JB));
    algorithms.push(moves_to_vec(&PLL_NA));
    algorithms.push(moves_to_vec(&PLL_NB));
    algorithms.push(moves_to_vec(&PLL_RA));
    algorithms.push(moves_to_vec(&PLL_RB));
    algorithms.push(moves_to_vec(&PLL_T));
    algorithms.push(moves_to_vec(&PLL_UA));
    algorithms.push(moves_to_vec(&PLL_UB));
    algorithms.push(moves_to_vec(&PLL_V));
    algorithms.push(moves_to_vec(&PLL_Y));
    algorithms.push(moves_to_vec(&PLL_Z));
    assert(move_lists(algorithms@) =~= pll_table());
    algorithms
}

/// The turn of the up layer that comes before an algorithm: none for
/// `a == 0`, else the turn `AUF_MOVES[a - 1]`.
pub open spec fn pll_setup(a: int) -> Seq<CubeMove> {
    if a == 0 {
        Seq::<CubeMove>::empty()
    } else {
        seq![AUF_MOVES[a - 1]]
    }
}

/// Setup `a` followed by algorithm `b` of the table.
pub open spec fn pll_candidate(a: int, b: int) -> Seq<CubeMove> {
    pll_setup(a) + pll_table()[b]
}

/// Whether `(a, b)` names a candidate: one of four setups and one algorithm.
pub open spec fn is_pll_case(a: int, b: int) -> bool {
    0 <= a < 4 && 0 <= b < pll_table().len()
}

/// Candidate `(a, b)` completes the permutation stage from `s`.
pub open spec fn pll_case_solves(s: Facelets, a: int, b: int) -> bool {
    pll_complete(apply_moves(s, pll_candidate(a, b)))
}

/// Candidate `(a2, b2)` is tried before `(a, b)`.
pub open spec fn tried_before(a2: int, b2: int, a: int, b: int) -> bool {
    a2 < a || (a2 == a && b2 < b)
}

/// Candidate `(a, b)` is the first one that completes the permutation stage
/// from `s`.
pub open spec fn first_pll_case(s: Facelets, a: int, b: int) -> bool {
    &&& is_pll_case(a, b)
    &&& pll_case_solves(s, a, b)
    &&& forall|a2: int, b2: int|
        is_pll_case(a2, b2) && tried_before(a2, b2, a, b) ==> !#[trigger] pll_case_solves(s, a2, b2)
}

/// Looks the permutation of the up layer up in the table.
///
/// Where `state` already has the stage complete, the one result is `state`
/// with no moves.  Else the candidates are tried in order, each setup with
/// every algorithm in turn, and the one result is the first candidate that
/// completes the stage, with the state it gives.  Fails where none does.
pub fn get_pll_solution(state: &CubeState) -> (result: Result<
    Vec<(CubeState, Vec<CubeMove>)>,
    String,
>)
    ensures
        pll_complete(state@) ==> result is Ok && outcomes(result->Ok_0@) == seq![
            (state@, Seq::<CubeMove>::empty()),
        ],
        !pll_complete(state@) ==> match result {
            Ok(found) => exists|a: int, b: int|
                #![trigger pll_candidate(a, b)]
                first_pll_case(state@, a, b) && outcomes(found@) == seq![
                    (apply_moves(state@, pll_candidate(a, b)), pll_candidate(a, b)),
                ],
            Err(message) => {
                &&& message@ == "No PLL solution found"@
                &&& forall|a: int, b: int|
                    is_pll_case(a, b) ==> !#[trigger] pll_case_solves(state@, a, b)
            },
        },
{
    if state.pll_solved() {
        let mut found: Vec<(CubeState, Vec<CubeMove>)> = Vec::new();
        found.push((*state, Vec::new()));
        assert(outcomes(found@) =~= seq![(state@, Seq::<CubeMove>::empty())]);
        return Ok(found);
    }
    let algorithms = pll_algorithms();
    assert(algorithms.len() == pll_table().len()) by {
        assert(move_lists(algorithms@).len() == algorithms@.len());
    }
    let mut a: usize = 0;
    while a < 4
        invariant
            a <= 4,
            !pll_complete(state@),
            move_lists(algorithms@) == pll_table(),
            algorithms.len() == pll_table().len(),
            forall|a2: int, b2: int|
                is_pll_case(a2, b2) && a2 < a ==> !#[trigger] pll_case_solves(state@, a2, b2),
        decreases 4 - a,
    {
        let mut setup: Vec<CubeMove> = Vec::new();
        if a != 0 {
            setup.push(AUF_MOVES[a - 1]);
        }
        assert(setup@ =~= pll_setup(a as int));
        let mut b: usize = 0;
        while b < algorithms.len()
            invariant
                a < 4,
                b <= algorithms.len(),
                !pll_complete(state@),
                setup@ == pll_setup(a as int),
                move_lists(algorithms@) == pll_table(),
                algorithms.len() == pll_table().len(),
                forall|a2: int, b2: int|
                    is_pll_case(a2, b2) && tried_before(a2, b2, a as int, b as int)
                        ==> !#[trigger] pll_case_solves(state@, a2, b2),
            decreases algorithms.len() - b,
        {
            assert(algorithms[b as int]@ == pll_table()[b as int]) by {
                assert(move_lists(algorithms@)[b as int] == algorithms[b as int]@);
            }
            let full_sequence = joined_moves(setup.as_slice(), algorithms[b].as_slice());
            assert(full_sequence@ == pll_candidate(a as int, b as int));
            let mut test_state = *state;
            test_state.execute_moves(full_sequence.as_slice());
            if test_state.pll_solved() {
                let mut found: Vec<(CubeState, Vec<CubeMove>)> = Vec::new();
                found.push((test_state, full_sequence));
                proof {
                    assert(first_pll_case(state@, a as int, b as int));
                    assert(outcomes(found@) =~= seq![
                        (
                            apply_moves(state@, pll_candidate(a as int, b as int)),
                            pll_candidate(a as int, b as int),
                        ),
                    ]);
                }
                return Ok(found);
            }
            b += 1;
        }
        a += 1;
    }
    Err(String::from_str("No PLL solution found"))
}

} // verus!
