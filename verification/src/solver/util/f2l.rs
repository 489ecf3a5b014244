//! The second stage: the first two layers, one corner-edge pair per slot.

use itertools::Itertools;
use vstd::prelude::*;
use crate::cube::moves::{CubeMove, NON_ROTATION_MOVES};
use crate::cube::state::{CubeState, Facelets};
use super::cross::cross_complete;
use super::enumerate::{decides, enumerate_states_with_criteria};
use super::solved::matches_center;

verus! {

/// The four slots of the first two layers, named by the two side faces that
/// meet there.
#[derive(Debug, Clone, Copy, PartialEq, Eq, Structural)]
pub enum F2LPair {
    FrontRight,
    FrontLeft,
    BackRight,
    BackLeft,
}

/// The corner and the edge of a slot are in place: the corner shows the down
/// colour below, and corner and edge show the colours of the two side faces.
pub open spec fn pair_complete(s: Facelets, pair: F2LPair) -> bool {
    match pair {
        F2LPair::FrontRight => {
            &&& matches_center(s, 5, 2)
            &&& matches_center(s, 3, 6)
            &&& matches_center(s, 3, 3)
            &&& matches_center(s, 2, 8)
            &&& matches_center(s, 2, 5)
        },
        F2LPair::FrontLeft => {
            &&& matches_center(s, 5, 0)
            &&& matches_center(s, 1, 8)
            &&& matches_center(s, 1, 5)
            &&& matches_center(s, 2, 6)
            &&& matches_center(s, 2, 3)
        },
        F2LPair::BackRight => {
            &&& matches_center(s, 5, 8)
            &&& matches_center(s, 3, 8)
            &&& matches_center(s, 3, 5)
            &&& matches_center(s, 4, 6)
            &&& matches_center(s, 4, 3)
        },
        F2LPair::BackLeft => {
            &&& matches_center(s, 5, 6)
            &&& matches_center(s, 1, 6)
            &&& matches_center(s, 1, 3)
            &&& matches_center(s, 4, 8)
            &&& matches_center(s, 4, 5)
        },
    }
}

/// The cross and all four pairs are in place.
pub open spec fn f2l_complete(s: Facelets) -> bool {
    &&& cross_complete(s)
    &&& pair_complete(s, F2LPair::FrontRight)
    &&& pair_complete(s, F2LPair::FrontLeft)
    &&& pair_complete(s, F2LPair::BackRight)
    &&& pair_complete(s, F2LPair::BackLeft)
}

impl CubeState {
    pub fn f2l_solved(&self) -> (done: bool)
        ensures
            done == f2l_complete(self@),
    {
        self.cross_solved() && self.front_right_f2l_pair_solved()
            && self.front_left_f2l_pair_solved() && self.back_right_f2l_pair_solved()
            && self.back_left_f2l_pair_solved()
    }

    pub fn front_right_f2l_pair_solved(&self) -> (done: bool)
        ensures
            done == pair_complete(self@, F2LPair::FrontRight),
    {
        let bottom_center_color = self.faces[5][4];
        if self.faces[5][2] != bottom_center_color {
            return false;
        }
        let right_center_color = self.faces[3][4];
        if self.faces[3][6] != right_center_color || self.faces[3][3] != right_center_color {
            return false;
        }
        let front_center_color = self.faces[2][4];
        if self.faces[2][8] != front_center_color || self.faces[2][5] != front_center_color {
            return false;
        }
        true
    }

    pub fn front_left_f2l_pair_solved(&self) -> (done: bool)
        ensures
            done == pair_complete(self@, F2LPair::FrontLeft),
    {
        let bottom_center_color = self.faces[5][4];
        if self.faces[5][0] != bottom_center_color {
            return false;
        }
        let left_center_color = self.faces[1][4];
        if self.faces[1][8] != left_center_color || self.faces[1][5] != left_center_color {
            return false;
        }
        let front_center_color = self.faces[2][4];
        if self.faces[2][6] != front_center_color || self.faces[2][3] != front_center_color {
            return false;
        }
        true
    }

    pub fn back_right_f2l_pair_solved(&self) -> (done: bool)
        ensures
            done == pair_complete(self@, F2LPair::BackRight),
    {
        let bottom_center_color = self.faces[5][4];
        if self.faces[5][8] != bottom_center_color {
            return false;
        }
        let right_center_color = self.faces[3][4];
        if self.faces[3][8] != right_center_color || self.faces[3][5] != right_center_color {
            return false;
        }
        let back_center_color = self.faces[4][4];
        if self.faces[4][6] != back_center_color || self.faces[4][3] != back_center_color {
            return false;
        }
        true
    }

    pub fn back_left_f2l_pair_solved(&self) -> (done: bool)
        ensures
            done == pair_complete(self@, F2LPair::BackLeft),
    {
        let bottom_center_color = self.faces[5][4];
        if self.faces[5][6] != bottom_center_color {
            return false;
        }
        let left_center_color = self.faces[1][4];
        if self.faces[1][6] != left_center_color || self.faces[1][3] != left_center_color {
            return false;
        }
        let back_center_color = self.faces[4][4];
        if self.faces[4][8] != back_center_color || self.faces[4][5] != back_center_color {
            return false;
        }
        true
    }
}

/// `CubeState::f2l_solved` as a function, to hand to a search.
pub fn f2l_solved(state: &CubeState) -> (done: bool)
    ensures
        done == f2l_complete(state@),
{
    state.f2l_solved()
}

pub fn front_right_f2l_pair_solved(state: &CubeState) -> (done: bool)
    ensures
        done == pair_complete(state@, F2LPair::FrontRight),
{
    state.front_right_f2l_pair_solved()
}

pub fn front_left_f2l_pair_solved(state: &CubeState) -> (done: bool)
    ensures
        done == pair_complete(state@, F2LPair::FrontLeft),
{
    state.front_left_f2l_pair_solved()
}

pub fn back_right_f2l_pair_solved(state: &CubeState) -> (done: bool)
    ensures
        done == pair_complete(state@, F2LPair::BackRight),
{
    state.back_right_f2l_pair_solved()
}

pub fn back_left_f2l_pair_solved(state: &CubeState) -> (done: bool)
    ensures
        done == pair_complete(state@, F2LPair::BackLeft),
{
    state.back_left_f2l_pair_solved()
}

/// The slot that an index names: 0 front right, 1 front left, 2 back right,
/// 3 back left.
pub open spec fn pair_at(idx: int) -> F2LPair
    recommends
        0 <= idx < 4,
{
    if idx == 0 {
        F2LPair::FrontRight
    } else if idx == 1 {
        F2LPair::FrontLeft
    } else if idx == 2 {
        F2LPair::BackRight
    } else {
        F2LPair::BackLeft
    }
}

/// The cross is complete, and so is every pair that `mask` marks.
pub open spec fn mask_complete(mask: Seq<bool>, s: Facelets) -> bool {
    &&& cross_complete(s)
    &&& forall|i: int| 0 <= i < 4 && mask[i] ==> pair_complete(s, #[trigger] pair_at(i))
}

/// The goal that a mask of pairs stands for, as a search takes it.
pub open spec fn mask_goal(mask: Seq<bool>) -> spec_fn(Facelets) -> bool {
    |s: Facelets| mask_complete(mask, s)
}

/// Whether `mask` marks at least one pair.
pub open spec fn marks_a_pair(mask: Seq<bool>) -> bool {
    mask[0] || mask[1] || mask[2] || mask[3]
}

/// The test for "cross complete, and every marked pair complete".
///
/// A mask that marks no pair stands for no stage of the solve and is not
/// accepted.
pub fn make_criterion(mask: [bool; 4]) -> (criterion: impl Fn(&CubeState) -> bool)
    requires
        marks_a_pair(mask@),
    ensures
        forall|s: &CubeState| call_requires(criterion, (s,)),
        decides(criterion, mask_goal(mask@)),
{
    move |s: &CubeState| -> (done: bool)
        ensures
            done == mask_complete(mask@, s@),
        {
            let done = s.cross_solved() && (!mask[0] || s.front_right_f2l_pair_solved()) && (!mask[1]
                || s.front_left_f2l_pair_solved()) && (!mask[2] || s.back_right_f2l_pair_solved())
                && (!mask[3] || s.back_left_f2l_pair_solved());
            proof {
                assert(pair_at(0) == F2LPair::FrontRight);
                assert(pair_at(1) == F2LPair::FrontLeft);
                assert(pair_at(2) == F2LPair::BackRight);
                assert(pair_at(3) == F2LPair::BackLeft);
            }
            done
        }
}

/// The exploration of the first two layers from `state`: the sequence of
/// moves it settles on.  It settles on the empty sequence.
pub fn explore_f2l_solutions(state: &CubeState) -> (moves: Option<Vec<CubeMove>>)
    ensures
        moves is Some,
        moves->Some_0@ == Seq::<CubeMove>::empty(),
{
    Some(Vec::new())
}

/// The number of orders of `n` things.
pub open spec fn factorial(n: nat) -> nat
    decreases n,
{
    if n == 0 {
        1
    } else {
        n * factorial((n - 1) as nat)
    }
}

/// An order of the indices below `n`: each of them once.
pub open spec fn is_ordering(order: Seq<usize>, n: nat) -> bool {
    &&& order.len() == n
    &&& forall|i: int| 0 <= i < n ==> (#[trigger] order[i]) < n
    &&& forall|i: int, j: int| 0 <= i < j < n ==> order[i] != order[j]
}

/// Every order of the indices below `n`, by `Itertools::permutations` on the
/// range from 0 to `n`.
///
/// Claimed of `permutations`, as its documentation has it: it yields all the
/// permutations of the `n` items, each as a vector of length `n`, and, the
/// items being distinct, none of them twice; so there are `n!` of them.  The
/// order in which they come is left open.  `n` is kept small: the list grows
/// as the factorial.
#[verifier::external_body]
fn index_permutations(n: usize) -> (orderings: Vec<Vec<usize>>)
    requires
        n <= 8,
    ensures
        orderings@.len() == factorial(n as nat),
        forall|i: int| 0 <= i < orderings@.len() ==> is_ordering((#[trigger] orderings@[i])@, n as nat),
        forall|i: int, j: int|
            0 <= i < j < orderings@.len() ==> (#[trigger] orderings@[i])@ != (#[trigger] orderings@[j])@,
{
    (0..n).permutations(n).collect()
}

/// The twenty-four orders in which the four pairs can be solved, each as the
/// indices of the pairs.
pub fn pair_orderings() -> (orderings: Vec<Vec<usize>>)
    ensures
        orderings@.len() == 24,
        forall|i: int| 0 <= i < 24 ==> is_ordering((#[trigger] orderings@[i])@, 4),
        forall|i: int, j: int|
            0 <= i < j < 24 ==> (#[trigger] orderings@[i])@ != (#[trigger] orderings@[j])@,
{
    assert(factorial(4) == 24) by {
        reveal_with_fuel(factorial, 5);
    }
    index_permutations(4)
}

/// Walks through the orders of the four pairs and, along each, searches from
/// `state` for the pairs marked so far, to at most `max_depth_per_pair`
/// moves.  The walk settles on the empty sequence, whatever it comes to.
pub fn enumerate_f2l_solutions(state: &CubeState, max_depth_per_pair: usize) -> (moves: Option<
    Vec<CubeMove>,
>)
    ensures
        moves is Some,
        moves->Some_0@ == Seq::<CubeMove>::empty(),
{
    let orderings = pair_orderings();
    let mut o: usize = 0;
    while o < orderings.len()
        invariant
            o <= orderings@.len(),
            orderings@.len() == 24,
            forall|i: int| 0 <= i < 24 ==> is_ordering((#[trigger] orderings@[i])@, 4),
        decreases orderings.len() - o,
    {
        let ordering = &orderings[o];
        let mut mask: [bool; 4] = [false, false, false, false];
        let mut k: usize = 0;
        while k < 4
            invariant
                k <= 4,
                is_ordering(ordering@, 4),
                k > 0 ==> marks_a_pair(mask@),
            decreases 4 - k,
        {
            let pair_id = ordering[k];
            mask[pair_id] = true;
            let current_criteria = make_criterion(mask);
            let legal_moves = NON_ROTATION_MOVES;
            let _current_pair_solutions = enumerate_states_with_criteria(
                *state,
                max_depth_per_pair,
                current_criteria,
                &legal_moves,
            );
            k += 1;
        }
        o += 1;
    }
    Some(Vec::new())
}

} // verus!
