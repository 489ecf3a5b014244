//! Sequences of moves: they compose from left to right.

use vstd::prelude::*;
use super::moves::{CubeMove, apply_move};
use super::state::{CubeState, Facelets};

verus! {

/// What a sequence of moves, applied from left to right, makes of a state.
pub open spec fn apply_moves(s: Facelets, moves: Seq<CubeMove>) -> Facelets
    decreases moves.len(),
{
    if moves.len() == 0 {
        s
    } else {
        apply_moves(apply_move(s, moves[0]), moves.drop_first())
    }
}

/// To apply one sequence and then another is to apply the two joined.
pub proof fn lemma_apply_moves_concat(s: Facelets, first: Seq<CubeMove>, second: Seq<CubeMove>)
    ensures
        apply_moves(s, first + second) == apply_moves(apply_moves(s, first), second),
    decreases first.len(),
{
    if first.len() == 0 {
        assert(first + second =~= second);
    } else {
        assert((first + second).drop_first() =~= first.drop_first() + second);
        lemma_apply_moves_concat(apply_move(s, first[0]), first.drop_first(), second);
    }
}

/// A sequence of one move does what the move does.
pub proof fn lemma_apply_moves_single(s: Facelets, m: CubeMove)
    ensures
        apply_moves(s, seq![m]) == apply_move(s, m),
{
    reveal_with_fuel(apply_moves, 2);
    assert(seq![m].drop_first() =~= Seq::<CubeMove>::empty());
}

impl CubeState {
    /// Applies the moves of a sequence one after the other.
    pub fn execute_moves(&mut self, moves: &[CubeMove])
        ensures
            final(self)@ == apply_moves(old(self)@, moves@),
    {
        let mut i: usize = 0;
        proof {
            assert(moves@.skip(0) =~= moves@);
        }
        while i < moves.len()
            invariant
                i <= moves.len(),
                apply_moves(self@, moves@.skip(i as int)) == apply_moves(old(self)@, moves@),
            decreases moves.len() - i,
        {
            proof {
                assert(moves@.skip(i as int).drop_first() =~= moves@.skip(i + 1));
            }
            self.execute_move(moves[i]);
            i += 1;
        }
    }
}

/// The moves of a slice, as a vector of their own.
pub fn moves_to_vec(moves: &[CubeMove]) -> (copy: Vec<CubeMove>)
    ensures
        copy@ == moves@,
{
    let mut copy: Vec<CubeMove> = Vec::new();
    let mut i: usize = 0;
    while i < moves.len()
        invariant
            i <= moves.len(),
            copy@ == moves@.take(i as int),
        decreases moves.len() - i,
    {
        copy.push(moves[i]);
        proof {
            assert(moves@.take(i + 1) =~= moves@.take(i as int).push(moves@[i as int]));
        }
        i += 1;
    }
    proof {
        assert(moves@.take(moves@.len() as int) =~= moves@);
    }
    copy
}

/// Two sequences of moves joined into one vector.
pub fn joined_moves(first: &[CubeMove], second: &[CubeMove]) -> (all: Vec<CubeMove>)
    ensures
        all@ == first@ + second@,
{
    let mut all = moves_to_vec(first);
    let mut i: usize = 0;
    while i < second.len()
        invariant
            i <= second.len(),
            all@ == first@ + second@.take(i as int),
        decreases second.len() - i,
    {
        all.push(second[i]);
        proof {
            assert(second@.take(i + 1) =~= second@.take(i as int).push(second@[i as int]));
        }
        i += 1;
    }
    proof {
        assert(second@.take(second@.len() as int) =~= second@);
    }
    all
}

} // verus!
