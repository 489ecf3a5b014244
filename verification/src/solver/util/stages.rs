//! How the goals of the stages include one another: each later stage keeps
//! what the earlier ones have reached.

use vstd::prelude::*;
use crate::cube::state::Facelets;
use super::cross::cross_complete;
use super::f2l::{F2LPair, f2l_complete, mask_complete, pair_at, pair_complete};
use super::oll::oll_complete;
use super::pll::{pll_complete, top_row_uniform};
use super::solved::{is_solved, matches_center};

verus! {

/// A solved cube has every stage complete, and each stage includes the ones
/// before it: permutation includes orientation, orientation the first two
/// layers, and the first two layers the cross and each of the four pairs.
pub proof fn lemma_stages_nest(s: Facelets)
    ensures
        is_solved(s) ==> pll_complete(s),
        pll_complete(s) ==> oll_complete(s),
        oll_complete(s) ==> f2l_complete(s),
        f2l_complete(s) ==> cross_complete(s),
        forall|pair: F2LPair| f2l_complete(s) ==> #[trigger] pair_complete(s, pair),
{
    if is_solved(s) {
        assert forall|f: int, p: int| 0 <= f < 6 && 0 <= p < 9 implies #[trigger] s[f][p] == s[f][4] by {
            assert(matches_center(s, f, p));
        }
        assert(cross_complete(s));
        assert(pair_complete(s, F2LPair::FrontRight));
        assert(pair_complete(s, F2LPair::FrontLeft));
        assert(pair_complete(s, F2LPair::BackRight));
        assert(pair_complete(s, F2LPair::BackLeft));
        assert(top_row_uniform(s, 1));
        assert(top_row_uniform(s, 2));
        assert(top_row_uniform(s, 3));
        assert(top_row_uniform(s, 4));
    }
    assert forall|pair: F2LPair| f2l_complete(s) implies #[trigger] pair_complete(s, pair) by {
        match pair {
            F2LPair::FrontRight => {},
            F2LPair::FrontLeft => {},
            F2LPair::BackRight => {},
            F2LPair::BackLeft => {},
        }
    }
}

/// A mask that marks more pairs asks for more: what meets the wider mask
/// meets the narrower one.
pub proof fn lemma_masks_nest(narrow: Seq<bool>, wide: Seq<bool>, s: Facelets)
    requires
        forall|i: int| 0 <= i < 4 && narrow[i] ==> wide[i],
        mask_complete(wide, s),
    ensures
        mask_complete(narrow, s),
{
}

/// Complete first two layers meet every mask, and the mask of all four pairs
/// asks for exactly them.
pub proof fn lemma_f2l_meets_masks(mask: Seq<bool>, s: Facelets)
    ensures
        f2l_complete(s) ==> mask_complete(mask, s),
        mask[0] && mask[1] && mask[2] && mask[3] && mask_complete(mask, s) ==> f2l_complete(s),
{
    if f2l_complete(s) {
        assert forall|i: int| 0 <= i < 4 && mask[i] implies pair_complete(s, #[trigger] pair_at(i)) by {
            lemma_stages_nest(s);
        }
    }
    if mask[0] && mask[1] && mask[2] && mask[3] && mask_complete(mask, s) {
        assert(pair_complete(s, pair_at(0)));
        assert(pair_complete(s, pair_at(1)));
        assert(pair_complete(s, pair_at(2)));
        assert(pair_complete(s, pair_at(3)));
    }
}

} // verus!
