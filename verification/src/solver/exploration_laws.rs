//! What holds of the exploration solver: every sequence it returns completes
//! the first two layers within the depths, it needs no move where nothing is
//! left to do, and it finds a way where one face turn was made.

use vstd::prelude::*;
use crate::cube::face::is_face_turn;
use crate::cube::laws::lemma_move_then_inverse;
use crate::cube::moves::{CubeMove, NON_ROTATION_MOVES, apply_move, invert};
use crate::cube::sequence::{apply_moves, lemma_apply_moves_concat, lemma_apply_moves_single};
use crate::cube::state::{Facelets, solved_facelets, well_formed};
use super::cfop_exploration::{
    CfopExplorationSolver, all_marked, improved, lemma_shortest_from_improves,
    lemma_shortest_from_longer, next_level, no_pairs, none_shorter, orientation_prefix,
    shortest_from, unmarked,
};
use super::util::cross::cross_goal;
use super::util::enumerate::{
    Outcome, all_legal, found_here, lemma_search_complete, lemma_search_sound, search,
};
use super::util::f2l::{f2l_complete, mask_complete, mask_goal};
use super::util::solved::{is_solved, matches_center};
use super::util::stages::{lemma_f2l_meets_masks, lemma_stages_nest};

verus! {

/// `path` goes on from `so_far` by at most `budget` face turns, and these,
/// applied to `s`, complete the first two layers.
pub open spec fn is_completion(s: Facelets, so_far: Seq<CubeMove>, budget: nat, path: Seq<CubeMove>) -> bool {
    &&& path.len() >= so_far.len()
    &&& path.take(so_far.len() as int) == so_far
    &&& path.len() - so_far.len() <= budget
    &&& all_legal(path.skip(so_far.len() as int), NON_ROTATION_MOVES@)
    &&& f2l_complete(apply_moves(s, path.skip(so_far.len() as int)))
}

/// Every result in `found` is reached from `s` by at most `depth` face turns
/// and meets `mask`.
pub open spec fn found_from(found: Seq<Outcome>, s: Facelets, depth: nat, mask: Seq<bool>) -> bool {
    forall|k: int|
        0 <= k < found.len() ==> {
            &&& (#[trigger] found[k]).1.len() <= depth
            &&& all_legal(found[k].1, NON_ROTATION_MOVES@)
            &&& found[k].0 == apply_moves(s, found[k].1)
            &&& mask_complete(mask, found[k].0)
        }
}

/// One of the six prefixes that bring the cube into an orientation.
pub open spec fn is_orientation_prefix(prefix: Seq<CubeMove>) -> bool {
    exists|o: int| 0 <= o < 6 && prefix == #[trigger] orientation_prefix(o)
}

/// The first shortest sequence of a list is the best there was before, or
/// it is in the list.
pub proof fn lemma_shortest_from_member(best: Option<Seq<CubeMove>>, paths: Seq<Seq<CubeMove>>)
    ensures
        shortest_from(best, paths) == best || (shortest_from(best, paths) is Some && paths.contains(
            shortest_from(best, paths)->Some_0,
        )),
        paths.len() > 0 ==> shortest_from(best, paths) is Some,
        best is Some ==> shortest_from(best, paths) is Some,
    decreases paths.len(),
{
    if paths.len() > 0 {
        let before = paths.drop_last();
        lemma_shortest_from_member(best, before);
        let found = shortest_from(best, before);
        if shortest_from(best, paths) == found {
            if found != best {
                let at = choose|at: int| 0 <= at < before.len() && before[at] == found->Some_0;
                assert(paths[at] == found->Some_0);
            }
        } else {
            assert(paths[paths.len() - 1] == paths.last());
        }
    }
}

/// The first shortest sequence of a list is no longer than any sequence in
/// the list.
pub proof fn lemma_shortest_from_least(best: Option<Seq<CubeMove>>, paths: Seq<Seq<CubeMove>>, i: int)
    requires
        0 <= i < paths.len(),
    ensures
        shortest_from(best, paths) is Some,
        shortest_from(best, paths)->Some_0.len() <= paths[i].len(),
    decreases paths.len(),
{
    let before = paths.drop_last();
    lemma_shortest_from_member(best, paths);
    if i < paths.len() - 1 {
        lemma_shortest_from_least(best, before, i);
    }
}

impl CfopExplorationSolver {
    /// The face turns that `count` pairs may take from `level` on: the sum
    /// of their depths.
    pub open spec fn pairs_budget(&self, level: nat, count: nat) -> nat
        decreases count,
    {
        if count == 0 {
            0
        } else {
            self.pair_depth(level) + self.pairs_budget(next_level(level), (count - 1) as nat)
        }
    }

    /// Every way that the solver finds to complete the first two layers
    /// does complete them, in face turns, within the depths of the pairs
    /// that were open.
    pub proof fn lemma_completions_sound(
        &self,
        s: Facelets,
        so_far: Seq<CubeMove>,
        mask: Seq<bool>,
        level: nat,
        i: int,
    )
        requires
            mask_complete(mask, s),
            0 <= i < self.completions(s, so_far, mask, level).len(),
        ensures
            is_completion(
                s,
                so_far,
                self.pairs_budget(level, unmarked(mask)),
                self.completions(s, so_far, mask, level)[i],
            ),
        decreases unmarked(mask), 2nat, 0nat,
    {
        if mask.len() != 4 {
        } else if all_marked(mask) {
            let path = self.completions(s, so_far, mask, level)[i];
            assert(path == so_far);
            assert(path.take(so_far.len() as int) =~= so_far);
            assert(path.skip(so_far.len() as int) =~= Seq::<CubeMove>::empty());
            lemma_f2l_meets_masks(mask, s);
        } else {
            self.lemma_completions_by_pair_sound(s, so_far, mask, level, 4, i);
        }
    }

    proof fn lemma_completions_by_pair_sound(
        &self,
        s: Facelets,
        so_far: Seq<CubeMove>,
        mask: Seq<bool>,
        level: nat,
        n: nat,
        i: int,
    )
        requires
            0 <= i < self.completions_by_pair(s, so_far, mask, level, n).len(),
        ensures
            is_completion(
                s,
                so_far,
                self.pairs_budget(level, unmarked(mask)),
                self.completions_by_pair(s, so_far, mask, level, n)[i],
            ),
        decreases unmarked(mask), 1nat, n,
    {
        if mask.len() != 4 || n == 0 || n > 4 {
        } else if mask[n - 1] {
            self.lemma_completions_by_pair_sound(s, so_far, mask, level, (n - 1) as nat, i);
        } else {
            let earlier = self.completions_by_pair(s, so_far, mask, level, (n - 1) as nat);
            if i < earlier.len() {
                self.lemma_completions_by_pair_sound(s, so_far, mask, level, (n - 1) as nat, i);
            } else {
                let wider = mask.update(n - 1, true);
                let depth = self.pair_depth(level);
                let found = search(s, depth, mask_goal(wider), NON_ROTATION_MOVES@);
                assert forall|k: int| 0 <= k < found.len() implies {
                    &&& (#[trigger] found[k]).1.len() <= depth
                    &&& all_legal(found[k].1, NON_ROTATION_MOVES@)
                    &&& found[k].0 == apply_moves(s, found[k].1)
                    &&& mask_complete(wider, found[k].0)
                } by {
                    lemma_search_sound(s, depth, mask_goal(wider), NON_ROTATION_MOVES@, k);
                }
                self.lemma_completions_after_sound(
                    found,
                    s,
                    depth,
                    so_far,
                    wider,
                    next_level(level),
                    found.len(),
                    i - earlier.len(),
                );
            }
        }
    }

    /// The ways that go on from results of a search are completions too:
    /// the moves of the result come first, then those of the pairs still open.
    pub proof fn lemma_completions_after_sound(
        &self,
        found: Seq<Outcome>,
        s: Facelets,
        depth: nat,
        so_far: Seq<CubeMove>,
        mask: Seq<bool>,
        level: nat,
        k: nat,
        i: int,
    )
        requires
            found_from(found, s, depth, mask),
            0 <= i < self.completions_after(found, so_far, mask, level, k).len(),
        ensures
            is_completion(
                s,
                so_far,
                depth + self.pairs_budget(level, unmarked(mask)),
                self.completions_after(found, so_far, mask, level, k)[i],
            ),
        decreases unmarked(mask), 3nat, k,
    {
        if k == 0 || k > found.len() {
        } else {
            let earlier = self.completions_after(found, so_far, mask, level, (k - 1) as nat);
            if i < earlier.len() {
                self.lemma_completions_after_sound(found, s, depth, so_far, mask, level, (k - 1) as nat, i);
            } else {
                let reached = found[k - 1].0;
                let moves = found[k - 1].1;
                let j = i - earlier.len();
                self.lemma_completions_sound(reached, so_far + moves, mask, level, j);
                let path = self.completions(reached, so_far + moves, mask, level)[j];
                let rest = path.skip((so_far + moves).len() as int);
                let tail = path.skip(so_far.len() as int);
                assert(path.take((so_far + moves).len() as int) == so_far + moves);
                assert(path.take(so_far.len() as int) =~= so_far) by {
                    assert forall|x: int| 0 <= x < so_far.len() implies path[x] == so_far[x] by {
                        assert(path.take((so_far + moves).len() as int)[x] == (so_far + moves)[x]);
                    }
                }
                assert(tail =~= moves + rest) by {
                    assert forall|x: int| 0 <= x < moves.len() implies tail[x] == moves[x] by {
                        assert(path.take((so_far + moves).len() as int)[so_far.len() + x] == (so_far
                            + moves)[so_far.len() + x]);
                    }
                }
                lemma_apply_moves_concat(s, moves, rest);
                assert forall|x: int| 0 <= x < tail.len() implies NON_ROTATION_MOVES@.contains(
                    #[trigger] tail[x],
                ) by {
                    if x < moves.len() {
                        assert(tail[x] == moves[x]);
                    } else {
                        assert(tail[x] == rest[x - moves.len()]);
                    }
                }
            }
        }
    }

    /// What the solver settles on is sound: the face turns it found are
    /// within the depths of the cross and the four pairs, and behind the
    /// rotations of their orientation they complete the first two layers.
    pub proof fn lemma_best_through_sound(&self, s: Facelets, n: nat)
        requires
            n <= 6,
        ensures
            self.best_through(s, n).0 matches Some(turns) ==> {
                &&& is_orientation_prefix(self.best_through(s, n).1)
                &&& turns.len() <= self.cross_depth() + self.pairs_budget(0, 4)
                &&& all_legal(turns, NON_ROTATION_MOVES@)
                &&& f2l_complete(apply_moves(apply_moves(s, self.best_through(s, n).1), turns))
            },
        decreases n,
    {
        if n > 0 {
            self.lemma_best_through_sound(s, (n - 1) as nat);
            let before = self.best_through(s, (n - 1) as nat);
            let paths = self.oriented_paths(s, n - 1);
            let after = shortest_from(before.0, paths);
            if improved(before.0, after) {
                lemma_shortest_from_member(before.0, paths);
                let turns = after->Some_0;
                let at = choose|at: int| 0 <= at < paths.len() && paths[at] == turns;
                let oriented = apply_moves(s, orientation_prefix(n - 1));
                let found = search(oriented, self.cross_depth(), cross_goal(), NON_ROTATION_MOVES@);
                assert forall|k: int| 0 <= k < found.len() implies {
                    &&& (#[trigger] found[k]).1.len() <= self.cross_depth()
                    &&& all_legal(found[k].1, NON_ROTATION_MOVES@)
                    &&& found[k].0 == apply_moves(oriented, found[k].1)
                    &&& mask_complete(no_pairs(), found[k].0)
                } by {
                    lemma_search_sound(oriented, self.cross_depth(), cross_goal(), NON_ROTATION_MOVES@, k);
                }
                self.lemma_completions_after_sound(
                    found,
                    oriented,
                    self.cross_depth(),
                    Seq::<CubeMove>::empty(),
                    no_pairs(),
                    0,
                    found.len(),
                    at,
                );
                assert(turns.skip(0) =~= turns);
                assert(unmarked(no_pairs()) == 4);
                assert(is_orientation_prefix(orientation_prefix(n - 1)));
            }
        }
    }

    /// Every sequence that `solve` returns completes the first two layers of
    /// the state it was asked about.  It is made of the rotations of one
    /// orientation and, behind them, face turns: no more of these than the
    /// depths of the cross and the four pairs add up to.
    pub proof fn lemma_solution_sound(&self, s: Facelets)
        ensures
            self.solution(s) matches Some(moves) ==> {
                &&& f2l_complete(apply_moves(s, moves))
                &&& self.best_through(s, 6).0 matches Some(turns)
                &&& moves == self.best_through(s, 6).1 + turns
                &&& is_orientation_prefix(self.best_through(s, 6).1)
                &&& all_legal(turns, NON_ROTATION_MOVES@)
                &&& turns.len() <= self.cross_depth() + self.pairs_budget(0, 4)
            },
            self.solution(s) is None <==> self.best_through(s, 6).0 is None,
    {
        self.lemma_best_through_sound(s, 6);
        if self.best_through(s, 6).0 is Some {
            lemma_apply_moves_concat(
                s,
                self.best_through(s, 6).1,
                self.best_through(s, 6).0->Some_0,
            );
        }
    }

    /// Where the first two layers are complete, `so_far` itself is among the
    /// completions: every pair that is open is found complete on the spot.
    pub proof fn lemma_completions_of_complete(
        &self,
        s: Facelets,
        so_far: Seq<CubeMove>,
        mask: Seq<bool>,
        level: nat,
    )
        requires
            mask.len() == 4,
            f2l_complete(s),
        ensures
            self.completions(s, so_far, mask, level).contains(so_far),
        decreases unmarked(mask),
    {
        let all = self.completions(s, so_far, mask, level);
        if all_marked(mask) {
            assert(all[0] == so_far);
        } else {
            let i: int = if !mask[0] {
                0
            } else if !mask[1] {
                1
            } else if !mask[2] {
                2
            } else {
                3
            };
            let wider = mask.update(i, true);
            let found = search(s, self.pair_depth(level), mask_goal(wider), NON_ROTATION_MOVES@);
            lemma_f2l_meets_masks(wider, s);
            assert(found_here(s, mask_goal(wider)) =~= seq![(s, Seq::<CubeMove>::empty())]);
            assert(found[0] == (s, Seq::<CubeMove>::empty()));
            assert(so_far + Seq::<CubeMove>::empty() =~= so_far);
            self.lemma_completions_of_complete(s, so_far, wider, next_level(level));
            let inner = self.completions(s, so_far, wider, next_level(level));
            let at = choose|at: int| 0 <= at < inner.len() && inner[at] == so_far;
            self.lemma_completions_after_includes(found, so_far, wider, next_level(level), found.len(), 0, at);
            self.lemma_completions_by_pair_includes(s, so_far, mask, level, 4, i, so_far);
        }
    }

    /// What goes on from result `j` is among what goes on from the first `k`
    /// results, for `j` below `k`.
    proof fn lemma_completions_after_includes(
        &self,
        found: Seq<Outcome>,
        so_far: Seq<CubeMove>,
        mask: Seq<bool>,
        level: nat,
        k: nat,
        j: int,
        at: int,
    )
        requires
            0 <= j < k <= found.len(),
            0 <= at < self.completions(found[j].0, so_far + found[j].1, mask, level).len(),
        ensures
            self.completions_after(found, so_far, mask, level, k).contains(
                self.completions(found[j].0, so_far + found[j].1, mask, level)[at],
            ),
        decreases k,
    {
        let all = self.completions_after(found, so_far, mask, level, k);
        let earlier = self.completions_after(found, so_far, mask, level, (k - 1) as nat);
        let last = self.completions(found[k - 1].0, so_far + found[k - 1].1, mask, level);
        assert(all == earlier + last);
        let target = self.completions(found[j].0, so_far + found[j].1, mask, level)[at];
        if j == k - 1 {
            assert(all[earlier.len() + at] == target);
        } else {
            self.lemma_completions_after_includes(found, so_far, mask, level, (k - 1) as nat, j, at);
            let x = choose|x: int| 0 <= x < earlier.len() && earlier[x] == target;
            assert(all[x] == target);
        }
    }

    /// What goes on from the search for an open pair `i` is among the
    /// completions by the first `n` pairs, for `i` below `n`.
    proof fn lemma_completions_by_pair_includes(
        &self,
        s: Facelets,
        so_far: Seq<CubeMove>,
        mask: Seq<bool>,
        level: nat,
        n: nat,
        i: int,
        target: Seq<CubeMove>,
    )
        requires
            mask.len() == 4,
            0 <= i < n <= 4,
            !mask[i],
            ({
                let found = search(
                    s,
                    self.pair_depth(level),
                    mask_goal(mask.update(i, true)),
                    NON_ROTATION_MOVES@,
                );
                self.completions_after(found, so_far, mask.update(i, true), next_level(level), found.len()).contains(
                    target,
                )
            }),
        ensures
            self.completions_by_pair(s, so_far, mask, level, n).contains(target),
        decreases n,
    {
        let all = self.completions_by_pair(s, so_far, mask, level, n);
        let earlier = self.completions_by_pair(s, so_far, mask, level, (n - 1) as nat);
        if i == n - 1 {
            let found = search(
                s,
                self.pair_depth(level),
                mask_goal(mask.update(i, true)),
                NON_ROTATION_MOVES@,
            );
            let last = self.completions_after(
                found,
                so_far,
                mask.update(i, true),
                next_level(level),
                found.len(),
            );
            assert(all == earlier + last);
            let x = choose|x: int| 0 <= x < last.len() && last[x] == target;
            assert(all[earlier.len() + x] == target);
        } else {
            self.lemma_completions_by_pair_includes(s, so_far, mask, level, (n - 1) as nat, i, target);
            let x = choose|x: int| 0 <= x < earlier.len() && earlier[x] == target;
            if mask[n - 1] {
                assert(all == earlier);
            } else {
                assert(all[x] == target);
            }
        }
    }

    /// Whatever solves the cross within the cross depth and leaves the first
    /// two layers complete is among the sequences that the solver comes to
    /// in the orientation.
    pub proof fn lemma_oriented_paths_include(&self, s: Facelets, o: int, moves: Seq<CubeMove>)
        requires
            moves.len() <= self.cross_depth(),
            all_legal(moves, NON_ROTATION_MOVES@),
            f2l_complete(apply_moves(apply_moves(s, orientation_prefix(o)), moves)),
        ensures
            self.oriented_paths(s, o).contains(moves),
    {
        let oriented = apply_moves(s, orientation_prefix(o));
        let reached = apply_moves(oriented, moves);
        let found = search(oriented, self.cross_depth(), cross_goal(), NON_ROTATION_MOVES@);
        lemma_stages_nest(reached);
        lemma_search_complete(oriented, self.cross_depth(), cross_goal(), NON_ROTATION_MOVES@, moves);
        let j = choose|j: int| 0 <= j < found.len() && found[j] == (reached, moves);
        assert(Seq::<CubeMove>::empty() + moves =~= moves);
        self.lemma_completions_of_complete(reached, moves, no_pairs(), 0);
        let inner = self.completions(reached, moves, no_pairs(), 0);
        let at = choose|at: int| 0 <= at < inner.len() && inner[at] == moves;
        self.lemma_completions_after_includes(
            found,
            Seq::<CubeMove>::empty(),
            no_pairs(),
            0,
            found.len(),
            j,
            at,
        );
    }

    /// Once something is found, something stays found.
    proof fn lemma_best_through_stays(&self, s: Facelets, from: nat, to: nat)
        requires
            from <= to,
            self.best_through(s, from).0 is Some,
        ensures
            self.best_through(s, to).0 is Some,
            self.best_through(s, to).0->Some_0.len() <= self.best_through(s, from).0->Some_0.len(),
        decreases to - from,
    {
        if from < to {
            self.lemma_best_through_stays(s, from, (to - 1) as nat);
            let before = self.best_through(s, (to - 1) as nat);
            lemma_shortest_from_member(before.0, self.oriented_paths(s, to - 1));
            lemma_shortest_from_improves(before.0, self.oriented_paths(s, to - 1));
        }
    }

    /// Where the first two layers are complete already, `solve` returns the
    /// empty sequence: nothing is to be done, in the first orientation.
    pub proof fn lemma_complete_needs_no_move(&self, s: Facelets)
        requires
            f2l_complete(s),
        ensures
            self.solution(s) == Some(Seq::<CubeMove>::empty()),
    {
        let none = Seq::<CubeMove>::empty();
        assert(orientation_prefix(0) == none);
        assert(apply_moves(s, none) == s);
        assert(all_legal(none, NON_ROTATION_MOVES@));
        self.lemma_oriented_paths_include(s, 0, none);
        let paths = self.oriented_paths(s, 0);
        let at = choose|at: int| 0 <= at < paths.len() && paths[at] == none;
        lemma_shortest_from_least(None, paths, at);
        assert(self.best_through(s, 0).0 is None);
        let first = self.best_through(s, 1);
        assert(first.0 is Some && first.0->Some_0.len() == 0);
        assert(first.0->Some_0 =~= none);
        assert(first.1 == none);
        self.lemma_best_through_unbeaten(s, 1, 6);
        assert(none + none =~= none);
    }

    /// A sequence of no moves is never replaced: nothing is shorter.
    proof fn lemma_best_through_unbeaten(&self, s: Facelets, from: nat, to: nat)
        requires
            from <= to,
            self.best_through(s, from).0 == Some(Seq::<CubeMove>::empty()),
        ensures
            self.best_through(s, to) == self.best_through(s, from),
        decreases to - from,
    {
        if from < to {
            self.lemma_best_through_unbeaten(s, from, (to - 1) as nat);
            let paths = self.oriented_paths(s, to - 1);
            assert(none_shorter(paths, 0));
            lemma_shortest_from_longer(Seq::<CubeMove>::empty(), paths);
        }
    }

    /// A solved cube needs no move: `solve` returns the empty sequence.
    pub proof fn lemma_solved_needs_no_move(&self, s: Facelets)
        requires
            is_solved(s),
        ensures
            self.solution(s) == Some(Seq::<CubeMove>::empty()),
    {
        lemma_stages_nest(s);
        self.lemma_complete_needs_no_move(s);
    }

    /// A solved cube after one face turn is solved again by `solve`, if the
    /// depth for the cross is one or more: a sequence comes back, it
    /// completes the first two layers, and it has one face turn at most,
    /// which is within what the depths of the cross and the pairs add up to.
    pub proof fn lemma_one_turn_is_solved(&self, turn: CubeMove)
        requires
            is_face_turn(turn),
            self.cross_depth() >= 1,
        ensures
            self.solution(apply_move(solved_facelets(), turn)) matches Some(moves) && {
                &&& f2l_complete(apply_moves(apply_move(solved_facelets(), turn), moves))
                &&& self.best_through(apply_move(solved_facelets(), turn), 6).0 matches Some(turns)
                &&& moves == self.best_through(apply_move(solved_facelets(), turn), 6).1 + turns
                &&& turns.len() <= 1
                &&& turns.len() <= self.cross_depth() + self.pairs_budget(0, 4)
            },
    {
        let solved = solved_facelets();
        let s = apply_move(solved, turn);
        let back = seq![invert(turn)];
        let none = Seq::<CubeMove>::empty();
        assert(well_formed(solved));
        lemma_move_then_inverse(solved, turn);
        lemma_apply_moves_single(s, invert(turn));
        assert(orientation_prefix(0) == none);
        assert(apply_moves(s, none) == s);
        assert(is_solved(solved)) by {
            assert forall|f: int, p: int| 0 <= f < 6 && 0 <= p < 9 implies #[trigger] matches_center(
                solved,
                f,
                p,
            ) by {}
        }
        lemma_stages_nest(solved);
        assert(NON_ROTATION_MOVES@.contains(invert(turn))) by {
            let k = choose|k: int| 0 <= k < 18 && NON_ROTATION_MOVES@[k] == invert(turn);
        }
        self.lemma_oriented_paths_include(s, 0, back);
        let paths = self.oriented_paths(s, 0);
        let at = choose|at: int| 0 <= at < paths.len() && paths[at] == back;
        lemma_shortest_from_least(None, paths, at);
        assert(self.best_through(s, 0).0 is None);
        assert(self.best_through(s, 1).0 is Some);
        self.lemma_best_through_stays(s, 1, 6);
        self.lemma_solution_sound(s);
    }
}

} // verus!
