//! A solver that explores the CFOP stages by exhaustive search: the cross on
//! each of six orientations, then the four pairs of the first two layers in
//! every order, keeping the shortest sequence it finds.

use vstd::prelude::*;
use crate::cube::moves::{CubeMove, NON_ROTATION_MOVES};
use crate::cube::sequence::{apply_moves, joined_moves, moves_to_vec};
use crate::cube::state::{CubeState, Facelets};
use super::Solver;
use super::util::cross::{cross_goal, enumerate_cross_solutions};
use super::util::enumerate::{Outcome, decides, enumerate_states_with_criteria, outcomes, search};
use super::util::f2l::{F2LPair, make_criterion, mask_goal, pair_at, pair_complete};

verus! {

/// The exploration solver: how deep it searches for the cross and for each of
/// the four pairs, in the order in which they are solved.
pub struct CfopExplorationSolver {
    cross_max_depth: usize,
    first_f2l_pair_max_depth: usize,
    second_f2l_pair_max_depth: usize,
    third_f2l_pair_max_depth: usize,
    fourth_f2l_pair_max_depth: usize,
}

/// All four pairs are marked.
pub open spec fn all_marked(mask: Seq<bool>) -> bool {
    mask[0] && mask[1] && mask[2] && mask[3]
}

/// How many of the four pairs are not marked.
pub open spec fn unmarked(mask: Seq<bool>) -> nat {
    let a: nat = if mask[0] { 0 } else { 1 };
    let b: nat = if mask[1] { 0 } else { 1 };
    let c: nat = if mask[2] { 0 } else { 1 };
    let d: nat = if mask[3] { 0 } else { 1 };
    a + b + c + d
}

/// The mask that marks no pair.
pub open spec fn no_pairs() -> Seq<bool> {
    seq![false, false, false, false]
}

/// The level of the search for the pair after the one at `level`.  From the
/// fourth pair on the level stays: all later pairs share one depth.
pub open spec fn next_level(level: nat) -> nat {
    if level < 3 {
        level + 1
    } else {
        3
    }
}

/// The shorter of the best sequence so far and a new one; on a tie the
/// earlier one stays.
pub open spec fn shorter_of(best: Option<Seq<CubeMove>>, path: Seq<CubeMove>) -> Option<
    Seq<CubeMove>,
> {
    match best {
        None => Some(path),
        Some(b) => if path.len() < b.len() {
            Some(path)
        } else {
            best
        },
    }
}

/// The first shortest sequence among `best`, if there is one, followed by
/// `paths` in their order.
pub open spec fn shortest_from(best: Option<Seq<CubeMove>>, paths: Seq<Seq<CubeMove>>) -> Option<
    Seq<CubeMove>,
>
    decreases paths.len(),
{
    if paths.len() == 0 {
        best
    } else {
        shorter_of(shortest_from(best, paths.drop_last()), paths.last())
    }
}

/// The model of the best sequence that a search holds.
pub open spec fn best_model(best: Option<Vec<CubeMove>>) -> Option<Seq<CubeMove>> {
    match best {
        None => None,
        Some(moves) => Some(moves@),
    }
}

/// The six ways to hold the cube that the solver tries, each as the
/// whole-cube rotations that bring the cube there.
pub open spec fn orientation_prefix(o: int) -> Seq<CubeMove>
    recommends
        0 <= o < 6,
{
    if o == 0 {
        Seq::<CubeMove>::empty()
    } else if o == 1 {
        seq![CubeMove::X]
    } else if o == 2 {
        seq![CubeMove::X, CubeMove::X]
    } else if o == 3 {
        seq![CubeMove::XPrime]
    } else if o == 4 {
        seq![CubeMove::Y]
    } else {
        seq![CubeMove::YPrime]
    }
}

/// Whether the search found something better in going from `before` to
/// `after`.
pub open spec fn improved(before: Option<Seq<CubeMove>>, after: Option<Seq<CubeMove>>) -> bool {
    match after {
        None => false,
        Some(a) => match before {
            None => true,
            Some(b) => a.len() < b.len(),
        },
    }
}

impl CfopExplorationSolver {
    /// The depth of the search for the cross.
    pub closed spec fn cross_depth(&self) -> nat {
        self.cross_max_depth as nat
    }

    /// The depth of the search for the pair that is solved at `level`: the
    /// first pair at level 0, the fourth and any later at level 3 and above.
    pub closed spec fn pair_depth(&self, level: nat) -> nat {
        if level == 0 {
            self.first_f2l_pair_max_depth as nat
        } else if level == 1 {
            self.second_f2l_pair_max_depth as nat
        } else if level == 2 {
            self.third_f2l_pair_max_depth as nat
        } else {
            self.fourth_f2l_pair_max_depth as nat
        }
    }

    /// Every way to complete the first two layers from `s`, where the pairs
    /// that `mask` marks are complete already and `so_far` led to `s`: the
    /// whole sequences, in the order in which the search comes to them.
    ///
    /// With all pairs marked that is `so_far` alone.  Else each unmarked pair
    /// is taken in turn; for each result of the bounded search that completes
    /// it and keeps the marked pairs, the ways to go on from there follow.
    pub open spec fn completions(
        &self,
        s: Facelets,
        so_far: Seq<CubeMove>,
        mask: Seq<bool>,
        level: nat,
    ) -> Seq<Seq<CubeMove>>
        decreases unmarked(mask), 2nat, 0nat,
    {
        if mask.len() != 4 {
            Seq::<Seq<CubeMove>>::empty()
        } else if all_marked(mask) {
            seq![so_far]
        } else {
            self.completions_by_pair(s, so_far, mask, level, 4)
        }
    }

    /// The part of `completions` that begins with one of the first `n` pairs.
    pub open spec fn completions_by_pair(
        &self,
        s: Facelets,
        so_far: Seq<CubeMove>,
        mask: Seq<bool>,
        level: nat,
        n: nat,
    ) -> Seq<Seq<CubeMove>>
        decreases unmarked(mask), 1nat, n,
    {
        if mask.len() != 4 || n == 0 || n > 4 {
            Seq::<Seq<CubeMove>>::empty()
        } else if mask[n - 1] {
            self.completions_by_pair(s, so_far, mask, level, (n - 1) as nat)
        } else {
            let found = search(
                s,
                self.pair_depth(level),
                mask_goal(mask.update(n - 1, true)),
                NON_ROTATION_MOVES@,
            );
            self.completions_by_pair(s, so_far, mask, level, (n - 1) as nat)
                + self.completions_after(
                found,
                so_far,
                mask.update(n - 1, true),
                next_level(level),
                found.len(),
            )
        }
    }

    /// The completions that go on from one of the first `k` results in
    /// `found`, each result reached by `so_far` and then its own moves.
    pub open spec fn completions_after(
        &self,
        found: Seq<Outcome>,
        so_far: Seq<CubeMove>,
        mask: Seq<bool>,
        level: nat,
        k: nat,
    ) -> Seq<Seq<CubeMove>>
        decreases unmarked(mask), 3nat, k,
    {
        if k == 0 || k > found.len() {
            Seq::<Seq<CubeMove>>::empty()
        } else {
            self.completions_after(found, so_far, mask, level, (k - 1) as nat) + self.completions(
                found[k - 1].0,
                so_far + found[k - 1].1,
                mask,
                level,
            )
        }
    }

    /// Every sequence of face turns that the solver comes to with the cube
    /// held in orientation `o`: a solution of the cross, then the pairs.  The
    /// rotations that bring the cube into the orientation are not part of it.
    pub open spec fn oriented_paths(&self, s: Facelets, o: int) -> Seq<Seq<CubeMove>> {
        let found = search(
            apply_moves(s, orientation_prefix(o)),
            self.cross_depth(),
            cross_goal(),
            NON_ROTATION_MOVES@,
        );
        self.completions_after(found, Seq::<CubeMove>::empty(), no_pairs(), 0, found.len())
    }

    /// The state of the solve after the first `n` orientations: the first
    /// shortest sequence of face turns found in them, and the orientation
    /// prefix it belongs to.
    pub open spec fn best_through(&self, s: Facelets, n: nat) -> (Option<Seq<CubeMove>>, Seq<CubeMove>)
        decreases n,
    {
        if n == 0 {
            (None, Seq::<CubeMove>::empty())
        } else {
            let before = self.best_through(s, (n - 1) as nat);
            let after = shortest_from(before.0, self.oriented_paths(s, n - 1));
            if improved(before.0, after) {
                (after, orientation_prefix(n - 1))
            } else {
                before
            }
        }
    }

    /// What `solve` returns for `s`: of all the sequences that the solver
    /// comes to in its six orientations, the first among those with the
    /// fewest face turns, behind the rotations of its orientation; nothing
    /// where there is no such sequence.
    pub open spec fn solution(&self, s: Facelets) -> Option<Seq<CubeMove>> {
        let best = self.best_through(s, 6);
        match best.0 {
            None => None,
            Some(turns) => Some(best.1 + turns),
        }
    }

    /// A solver with the usual depths: eight moves for the cross and five
    /// for each pair.
    pub fn new() -> (solver: Self)
        ensures
            solver.cross_depth() == 8,
            forall|level: nat| #[trigger] solver.pair_depth(level) == 5,
    {
        CfopExplorationSolver {
            cross_max_depth: 8,
            first_f2l_pair_max_depth: 5,
            second_f2l_pair_max_depth: 5,
            third_f2l_pair_max_depth: 5,
            fourth_f2l_pair_max_depth: 5,
        }
    }

    /// A solver with depths of the caller's choice, for the cross and for the
    /// first, second, third and fourth pair.
    pub fn with_depths(cross: usize, first: usize, second: usize, third: usize, fourth: usize) -> (solver: Self)
        ensures
            solver.cross_depth() == cross,
            solver.pair_depth(0) == first,
            solver.pair_depth(1) == second,
            solver.pair_depth(2) == third,
            forall|level: nat| level >= 3 ==> #[trigger] solver.pair_depth(level) == fourth,
    {
        CfopExplorationSolver {
            cross_max_depth: cross,
            first_f2l_pair_max_depth: first,
            second_f2l_pair_max_depth: second,
            third_f2l_pair_max_depth: third,
            fourth_f2l_pair_max_depth: fourth,
        }
    }

    /// The pair that an index names.
    pub fn pair_index_to_enum(idx: usize) -> (pair: F2LPair)
        requires
            idx < 4,
        ensures
            pair == pair_at(idx as int),
    {
        if idx == 0 {
            F2LPair::FrontRight
        } else if idx == 1 {
            F2LPair::FrontLeft
        } else if idx == 2 {
            F2LPair::BackRight
        } else {
            F2LPair::BackLeft
        }
    }

    /// Whether `pair` is complete in `state`.
    pub fn is_pair_solved(state: &CubeState, pair: &F2LPair) -> (done: bool)
        ensures
            done == pair_complete(state@, *pair),
    {
        match pair {
            F2LPair::FrontRight => state.front_right_f2l_pair_solved(),
            F2LPair::FrontLeft => state.front_left_f2l_pair_solved(),
            F2LPair::BackRight => state.back_right_f2l_pair_solved(),
            F2LPair::BackLeft => state.back_left_f2l_pair_solved(),
        }
    }

    /// The test for "cross complete, and every pair that `mask` marks
    /// complete".  The mask has to mark a pair.
    pub fn make_criterion(mask: [bool; 4]) -> (criterion: impl Fn(&CubeState) -> bool)
        requires
            mask[0] || mask[1] || mask[2] || mask[3],
        ensures
            forall|s: &CubeState| call_requires(criterion, (s,)),
            decides(criterion, mask_goal(mask@)),
    {
        make_criterion(mask)
    }

    /// Every sequence of at most `max_depth` face turns that completes pair
    /// `target_pair` and leaves the cross and the pairs of `pairs_solved`
    /// complete.
    pub fn solve_one_pair(
        &self,
        state: &CubeState,
        pairs_solved: &[bool; 4],
        target_pair: usize,
        max_depth: usize,
    ) -> (results: Vec<(CubeState, Vec<CubeMove>)>)
        requires
            target_pair < 4,
        ensures
            outcomes(results@) == search(
                state@,
                max_depth as nat,
                mask_goal(pairs_solved@.update(target_pair as int, true)),
                NON_ROTATION_MOVES@,
            ),
    {
        let mut mask = *pairs_solved;
        mask[target_pair] = true;
        assert(mask@ =~= pairs_solved@.update(target_pair as int, true));
        let criterion = Self::make_criterion(mask);
        let legal_moves = NON_ROTATION_MOVES;
        enumerate_states_with_criteria(*state, max_depth, criterion, &legal_moves)
    }
}

/// The first shortest sequence can be looked for in one list after another.
pub proof fn lemma_shortest_from_concat(
    best: Option<Seq<CubeMove>>,
    first: Seq<Seq<CubeMove>>,
    second: Seq<Seq<CubeMove>>,
)
    ensures
        shortest_from(best, first + second) == shortest_from(shortest_from(best, first), second),
    decreases second.len(),
{
    if second.len() == 0 {
        assert(first + second =~= first);
    } else {
        assert((first + second).drop_last() =~= first + second.drop_last());
        lemma_shortest_from_concat(best, first, second.drop_last());
    }
}

/// Looking through a list either leaves the best sequence as it was or
/// replaces it by a shorter one.
pub proof fn lemma_shortest_from_improves(best: Option<Seq<CubeMove>>, paths: Seq<Seq<CubeMove>>)
    ensures
        shortest_from(best, paths) == best || improved(best, shortest_from(best, paths)),
    decreases paths.len(),
{
    if paths.len() > 0 {
        lemma_shortest_from_improves(best, paths.drop_last());
    }
}

/// No sequence in `paths` has fewer than `n` moves.
pub open spec fn none_shorter(paths: Seq<Seq<CubeMove>>, n: nat) -> bool {
    forall|i: int| 0 <= i < paths.len() ==> (#[trigger] paths[i]).len() >= n
}

/// A list whose sequences are all at least as long as the best so far
/// changes nothing.
pub proof fn lemma_shortest_from_longer(best: Seq<CubeMove>, paths: Seq<Seq<CubeMove>>)
    requires
        none_shorter(paths, best.len()),
    ensures
        shortest_from(Some(best), paths) == Some(best),
    decreases paths.len(),
{
    if paths.len() > 0 {
        assert forall|i: int| 0 <= i < paths.drop_last().len() implies (
        #[trigger] paths.drop_last()[i]).len() >= best.len() by {
            assert(paths.drop_last()[i] == paths[i]);
        }
        lemma_shortest_from_longer(best, paths.drop_last());
    }
}

impl CfopExplorationSolver {
    /// Every completion begins with the moves that led to its start, so none
    /// is shorter than they are.
    pub proof fn lemma_completions_extend(
        &self,
        s: Facelets,
        so_far: Seq<CubeMove>,
        mask: Seq<bool>,
        level: nat,
    )
        ensures
            none_shorter(self.completions(s, so_far, mask, level), so_far.len()),
        decreases unmarked(mask), 2nat, 0nat,
    {
        if mask.len() == 4 && !all_marked(mask) {
            self.lemma_completions_by_pair_extend(s, so_far, mask, level, 4);
        }
    }

    proof fn lemma_completions_by_pair_extend(
        &self,
        s: Facelets,
        so_far: Seq<CubeMove>,
        mask: Seq<bool>,
        level: nat,
        n: nat,
    )
        ensures
            none_shorter(self.completions_by_pair(s, so_far, mask, level, n), so_far.len()),
        decreases unmarked(mask), 1nat, n,
    {
        if mask.len() != 4 || n == 0 || n > 4 {
        } else if mask[n - 1] {
            self.lemma_completions_by_pair_extend(s, so_far, mask, level, (n - 1) as nat);
        } else {
            let found = search(
                s,
                self.pair_depth(level),
                mask_goal(mask.update(n - 1, true)),
                NON_ROTATION_MOVES@,
            );
            self.lemma_completions_by_pair_extend(s, so_far, mask, level, (n - 1) as nat);
            self.lemma_completions_after_extend(
                found,
                so_far,
                mask.update(n - 1, true),
                next_level(level),
                found.len(),
            );
        }
    }

    proof fn lemma_completions_after_extend(
        &self,
        found: Seq<Outcome>,
        so_far: Seq<CubeMove>,
        mask: Seq<bool>,
        level: nat,
        k: nat,
    )
        ensures
            none_shorter(self.completions_after(found, so_far, mask, level, k), so_far.len()),
        decreases unmarked(mask), 3nat, k,
    {
        if k == 0 || k > found.len() {
        } else {
            self.lemma_completions_after_extend(found, so_far, mask, level, (k - 1) as nat);
            self.lemma_completions_extend(found[k - 1].0, so_far + found[k - 1].1, mask, level);
            let rest = self.completions(found[k - 1].0, so_far + found[k - 1].1, mask, level);
            assert(none_shorter(rest, so_far.len())) by {
                assert forall|i: int| 0 <= i < rest.len() implies (#[trigger] rest[i]).len()
                    >= so_far.len() by {
                    assert(rest[i].len() >= (so_far + found[k - 1].1).len());
                }
            }
        }
    }

    /// Whether `moves_so_far` is shorter than the best sequence so far.
    fn improves(moves_so_far: &[CubeMove], best: &Option<Vec<CubeMove>>) -> (better: bool)
        ensures
            better == (shorter_of(best_model(*best), moves_so_far@) == Some(moves_so_far@)
                && best_model(*best) != Some(moves_so_far@)),
    {
        match best {
            None => true,
            Some(moves) => moves_so_far.len() < moves.len(),
        }
    }

    /// Walks through every order in which the pairs that are still open can
    /// be completed from `state`, and keeps in `best` the first shortest whole
    /// sequence among the one it holds and those it comes to.
    ///
    /// `moves_so_far` led to `state`, `pairs_solved` marks the pairs that are
    /// complete there, and `depth` selects the search depth for the next pair.
    /// A branch that is already as long as the best is given up: nothing it
    /// leads to could be shorter.
    pub fn dfs_f2l_orderings(
        &self,
        state: &CubeState,
        moves_so_far: &[CubeMove],
        pairs_solved: &[bool; 4],
        depth: usize,
        best: &mut Option<Vec<CubeMove>>,
    )
        ensures
            best_model(*final(best)) == shortest_from(
                best_model(*old(best)),
                self.completions(state@, moves_so_far@, pairs_solved@, depth as nat),
            ),
        decreases unmarked(pairs_solved@),
    {
        let ghost start = best_model(*best);
        let ghost all = self.completions(state@, moves_so_far@, pairs_solved@, depth as nat);
        if pairs_solved[0] && pairs_solved[1] && pairs_solved[2] && pairs_solved[3] {
            proof {
                assert(all =~= seq![moves_so_far@]);
                assert(all.drop_last() =~= Seq::<Seq<CubeMove>>::empty());
                assert(shortest_from(start, all) == shorter_of(start, moves_so_far@)) by {
                    reveal_with_fuel(shortest_from, 2);
                }
            }
            if Self::improves(moves_so_far, best) {
                *best = Some(moves_to_vec(moves_so_far));
            }
            return;
        }
        let prune = match best {
            Some(moves) => moves_so_far.len() >= moves.len(),
            None => false,
        };
        if prune {
            proof {
                self.lemma_completions_extend(state@, moves_so_far@, pairs_solved@, depth as nat);
                lemma_shortest_from_longer(start->Some_0, all);
            }
            return;
        }
        let max_depth = if depth == 0 {
            self.first_f2l_pair_max_depth
        } else if depth == 1 {
            self.second_f2l_pair_max_depth
        } else if depth == 2 {
            self.third_f2l_pair_max_depth
        } else {
            self.fourth_f2l_pair_max_depth
        };
        let next_depth: usize = if depth < 3 { depth + 1 } else { 3 };
        let mut pair_idx: usize = 0;
        while pair_idx < 4
            invariant
                pair_idx <= 4,
                !all_marked(pairs_solved@),
                max_depth == self.pair_depth(depth as nat),
                next_depth == next_level(depth as nat),
                best_model(*best) == shortest_from(
                    start,
                    self.completions_by_pair(
                        state@,
                        moves_so_far@,
                        pairs_solved@,
                        depth as nat,
                        pair_idx as nat,
                    ),
                ),
            decreases 4 - pair_idx,
        {
            let ghost earlier = self.completions_by_pair(
                state@,
                moves_so_far@,
                pairs_solved@,
                depth as nat,
                pair_idx as nat,
            );
            if !pairs_solved[pair_idx] {
                let solutions = self.solve_one_pair(state, pairs_solved, pair_idx, max_depth);
                let mut new_pairs_solved = *pairs_solved;
                new_pairs_solved[pair_idx] = true;
                assert(new_pairs_solved@ =~= pairs_solved@.update(pair_idx as int, true));
                let ghost found = outcomes(solutions@);
                let ghost at_pair = best_model(*best);
                let mut k: usize = 0;
                while k < solutions.len()
                    invariant
                        k <= solutions.len(),
                        found == outcomes(solutions@),
                        unmarked(new_pairs_solved@) < unmarked(pairs_solved@),
                        best_model(*best) == shortest_from(
                            at_pair,
                            self.completions_after(
                                found,
                                moves_so_far@,
                                new_pairs_solved@,
                                next_depth as nat,
                                k as nat,
                            ),
                        ),
                    decreases solutions.len() - k,
                {
                    let new_moves = joined_moves(moves_so_far, solutions[k].1.as_slice());
                    let ghost before = self.completions_after(
                        found,
                        moves_so_far@,
                        new_pairs_solved@,
                        next_depth as nat,
                        k as nat,
                    );
                    let ghost step = self.completions(
                        found[k as int].0,
                        moves_so_far@ + found[k as int].1,
                        new_pairs_solved@,
                        next_depth as nat,
                    );
                    self.dfs_f2l_orderings(
                        &solutions[k].0,
                        new_moves.as_slice(),
                        &new_pairs_solved,
                        next_depth,
                        best,
                    );
                    proof {
                        lemma_shortest_from_concat(at_pair, before, step);
                    }
                    k += 1;
                }
                proof {
                    lemma_shortest_from_concat(
                        start,
                        earlier,
                        self.completions_after(
                            found,
                            moves_so_far@,
                            new_pairs_solved@,
                            next_depth as nat,
                            found.len(),
                        ),
                    );
                }
            }
            pair_idx += 1;
        }
    }
}

/// The rotations that bring the cube into orientation `o`.
fn orientation_moves(o: usize) -> (prefix: Vec<CubeMove>)
    requires
        o < 6,
    ensures
        prefix@ == orientation_prefix(o as int),
{
    let mut prefix: Vec<CubeMove> = Vec::new();
    if o == 1 {
        prefix.push(CubeMove::X);
    } else if o == 2 {
        prefix.push(CubeMove::X);
        prefix.push(CubeMove::X);
    } else if o == 3 {
        prefix.push(CubeMove::XPrime);
    } else if o == 4 {
        prefix.push(CubeMove::Y);
    } else if o == 5 {
        prefix.push(CubeMove::YPrime);
    }
    assert(prefix@ =~= orientation_prefix(o as int));
    prefix
}

impl CfopExplorationSolver {
    /// Tries one orientation: every solution of the cross from `state` held
    /// that way, and every order of the pairs after each.  `best` keeps the
    /// first shortest sequence of face turns among the one it holds and those
    /// found here.
    fn explore_orientation(&self, state: &CubeState, o: usize, best: &mut Option<Vec<CubeMove>>)
        requires
            o < 6,
        ensures
            best_model(*final(best)) == shortest_from(
                best_model(*old(best)),
                self.oriented_paths(state@, o as int),
            ),
    {
        let prefix = orientation_moves(o);
        let mut state_after_orientation = *state;
        state_after_orientation.execute_moves(prefix.as_slice());
        let cross_solutions = enumerate_cross_solutions(
            &state_after_orientation,
            self.cross_max_depth,
        );
        let ghost found = outcomes(cross_solutions@);
        let ghost before = best_model(*best);
        let no_pairs_solved: [bool; 4] = [false, false, false, false];
        assert(no_pairs_solved@ =~= no_pairs());
        let mut k: usize = 0;
        while k < cross_solutions.len()
            invariant
                k <= cross_solutions.len(),
                found == outcomes(cross_solutions@),
                no_pairs_solved@ == no_pairs(),
                best_model(*best) == shortest_from(
                    before,
                    self.completions_after(found, Seq::<CubeMove>::empty(), no_pairs(), 0, k as nat),
                ),
            decreases cross_solutions.len() - k,
        {
            let ghost earlier = self.completions_after(
                found,
                Seq::<CubeMove>::empty(),
                no_pairs(),
                0,
                k as nat,
            );
            let ghost step = self.completions(found[k as int].0, found[k as int].1, no_pairs(), 0);
            self.dfs_f2l_orderings(
                &cross_solutions[k].0,
                cross_solutions[k].1.as_slice(),
                &no_pairs_solved,
                0,
                best,
            );
            proof {
                assert(Seq::<CubeMove>::empty() + found[k as int].1 =~= found[k as int].1);
                lemma_shortest_from_concat(before, earlier, step);
            }
            k += 1;
        }
    }

    /// Whether `after` holds a shorter sequence than was held before, of
    /// which `was_found` and `length_before` tell.
    fn is_improvement(was_found: bool, length_before: usize, after: &Option<Vec<CubeMove>>) -> (better: bool)
        ensures
            better == match after {
                Some(moves) => !was_found || moves@.len() < length_before,
                None => false,
            },
    {
        match after {
            Some(moves) => !was_found || moves.len() < length_before,
            None => false,
        }
    }
}

impl Solver for CfopExplorationSolver {
    /// Looks for the shortest way to complete the first two layers of
    /// `state`.
    ///
    /// Each of the six orientations is tried in turn: every solution of the
    /// cross within the cross depth, and from each of them every order of the
    /// four pairs, each pair within the depth of its level.  Of all the
    /// sequences this comes to, the result is the first with the fewest face
    /// turns, the rotations of its orientation in front and not counted.
    /// There is no result where the depths allow no such sequence.
    fn solve(&self, state: &CubeState) -> (found: Option<Vec<CubeMove>>)
        ensures
            best_model(found) == self.solution(state@),
    {
        let mut best: Option<Vec<CubeMove>> = None;
        let mut best_prefix: Vec<CubeMove> = Vec::new();
        let mut o: usize = 0;
        while o < 6
            invariant
                o <= 6,
                (best_model(best), best_prefix@) == self.best_through(state@, o as nat),
            decreases 6 - o,
        {
            let ghost before = best_model(best);
            let was_found = best.is_some();
            let length_before: usize = match &best {
                Some(moves) => moves.len(),
                None => 0,
            };
            let ghost through = self.best_through(state@, o as nat);
            self.explore_orientation(state, o, &mut best);
            let better = Self::is_improvement(was_found, length_before, &best);
            proof {
                let after = shortest_from(through.0, self.oriented_paths(state@, o as int));
                lemma_shortest_from_improves(before, self.oriented_paths(state@, o as int));
                assert(through.0 == before);
                assert(best_model(best) == after);
                assert(better == improved(before, after));
                assert(self.best_through(state@, (o + 1) as nat) == if improved(through.0, after) {
                    (after, orientation_prefix(o as int))
                } else {
                    through
                });
            }
            if better {
                best_prefix = orientation_moves(o);
            }
            o += 1;
        }
        match best {
            Some(turns) => Some(joined_moves(best_prefix.as_slice(), turns.as_slice())),
            None => None,
        }
    }
}

} // verus!
