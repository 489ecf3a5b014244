//! The bounded search: every sequence of legal moves, up to a given length,
//! that leads from a state to one that meets a goal.

use vstd::prelude::*;
use crate::cube::moves::{CubeMove, apply_move};
use crate::cube::sequence::apply_moves;
use crate::cube::state::{CubeState, Facelets};

verus! {

/// The model of a search result: the state that was reached and the moves
/// that lead to it from the start.
pub type Outcome = (Facelets, Seq<CubeMove>);

/// The result for the start itself: the empty sequence, if the start meets
/// the goal.
pub open spec fn found_here(s: Facelets, goal: spec_fn(Facelets) -> bool) -> Seq<Outcome> {
    if goal(s) {
        seq![(s, Seq::<CubeMove>::empty())]
    } else {
        Seq::<Outcome>::empty()
    }
}

/// The results of a search that started after move `m`, as results of the
/// search before it: `m` comes in front of each sequence.
pub open spec fn after_move(m: CubeMove, found: Seq<Outcome>) -> Seq<Outcome> {
    Seq::new(found.len(), |i: int| (found[i].0, seq![m] + found[i].1))
}

/// All the results of a search from `s` over at most `depth` moves, in the
/// order of a depth-first walk: first the start itself if it meets the goal,
/// then, for each legal move in turn, the results of the search from the state
/// after that move over one move fewer.  A state that is reached along several
/// sequences is reported once for each.
pub open spec fn search(
    s: Facelets,
    depth: nat,
    goal: spec_fn(Facelets) -> bool,
    legal: Seq<CubeMove>,
) -> Seq<Outcome>
    decreases depth, legal.len() + 1,
{
    found_here(s, goal) + search_below(s, depth, goal, legal, legal.len())
}

/// The results of `search` that begin with one of the first `n` legal moves.
pub open spec fn search_below(
    s: Facelets,
    depth: nat,
    goal: spec_fn(Facelets) -> bool,
    legal: Seq<CubeMove>,
    n: nat,
) -> Seq<Outcome>
    decreases depth, n,
{
    if depth == 0 || n == 0 || n > legal.len() {
        Seq::<Outcome>::empty()
    } else {
        search_below(s, depth, goal, legal, (n - 1) as nat) + after_move(
            legal[n - 1],
            search(apply_move(s, legal[n - 1]), (depth - 1) as nat, goal, legal),
        )
    }
}

/// The models of a list of results.
pub open spec fn outcomes(results: Seq<(CubeState, Vec<CubeMove>)>) -> Seq<Outcome> {
    Seq::new(results.len(), |i: int| (results[i].0@, results[i].1@))
}

/// `criterion` computes `goal`: whenever it returns, it returns what `goal`
/// says of the state it was given.
pub open spec fn decides<F: Fn(&CubeState) -> bool>(
    criterion: F,
    goal: spec_fn(Facelets) -> bool,
) -> bool {
    forall|s: &CubeState, b: bool| call_ensures(criterion, (s,), b) ==> b == goal(s@)
}

/// The search depth up to which a search over the eighteen face turns stays
/// practical; each further level takes eighteen times as long.
pub const RECOMMENDED_MAX_DEPTH: usize = 6;

/// Whether a search to `max_depth` goes beyond the recommended depth.  Such a
/// search is still carried out in full.
pub fn exceeds_recommended_depth(max_depth: usize) -> (deep: bool)
    ensures
        deep == (max_depth > RECOMMENDED_MAX_DEPTH),
{
    max_depth > RECOMMENDED_MAX_DEPTH
}

/// `moves` with `mv` put in front.
fn with_first_move(mv: CubeMove, moves: &Vec<CubeMove>) -> (all: Vec<CubeMove>)
    ensures
        all@ == seq![mv] + moves@,
{
    let mut all: Vec<CubeMove> = Vec::new();
    all.push(mv);
    let mut i: usize = 0;
    while i < moves.len()
        invariant
            i <= moves.len(),
            all@ == seq![mv] + moves@.take(i as int),
        decreases moves.len() - i,
    {
        all.push(moves[i]);
        proof {
            assert(moves@.take(i + 1) == moves@.take(i as int).push(moves@[i as int]));
        }
        i += 1;
    }
    proof {
        assert(moves@.take(moves@.len() as int) == moves@);
    }
    all
}

fn enumerate_from<F: Fn(&CubeState) -> bool>(
    state: CubeState,
    max_depth: usize,
    criterion: &F,
    legal_moves: &[CubeMove],
) -> (results: Vec<(CubeState, Vec<CubeMove>)>)
    requires
        forall|s: &CubeState| call_requires(*criterion, (s,)),
    ensures
        forall|goal: spec_fn(Facelets) -> bool| #[trigger]
            decides(*criterion, goal) ==> outcomes(results@) == search(
                state@,
                max_depth as nat,
                goal,
                legal_moves@,
            ),
    decreases max_depth,
{
    let mut results: Vec<(CubeState, Vec<CubeMove>)> = Vec::new();
    if criterion(&state) {
        results.push((state, Vec::new()));
    }
    proof {
        assert forall|goal: spec_fn(Facelets) -> bool| #[trigger]
            decides(*criterion, goal) implies outcomes(results@) == found_here(state@, goal) by {
            assert(outcomes(results@) =~= found_here(state@, goal));
        }
    }
    if max_depth != 0 {
        let mut i: usize = 0;
        while i < legal_moves.len()
            invariant
                max_depth != 0,
                i <= legal_moves.len(),
                forall|s: &CubeState| call_requires(*criterion, (s,)),
                forall|goal: spec_fn(Facelets) -> bool| #[trigger]
                    decides(*criterion, goal) ==> outcomes(results@) == found_here(state@, goal)
                        + search_below(state@, max_depth as nat, goal, legal_moves@, i as nat),
            decreases legal_moves.len() - i,
        {
            let mv = legal_moves[i];
            let mut new_state = state;
            new_state.execute_move(mv);
            let sub_results = enumerate_from(new_state, max_depth - 1, criterion, legal_moves);
            let ghost before = outcomes(results@);
            let mut j: usize = 0;
            while j < sub_results.len()
                invariant
                    j <= sub_results.len(),
                    outcomes(results@) == before + after_move(mv, outcomes(sub_results@).take(j as int)),
                decreases sub_results.len() - j,
            {
                let moves = with_first_move(mv, &sub_results[j].1);
                let ghost earlier = outcomes(results@);
                results.push((sub_results[j].0, moves));
                proof {
                    let sub = outcomes(sub_results@);
                    let last = (sub[j as int].0, seq![mv] + sub[j as int].1);
                    assert(outcomes(results@) =~= earlier.push(last));
                    assert(after_move(mv, sub.take(j + 1)) =~= after_move(
                        mv,
                        sub.take(j as int),
                    ).push(last));
                    assert(outcomes(results@) =~= before + after_move(mv, sub.take(j + 1)));
                }
                j += 1;
            }
            proof {
                let sub = outcomes(sub_results@);
                assert(sub.take(sub.len() as int) == sub);
                assert forall|goal: spec_fn(Facelets) -> bool| #[trigger]
                    decides(*criterion, goal) implies outcomes(results@) == found_here(state@, goal)
                    + search_below(state@, max_depth as nat, goal, legal_moves@, (i + 1) as nat) by {
                    assert(sub == search(new_state@, (max_depth - 1) as nat, goal, legal_moves@));
                    assert(before == found_here(state@, goal) + search_below(
                        state@,
                        max_depth as nat,
                        goal,
                        legal_moves@,
                        i as nat,
                    ));
                    assert(outcomes(results@) =~= found_here(state@, goal) + search_below(
                        state@,
                        max_depth as nat,
                        goal,
                        legal_moves@,
                        (i + 1) as nat,
                    ));
                }
            }
            i += 1;
        }
    }
    proof {
        assert forall|goal: spec_fn(Facelets) -> bool| #[trigger]
            decides(*criterion, goal) implies outcomes(results@) == search(
            state@,
            max_depth as nat,
            goal,
            legal_moves@,
        ) by {
            if max_depth == 0 {
                assert(outcomes(results@) =~= search(state@, 0, goal, legal_moves@));
            }
        }
    }
    results
}

/// Searches from `state` for every sequence of at most `max_depth` moves out
/// of `legal_moves` that leads to a state for which `criterion` holds.
///
/// The results come in the order of a depth-first walk, each with the state
/// it reaches.  A shorter sequence is reported beside the longer ones that
/// pass through the same state, and nothing is left out for being reached
/// twice: the work grows as the number of legal moves to the power of
/// `max_depth`.
pub fn enumerate_states_with_criteria<F: Fn(&CubeState) -> bool>(
    state: CubeState,
    max_depth: usize,
    criterion: F,
    legal_moves: &[CubeMove],
) -> (results: Vec<(CubeState, Vec<CubeMove>)>)
    requires
        forall|s: &CubeState| call_requires(criterion, (s,)),
    ensures
        forall|goal: spec_fn(Facelets) -> bool| #[trigger]
            decides(criterion, goal) ==> outcomes(results@) == search(
                state@,
                max_depth as nat,
                goal,
                legal_moves@,
            ),
{
    enumerate_from(state, max_depth, &criterion, legal_moves)
}

/// Every move of `moves` is one of the `legal` moves.
pub open spec fn all_legal(moves: Seq<CubeMove>, legal: Seq<CubeMove>) -> bool {
    forall|i: int| 0 <= i < moves.len() ==> legal.contains(#[trigger] moves[i])
}

/// What a result of a search says: its moves are at most `depth` legal
/// moves, they lead from the start to its state, and its state meets the goal.
pub open spec fn is_solution(
    s: Facelets,
    depth: nat,
    goal: spec_fn(Facelets) -> bool,
    legal: Seq<CubeMove>,
    outcome: Outcome,
) -> bool {
    &&& outcome.1.len() <= depth
    &&& all_legal(outcome.1, legal)
    &&& outcome.0 == apply_moves(s, outcome.1)
    &&& goal(outcome.0)
}

proof fn lemma_after_move_solution(
    s: Facelets,
    depth: nat,
    goal: spec_fn(Facelets) -> bool,
    legal: Seq<CubeMove>,
    m: CubeMove,
    outcome: Outcome,
)
    requires
        depth > 0,
        legal.contains(m),
        is_solution(apply_move(s, m), (depth - 1) as nat, goal, legal, outcome),
    ensures
        is_solution(s, depth, goal, legal, (outcome.0, seq![m] + outcome.1)),
{
    let moves = seq![m] + outcome.1;
    assert(moves[0] == m);
    assert(moves.drop_first() =~= outcome.1);
    assert forall|i: int| 0 <= i < moves.len() implies legal.contains(#[trigger] moves[i]) by {
        if i > 0 {
            assert(moves[i] == outcome.1[i - 1]);
        }
    }
}

/// Every result of a search is a solution: the search reports nothing that
/// does not lead to the goal within the depth.
pub proof fn lemma_search_sound(
    s: Facelets,
    depth: nat,
    goal: spec_fn(Facelets) -> bool,
    legal: Seq<CubeMove>,
    i: int,
)
    requires
        0 <= i < search(s, depth, goal, legal).len(),
    ensures
        is_solution(s, depth, goal, legal, search(s, depth, goal, legal)[i]),
    decreases depth, legal.len() + 1,
{
    let here = found_here(s, goal);
    if i < here.len() {
        assert(search(s, depth, goal, legal)[i] == (s, Seq::<CubeMove>::empty()));
        assert(apply_moves(s, Seq::<CubeMove>::empty()) == s);
    } else {
        lemma_search_below_sound(s, depth, goal, legal, legal.len(), i - here.len());
    }
}

proof fn lemma_search_below_sound(
    s: Facelets,
    depth: nat,
    goal: spec_fn(Facelets) -> bool,
    legal: Seq<CubeMove>,
    n: nat,
    i: int,
)
    requires
        0 <= i < search_below(s, depth, goal, legal, n).len(),
    ensures
        is_solution(s, depth, goal, legal, search_below(s, depth, goal, legal, n)[i]),
    decreases depth, n,
{
    if depth == 0 || n == 0 || n > legal.len() {
    } else {
        let earlier = search_below(s, depth, goal, legal, (n - 1) as nat);
        if i < earlier.len() {
            lemma_search_below_sound(s, depth, goal, legal, (n - 1) as nat, i);
        } else {
            let m = legal[n - 1];
            let sub = search(apply_move(s, m), (depth - 1) as nat, goal, legal);
            let j = i - earlier.len();
            lemma_search_sound(apply_move(s, m), (depth - 1) as nat, goal, legal, j);
            lemma_after_move_solution(s, depth, goal, legal, m, sub[j]);
        }
    }
}

proof fn lemma_search_below_includes(
    s: Facelets,
    depth: nat,
    goal: spec_fn(Facelets) -> bool,
    legal: Seq<CubeMove>,
    n: nat,
    k: int,
    j: int,
)
    requires
        depth > 0,
        0 <= k < n <= legal.len(),
        0 <= j < search(apply_move(s, legal[k]), (depth - 1) as nat, goal, legal).len(),
    ensures
        search_below(s, depth, goal, legal, n).contains(
            after_move(legal[k], search(apply_move(s, legal[k]), (depth - 1) as nat, goal, legal))[j],
        ),
    decreases n,
{
    let earlier = search_below(s, depth, goal, legal, (n - 1) as nat);
    let last = after_move(
        legal[n - 1],
        search(apply_move(s, legal[n - 1]), (depth - 1) as nat, goal, legal),
    );
    let all = search_below(s, depth, goal, legal, n);
    assert(all == earlier + last);
    if k == n - 1 {
        assert(all[earlier.len() + j] == last[j]);
    } else {
        lemma_search_below_includes(s, depth, goal, legal, (n - 1) as nat, k, j);
        let target = after_move(
            legal[k],
            search(apply_move(s, legal[k]), (depth - 1) as nat, goal, legal),
        )[j];
        let at = choose|at: int| 0 <= at < earlier.len() && earlier[at] == target;
        assert(all[at] == target);
    }
}

/// Every solution is among the results of the search: whatever sequence of
/// at most `depth` legal moves leads to the goal is reported, with the state
/// it reaches.
pub proof fn lemma_search_complete(
    s: Facelets,
    depth: nat,
    goal: spec_fn(Facelets) -> bool,
    legal: Seq<CubeMove>,
    moves: Seq<CubeMove>,
)
    requires
        is_solution(s, depth, goal, legal, (apply_moves(s, moves), moves)),
    ensures
        search(s, depth, goal, legal).contains((apply_moves(s, moves), moves)),
    decreases moves.len(),
{
    let all = search(s, depth, goal, legal);
    let here = found_here(s, goal);
    if moves.len() == 0 {
        assert(moves =~= Seq::<CubeMove>::empty());
        assert(all[0] == (s, Seq::<CubeMove>::empty()));
    } else {
        let first = moves[0];
        let rest = moves.drop_first();
        let next = apply_move(s, first);
        assert(legal.contains(first));
        let k = choose|k: int| 0 <= k < legal.len() && legal[k] == first;
        assert forall|i: int| 0 <= i < rest.len() implies legal.contains(#[trigger] rest[i]) by {
            assert(rest[i] == moves[i + 1]);
        }
        lemma_search_complete(next, (depth - 1) as nat, goal, legal, rest);
        let sub = search(next, (depth - 1) as nat, goal, legal);
        let j = choose|j: int| 0 <= j < sub.len() && sub[j] == (apply_moves(next, rest), rest);
        lemma_search_below_includes(s, depth, goal, legal, legal.len(), k, j);
        assert(seq![first] + rest =~= moves);
        let below = search_below(s, depth, goal, legal, legal.len());
        let target = (apply_moves(s, moves), moves);
        assert(after_move(first, sub)[j] == target);
        let at = choose|at: int| 0 <= at < below.len() && below[at] == target;
        assert(all[here.len() + at] == target);
    }
}

} // verus!
