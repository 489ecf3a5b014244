use kubesolv_solvers::cube::moves::{invert_move, CubeMove, NON_ROTATION_MOVES};
use kubesolv_solvers::cube::scramble::generate_scramble_sequence;
use kubesolv_solvers::cube::state::CubeState;
use kubesolv_solvers::solver::cfop_exploration::CfopExplorationSolver;
use kubesolv_solvers::solver::util::cross::enumerate_cross_solutions;
use kubesolv_solvers::solver::util::enumerate::{
    enumerate_states_with_criteria, exceeds_recommended_depth, RECOMMENDED_MAX_DEPTH,
};
use kubesolv_solvers::solver::util::f2l::{
    enumerate_f2l_solutions, explore_f2l_solutions, pair_orderings,
};
use kubesolv_solvers::solver::util::greedy::greedy_find_with_criteria;
use kubesolv_solvers::solver::util::oll::enumerate_oll_solutions;
use kubesolv_solvers::solver::Solver;

fn solved(state: &CubeState) -> bool {
    state.solved()
}

fn test_enumerate_states_with_criteria_depth_scrambled(
    depth: usize,
    scramble_length: usize,
    expected_min: usize,
    expected_max: usize,
) {
    let mut state = CubeState::new_solved();
    let scramble_sequence = generate_scramble_sequence(scramble_length);
    for mv in scramble_sequence.clone() {
        state.execute_move(mv);
    }
    let results = enumerate_states_with_criteria(state, depth, solved, &NON_ROTATION_MOVES);
    assert!(
        results.len() >= expected_min && results.len() <= expected_max,
        "For depth {} and scramble length {} (scramble: {:?}), expected between {} and {} solutions, got {} (solutions: {:?})",
        depth,
        scramble_length,
        scramble_sequence,
        expected_min,
        expected_max,
        results.len(),
        results.iter().map(|(_, moves)| moves).collect::<Vec<_>>()
    );
}

#[test]
fn enumerate_test_enumerate_states_with_criteria_depth_1_scramble_1() {
    test_enumerate_states_with_criteria_depth_scrambled(1, 1, 1, 1);
}

#[test]
fn enumerate_test_enumerate_states_with_criteria_depth_1_scramble_2() {
    test_enumerate_states_with_criteria_depth_scrambled(1, 2, 0, 0);
}

#[test]
fn enumerate_test_enumerate_states_with_criteria_depth_2_scramble_2() {
    test_enumerate_states_with_criteria_depth_scrambled(2, 2, 1, usize::MAX);
}

#[test]
fn enumerate_test_enumerate_states_with_criteria_depth_5_scramble_5() {
    test_enumerate_states_with_criteria_depth_scrambled(5, 5, 1, usize::MAX);
}

#[test]
fn enumerate_test_enumerate_states_with_criteria_depth_4_scramble_5() {
    test_enumerate_states_with_criteria_depth_scrambled(4, 5, 0, usize::MAX);
}

#[test]
fn test_enumerate_states_with_criteria_depth_6_scramble_6() {
    test_enumerate_states_with_criteria_depth_scrambled(6, 6, 1, usize::MAX);
}

#[test]
fn cross_test_enumerate_cross_solutions() {
    for i in 0..6 {
        let mut state = CubeState::new_solved();
        let scramble_moves = generate_scramble_sequence(i);
        for mv in scramble_moves.clone() {
            state.execute_move(mv);
        }
        let solutions = enumerate_cross_solutions(&state, i);
        assert!(!solutions.is_empty(), "No cross solutions found");
    }
}

#[test]
fn orientation_search_finds_the_way_back() {
    let mut state = CubeState::new_solved();
    state.execute_moves(&[CubeMove::R, CubeMove::U, CubeMove::RPrime, CubeMove::UPrime]);
    let solutions = enumerate_oll_solutions(&state, 4);
    assert!(!solutions.is_empty());
    assert!(solutions
        .iter()
        .any(|(_, moves)| moves == &vec![CubeMove::U, CubeMove::R, CubeMove::UPrime, CubeMove::RPrime]));
    for (reached, moves) in solutions.iter() {
        assert!(reached.oll_solved());
        let mut replay = state.clone();
        replay.execute_moves(moves);
        assert_eq!(&replay, reached);
    }
}

#[test]
fn orientation_search_is_bounded_by_its_depth() {
    // Seven turns away, with the down layer and two side layers turned: four
    // moves do not bring the first two layers back.
    let mut state = CubeState::new_solved();
    let scramble_moves = vec![
        CubeMove::R,
        CubeMove::U,
        CubeMove::RPrime,
        CubeMove::LPrime,
        CubeMove::UPrime,
        CubeMove::D,
        CubeMove::R,
    ];
    for mv in scramble_moves.clone() {
        state.execute_move(mv);
    }
    let solutions = enumerate_oll_solutions(&state, 4);
    assert!(solutions.is_empty());
}

#[test]
fn search_of_depth_zero_looks_at_the_start_only() {
    let start = CubeState::new_solved();
    let results = enumerate_states_with_criteria(start.clone(), 0, solved, &NON_ROTATION_MOVES);
    assert_eq!(results, vec![(start, vec![])]);
    let mut turned = CubeState::new_solved();
    turned.execute_move(CubeMove::R);
    let results = enumerate_states_with_criteria(turned, 0, solved, &NON_ROTATION_MOVES);
    assert!(results.is_empty());
}

#[test]
fn search_finds_the_inverse_of_each_face_turn() {
    for &mv in NON_ROTATION_MOVES.iter() {
        let mut state = CubeState::new_solved();
        state.execute_move(mv);
        let results = enumerate_states_with_criteria(state, 1, solved, &NON_ROTATION_MOVES);
        assert_eq!(results, vec![(CubeState::new_solved(), vec![invert_move(mv)])]);
    }
}

#[test]
fn search_reports_shorter_sequences_beside_longer_ones() {
    // From the solved cube, to depth 2: the start itself, then for each of
    // the six faces the three pairs of turns that cancel, in the order of the
    // legal moves.
    let start = CubeState::new_solved();
    let results = enumerate_states_with_criteria(start.clone(), 2, solved, &NON_ROTATION_MOVES);
    let mut expected = vec![(start.clone(), vec![])];
    for &mv in NON_ROTATION_MOVES.iter() {
        expected.push((start.clone(), vec![mv, invert_move(mv)]));
    }
    assert_eq!(results, expected);
}

#[test]
fn search_keeps_to_the_legal_moves() {
    let mut state = CubeState::new_solved();
    state.execute_move(CubeMove::R);
    let only_left = [CubeMove::L, CubeMove::LPrime];
    assert!(enumerate_states_with_criteria(state.clone(), 3, solved, &only_left).is_empty());
    let only_right = [CubeMove::R];
    let results = enumerate_states_with_criteria(state, 3, solved, &only_right);
    assert_eq!(
        results,
        vec![(CubeState::new_solved(), vec![CubeMove::R, CubeMove::R, CubeMove::R])]
    );
}

#[test]
fn every_result_leads_to_its_state() {
    let mut state = CubeState::new_solved();
    state.execute_moves(&[CubeMove::F, CubeMove::D, CubeMove::RPrime]);
    let results = enumerate_cross_solutions(&state, 3);
    assert!(!results.is_empty());
    for (reached, moves) in results.iter() {
        assert!(moves.len() <= 3);
        let mut replay = state.clone();
        replay.execute_moves(moves);
        assert_eq!(&replay, reached);
        assert!(reached.cross_solved());
    }
    assert!(results.iter().any(|(_, moves)| moves == &vec![CubeMove::R, CubeMove::DPrime, CubeMove::FPrime]));
}

#[test]
fn recommended_depth() {
    assert_eq!(RECOMMENDED_MAX_DEPTH, 6);
    assert!(!exceeds_recommended_depth(0));
    assert!(!exceeds_recommended_depth(6));
    assert!(exceeds_recommended_depth(7));
}

#[test]
fn greedy_search_reports_nothing() {
    let state = CubeState::new_solved();
    assert_eq!(greedy_find_with_criteria(state, 3, solved, &NON_ROTATION_MOVES), None);
}

#[test]
fn exploration_settles_on_the_empty_sequence() {
    let state = CubeState::new_solved();
    assert_eq!(explore_f2l_solutions(&state), Some(vec![]));
    let mut turned = CubeState::new_solved();
    turned.execute_move(CubeMove::R);
    assert_eq!(enumerate_f2l_solutions(&turned, 1), Some(vec![]));
    assert_eq!(enumerate_f2l_solutions(&state, 0), Some(vec![]));
}

#[test]
fn orders_of_the_four_pairs() {
    let orderings = pair_orderings();
    assert_eq!(orderings.len(), 24);
    for ordering in orderings.iter() {
        let mut sorted = ordering.clone();
        sorted.sort();
        assert_eq!(sorted, vec![0, 1, 2, 3]);
    }
    for i in 0..orderings.len() {
        for j in 0..i {
            assert_ne!(orderings[i], orderings[j]);
        }
    }
}

#[test]
fn solved_cube_needs_no_move() {
    let solver = CfopExplorationSolver::with_depths(1, 1, 1, 1, 1);
    assert_eq!(solver.solve(&CubeState::new_solved()), Some(vec![]));
    let solver = CfopExplorationSolver::with_depths(0, 0, 0, 0, 0);
    assert_eq!(solver.solve(&CubeState::new_solved()), Some(vec![]));
}

#[test]
fn one_face_turn_is_solved_within_the_depths() {
    let solver = CfopExplorationSolver::with_depths(1, 1, 1, 1, 1);
    for &mv in NON_ROTATION_MOVES.iter() {
        let mut state = CubeState::new_solved();
        state.execute_move(mv);
        let solution = solver.solve(&state).expect("a face turn can be undone");
        let turns = solution
            .iter()
            .filter(|m| NON_ROTATION_MOVES.contains(m))
            .count();
        assert!(turns <= 5, "{:?} for {:?}", solution, mv);
        state.execute_moves(&solution);
        assert!(state.f2l_solved(), "{:?} for {:?}", solution, mv);
    }
}

#[test]
fn shortest_sequence_wins() {
    // A turn of the up layer leaves the first two layers complete: nothing to do.
    let solver = CfopExplorationSolver::with_depths(1, 1, 1, 1, 1);
    let mut state = CubeState::new_solved();
    state.execute_move(CubeMove::U);
    assert_eq!(solver.solve(&state), Some(vec![]));
    // A turn of the right face is undone in the first orientation.
    let mut state = CubeState::new_solved();
    state.execute_move(CubeMove::R);
    assert_eq!(solver.solve(&state), Some(vec![CubeMove::RPrime]));
}

#[test]
fn nothing_found_within_too_small_depths() {
    let solver = CfopExplorationSolver::with_depths(0, 0, 0, 0, 0);
    let mut state = CubeState::new_solved();
    state.execute_moves(&[CubeMove::R, CubeMove::U, CubeMove::F]);
    assert_eq!(solver.solve(&state), None);
}

#[test]
fn pairs_are_searched_one_at_a_time() {
    let solver = CfopExplorationSolver::new();
    let mut state = CubeState::new_solved();
    state.execute_moves(&[CubeMove::R, CubeMove::U, CubeMove::RPrime]);
    // The front right pair is brought back by R U' R'; the other three are
    // complete already and stay so.
    let results = solver.solve_one_pair(&state, &[false, true, true, true], 0, 3);
    assert!(results
        .iter()
        .any(|(_, moves)| moves == &vec![CubeMove::R, CubeMove::UPrime, CubeMove::RPrime]));
    for (reached, _) in results.iter() {
        assert!(reached.f2l_solved());
    }
    let solver = CfopExplorationSolver::with_depths(0, 0, 0, 0, 2);
    let mut best = None;
    solver.dfs_f2l_orderings(&state, &[], &[false, true, true, true], 3, &mut best);
    assert_eq!(best, None, "two moves do not bring the pair back");
    let solver = CfopExplorationSolver::with_depths(0, 0, 0, 0, 3);
    let mut best = None;
    solver.dfs_f2l_orderings(&state, &[], &[false, true, true, true], 3, &mut best);
    assert_eq!(best, Some(vec![CubeMove::R, CubeMove::UPrime, CubeMove::RPrime]));
    let mut best = Some(vec![CubeMove::F, CubeMove::FPrime]);
    solver.dfs_f2l_orderings(&state, &[], &[false, true, true, true], 3, &mut best);
    assert_eq!(best, Some(vec![CubeMove::F, CubeMove::FPrime]), "a shorter one stays");
}
