use kubesolv_solvers::cube::moves::CubeMove;
use kubesolv_solvers::cube::state::CubeState;
use kubesolv_solvers::solver::cfop_exploration::CfopExplorationSolver;
use kubesolv_solvers::solver::util::auf::{get_auf_solution, AUF_MOVES};
use kubesolv_solvers::solver::util::cross::cross_solved;
use kubesolv_solvers::solver::util::f2l::{
    back_left_f2l_pair_solved, back_right_f2l_pair_solved, f2l_solved, front_left_f2l_pair_solved,
    front_right_f2l_pair_solved, make_criterion, F2LPair,
};
use kubesolv_solvers::solver::util::oll::{oll_algorithms, oll_solved};
use kubesolv_solvers::solver::util::pll::{get_pll_solution, pll_algorithms};

#[test]
fn f2l_test_front_right() {
    let mut state = CubeState::new_solved();
    assert!(front_right_f2l_pair_solved(&state));
    for mv in [CubeMove::R, CubeMove::U, CubeMove::RPrime] {
        state.execute_move(mv);
    }
    assert!(!front_right_f2l_pair_solved(&state));
    assert!(front_left_f2l_pair_solved(&state));
    assert!(back_right_f2l_pair_solved(&state));
    assert!(back_left_f2l_pair_solved(&state));
}

#[test]
fn f2l_test_front_left() {
    let mut state = CubeState::new_solved();
    assert!(front_left_f2l_pair_solved(&state));
    for mv in [CubeMove::LPrime, CubeMove::UPrime, CubeMove::L] {
        state.execute_move(mv);
    }
    assert!(front_right_f2l_pair_solved(&state));
    assert!(!front_left_f2l_pair_solved(&state));
    assert!(back_right_f2l_pair_solved(&state));
    assert!(back_left_f2l_pair_solved(&state));
}

#[test]
fn f2l_test_back_right() {
    let mut state = CubeState::new_solved();
    assert!(back_right_f2l_pair_solved(&state));
    for mv in [CubeMove::RPrime, CubeMove::UPrime, CubeMove::R] {
        state.execute_move(mv);
    }
    assert!(front_right_f2l_pair_solved(&state));
    assert!(front_left_f2l_pair_solved(&state));
    assert!(!back_right_f2l_pair_solved(&state));
    assert!(back_left_f2l_pair_solved(&state));
}

#[test]
fn f2l_test_back_left() {
    let mut state = CubeState::new_solved();
    assert!(back_left_f2l_pair_solved(&state));
    for mv in [CubeMove::L, CubeMove::U, CubeMove::LPrime] {
        state.execute_move(mv);
    }
    assert!(front_right_f2l_pair_solved(&state));
    assert!(front_left_f2l_pair_solved(&state));
    assert!(back_right_f2l_pair_solved(&state));
    assert!(!back_left_f2l_pair_solved(&state));
}

#[test]
fn auf_test_auf_algorithms_maintain_pll() {
    for &mv in AUF_MOVES.iter() {
        let mut state = CubeState::new_solved();
        state.execute_move(mv);
        assert!(state.pll_solved(), "PLL should be solved after applying PLL algorithm");
    }
}

#[test]
fn test_pll_algorithms_maintain_oll() {
    for algorithm in pll_algorithms().iter() {
        let mut state = CubeState::new_solved();
        for &mv in algorithm {
            state.execute_move(mv);
        }
        assert!(
            state.oll_solved(),
            "PLL algorithm {:?} did not maintain OLL solved",
            algorithm
        );
    }
}

#[test]
fn test_solve_pll_many_cases() {
    // Test all combinations of two PLL algorithms applied to a solved cube
    let algorithms = pll_algorithms();
    for scramble_moves_1 in algorithms.iter() {
        let mut state = CubeState::new_solved();
        for mv in scramble_moves_1 {
            state.execute_move(*mv);
        }
        for scramble_moves_2 in algorithms.iter() {
            let mut state = state.clone();
            for mv in scramble_moves_2 {
                state.execute_move(*mv);
            }
            let result = get_pll_solution(&state);
            match result {
                Ok(solutions) => {
                    let (solved_state, solution_moves) = &solutions[0];
                    assert!(solved_state.pll_solved(), "PLL solution did not solve PLL");
                    let mut test_state = state.clone();
                    for &mv in solution_moves {
                        test_state.execute_move(mv);
                    }
                    assert!(
                        test_state.pll_solved(),
                        "Applying PLL solution moves did not result in PLL solved state"
                    );
                }
                Err(e) => panic!(
                    "Failed to solve PLL where scramble is {:#?} {:#?}: {}",
                    scramble_moves_1, scramble_moves_2, e
                ),
            }
        }
    }
}

#[test]
fn orientation_algorithms_keep_the_first_two_layers() {
    let algorithms = oll_algorithms();
    assert_eq!(algorithms.len(), 5);
    for algorithm in algorithms.iter() {
        let mut state = CubeState::new_solved();
        state.execute_moves(algorithm);
        assert!(state.f2l_solved(), "{:?} broke the first two layers", algorithm);
    }
}

#[test]
fn tables_hold_the_algorithms() {
    let pll = pll_algorithms();
    assert_eq!(pll.len(), 21);
    assert_eq!(
        pll[0],
        vec![
            CubeMove::RPrime, CubeMove::F, CubeMove::RPrime, CubeMove::B2, CubeMove::R,
            CubeMove::FPrime, CubeMove::RPrime, CubeMove::B2, CubeMove::R2,
        ]
    );
    assert_eq!(pll[8].len(), 11);
    assert_eq!(pll[20].len(), 15);
    let oll = oll_algorithms();
    assert_eq!(
        oll[4],
        vec![
            CubeMove::LPrime, CubeMove::B2, CubeMove::R, CubeMove::B, CubeMove::RPrime,
            CubeMove::B, CubeMove::L,
        ]
    );
}

#[test]
fn stages_of_the_solved_cube() {
    let state = CubeState::new_solved();
    assert!(state.cross_solved());
    assert!(cross_solved(&state));
    assert!(state.f2l_solved());
    assert!(f2l_solved(&state));
    assert!(state.oll_solved());
    assert!(oll_solved(&state));
    assert!(state.pll_solved());
    assert!(state.solved());
}

#[test]
fn predicates_go_by_the_centres() {
    // A solved cube stays solved however it is held.
    for mv in [CubeMove::X, CubeMove::YPrime, CubeMove::Z2] {
        let mut state = CubeState::new_solved();
        state.execute_move(mv);
        assert!(state.solved());
        assert!(state.pll_solved());
        assert!(state.cross_solved());
    }
}

#[test]
fn later_stages_include_earlier_ones() {
    let mut state = CubeState::new_solved();
    // A turn of the up layer: all but the last stage stay complete.
    state.execute_move(CubeMove::U);
    assert!(!state.solved());
    assert!(state.pll_solved() && state.oll_solved() && state.f2l_solved() && state.cross_solved());
    // A permutation of the up layer leaves the orientation.
    let mut state = CubeState::new_solved();
    state.execute_moves(&pll_algorithms()[15]);
    assert!(!state.pll_solved());
    assert!(state.oll_solved() && state.f2l_solved() && state.cross_solved());
    // One pair out: the cross stays.
    let mut state = CubeState::new_solved();
    state.execute_moves(&[CubeMove::R, CubeMove::U, CubeMove::RPrime]);
    assert!(!state.oll_solved() && !state.f2l_solved());
    assert!(state.cross_solved());
    // A turn of the down layer breaks the cross.
    let mut state = CubeState::new_solved();
    state.execute_move(CubeMove::D);
    assert!(!state.cross_solved() && !state.f2l_solved());
}

#[test]
fn criteria_follow_their_masks() {
    let solved = CubeState::new_solved();
    let mut front_right_out = CubeState::new_solved();
    front_right_out.execute_moves(&[CubeMove::R, CubeMove::U, CubeMove::RPrime]);
    let mut cross_out = CubeState::new_solved();
    cross_out.execute_move(CubeMove::D);
    for bits in 1..16u8 {
        let mask = [bits & 1 != 0, bits & 2 != 0, bits & 4 != 0, bits & 8 != 0];
        let criterion = make_criterion(mask);
        assert!(criterion(&solved));
        assert_eq!(criterion(&front_right_out), !mask[0], "mask {:?}", mask);
        assert!(!criterion(&cross_out));
        let criterion = CfopExplorationSolver::make_criterion(mask);
        assert_eq!(criterion(&front_right_out), !mask[0]);
    }
}

#[test]
fn pairs_by_index() {
    assert_eq!(CfopExplorationSolver::pair_index_to_enum(0), F2LPair::FrontRight);
    assert_eq!(CfopExplorationSolver::pair_index_to_enum(1), F2LPair::FrontLeft);
    assert_eq!(CfopExplorationSolver::pair_index_to_enum(2), F2LPair::BackRight);
    assert_eq!(CfopExplorationSolver::pair_index_to_enum(3), F2LPair::BackLeft);
    let mut state = CubeState::new_solved();
    state.execute_moves(&[CubeMove::L, CubeMove::U, CubeMove::LPrime]);
    assert!(CfopExplorationSolver::is_pair_solved(&state, &F2LPair::FrontRight));
    assert!(CfopExplorationSolver::is_pair_solved(&state, &F2LPair::FrontLeft));
    assert!(CfopExplorationSolver::is_pair_solved(&state, &F2LPair::BackRight));
    assert!(!CfopExplorationSolver::is_pair_solved(&state, &F2LPair::BackLeft));
}

#[test]
fn adjustment_of_the_up_layer() {
    let solved = CubeState::new_solved();
    let found = get_auf_solution(&solved).unwrap();
    assert_eq!(found, vec![(solved.clone(), vec![])]);
    // After U the first turn that solves is U'.
    let mut state = CubeState::new_solved();
    state.execute_move(CubeMove::U);
    let found = get_auf_solution(&state).unwrap();
    assert_eq!(found, vec![(solved.clone(), vec![CubeMove::UPrime])]);
    let mut state = CubeState::new_solved();
    state.execute_move(CubeMove::UPrime);
    assert_eq!(get_auf_solution(&state).unwrap(), vec![(solved.clone(), vec![CubeMove::U])]);
    let mut state = CubeState::new_solved();
    state.execute_move(CubeMove::U2);
    assert_eq!(get_auf_solution(&state).unwrap(), vec![(solved.clone(), vec![CubeMove::U2])]);
}

#[test]
fn no_adjustment_solves_another_layer() {
    let mut state = CubeState::new_solved();
    state.execute_move(CubeMove::R);
    assert_eq!(get_auf_solution(&state), Err("No AUF solution found".to_string()));
}

#[test]
fn permutation_lookup() {
    let solved = CubeState::new_solved();
    assert_eq!(get_pll_solution(&solved).unwrap(), vec![(solved.clone(), vec![])]);
    // A state that has the stage complete comes back as it is, even if a turn
    // of the up layer is left.
    let mut turned = CubeState::new_solved();
    turned.execute_move(CubeMove::U);
    assert_eq!(get_pll_solution(&turned).unwrap(), vec![(turned.clone(), vec![])]);
    // The T permutation undoes itself, and nothing earlier in the table does.
    let algorithms = pll_algorithms();
    let mut state = CubeState::new_solved();
    state.execute_moves(&algorithms[15]);
    let found = get_pll_solution(&state).unwrap();
    assert_eq!(found.len(), 1);
    assert_eq!(found[0].1, algorithms[15]);
    assert!(found[0].0.pll_solved());
    let mut check = state.clone();
    check.execute_moves(&found[0].1);
    assert_eq!(check, found[0].0);
}

#[test]
fn no_permutation_for_a_broken_layer() {
    let mut state = CubeState::new_solved();
    state.execute_move(CubeMove::R);
    assert_eq!(get_pll_solution(&state), Err("No PLL solution found".to_string()));
}
