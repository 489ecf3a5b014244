use kubesolv_solvers::cube::face::{move_to_face, CubeFace};
use kubesolv_solvers::cube::moves::{invert_move, CubeMove, NON_ROTATION_MOVES};
use kubesolv_solvers::cube::plane::{face_to_plane, move_to_plane, CubePlane};
use kubesolv_solvers::cube::scramble::{can_follow, generate_scramble_sequence, next_moves};
use kubesolv_solvers::cube::sequence::{joined_moves, moves_to_vec};
use kubesolv_solvers::cube::state::CubeState;

fn all_moves() -> Vec<CubeMove> {
    vec![
        CubeMove::U, CubeMove::UPrime, CubeMove::U2,
        CubeMove::D, CubeMove::DPrime, CubeMove::D2,
        CubeMove::L, CubeMove::LPrime, CubeMove::L2,
        CubeMove::R, CubeMove::RPrime, CubeMove::R2,
        CubeMove::F, CubeMove::FPrime, CubeMove::F2,
        CubeMove::B, CubeMove::BPrime, CubeMove::B2,
        CubeMove::M, CubeMove::MPrime, CubeMove::M2,
        CubeMove::E, CubeMove::EPrime, CubeMove::E2,
        CubeMove::S, CubeMove::SPrime, CubeMove::S2,
        CubeMove::X, CubeMove::XPrime, CubeMove::X2,
        CubeMove::Y, CubeMove::YPrime, CubeMove::Y2,
        CubeMove::Z, CubeMove::ZPrime, CubeMove::Z2,
    ]
}

fn is_half_turn(mv: CubeMove) -> bool {
    invert_move(mv) == mv
}

fn scrambled(length: usize) -> CubeState {
    let mut state = CubeState::new_solved();
    for mv in generate_scramble_sequence(length) {
        state.execute_move(mv);
    }
    state
}

#[test]
fn every_move_is_undone_by_its_inverse() {
    for length in 1..=6 {
        let start = scrambled(length);
        for mv in all_moves() {
            let mut state = start.clone();
            state.execute_move(mv);
            state.execute_move(invert_move(mv));
            assert_eq!(state, start, "{:?} then its inverse", mv);
            let mut state = start.clone();
            state.execute_move(invert_move(mv));
            state.execute_move(mv);
            assert_eq!(state, start, "the inverse of {:?} then the move", mv);
        }
    }
}

#[test]
fn every_move_returns_after_its_order() {
    for length in 0..=5 {
        let start = scrambled(length);
        for mv in all_moves() {
            let times = if is_half_turn(mv) { 2 } else { 4 };
            let mut state = start.clone();
            for _ in 0..times {
                state.execute_move(mv);
            }
            assert_eq!(state, start, "{:?} applied {} times", mv, times);
        }
    }
}

#[test]
fn no_quarter_turn_returns_early() {
    let start = CubeState::new_solved();
    for mv in all_moves() {
        let mut state = start.clone();
        state.execute_move(mv);
        assert_ne!(state, start, "{:?} does something", mv);
        if !is_half_turn(mv) {
            state.execute_move(mv);
            assert_ne!(state, start, "{:?} twice is no identity", mv);
        }
    }
}

#[test]
fn inverse_of_each_move() {
    assert_eq!(invert_move(CubeMove::U), CubeMove::UPrime);
    assert_eq!(invert_move(CubeMove::UPrime), CubeMove::U);
    assert_eq!(invert_move(CubeMove::U2), CubeMove::U2);
    assert_eq!(invert_move(CubeMove::M), CubeMove::MPrime);
    assert_eq!(invert_move(CubeMove::SPrime), CubeMove::S);
    assert_eq!(invert_move(CubeMove::E2), CubeMove::E2);
    assert_eq!(invert_move(CubeMove::X), CubeMove::XPrime);
    assert_eq!(invert_move(CubeMove::ZPrime), CubeMove::Z);
    assert_eq!(invert_move(CubeMove::Y2), CubeMove::Y2);
    for mv in all_moves() {
        assert_eq!(invert_move(invert_move(mv)), mv);
    }
}

#[test]
fn up_turn_moves_the_top_rows() {
    let mut cube = CubeState::new_solved();
    cube.execute_move(CubeMove::U);
    // Seen from above the up layer turns clockwise: the front row goes left.
    assert_eq!(cube.faces[0], [0; 9]);
    assert_eq!(cube.faces[1], [2, 2, 2, 1, 1, 1, 1, 1, 1]);
    assert_eq!(cube.faces[2], [3, 3, 3, 2, 2, 2, 2, 2, 2]);
    assert_eq!(cube.faces[3], [4, 4, 4, 3, 3, 3, 3, 3, 3]);
    assert_eq!(cube.faces[4], [1, 1, 1, 4, 4, 4, 4, 4, 4]);
    assert_eq!(cube.faces[5], [5; 9]);
}

#[test]
fn front_turn_moves_the_adjacent_rows() {
    let mut cube = CubeState::new_solved();
    cube.execute_move(CubeMove::F);
    assert_eq!(cube.faces[0], [0, 0, 0, 0, 0, 0, 1, 1, 1]);
    assert_eq!(cube.faces[1], [1, 1, 5, 1, 1, 5, 1, 1, 5]);
    assert_eq!(cube.faces[2], [2; 9]);
    assert_eq!(cube.faces[3], [0, 3, 3, 0, 3, 3, 0, 3, 3]);
    assert_eq!(cube.faces[4], [4; 9]);
    assert_eq!(cube.faces[5], [3, 3, 3, 5, 5, 5, 5, 5, 5]);
}

#[test]
fn rotations_carry_whole_faces() {
    let mut cube = CubeState::new_solved();
    cube.execute_move(CubeMove::X);
    assert_eq!(cube.faces, [[2; 9], [1; 9], [5; 9], [3; 9], [0; 9], [4; 9]]);
    let mut cube = CubeState::new_solved();
    cube.execute_move(CubeMove::Y);
    assert_eq!(cube.faces, [[0; 9], [2; 9], [3; 9], [4; 9], [1; 9], [5; 9]]);
    let mut cube = CubeState::new_solved();
    cube.execute_move(CubeMove::Z);
    assert_eq!(cube.faces, [[1; 9], [5; 9], [2; 9], [0; 9], [4; 9], [3; 9]]);
}

#[test]
fn primitives_agree_with_moves() {
    let start = scrambled(7);
    let mut by_move = start.clone();
    by_move.execute_move(CubeMove::F);
    let mut direct = start.clone();
    direct.move_f();
    assert_eq!(by_move, direct);
    let mut by_move = start.clone();
    by_move.execute_move(CubeMove::FPrime);
    let mut direct = start.clone();
    direct.move_f_prime();
    assert_eq!(by_move, direct);
    let mut by_move = start.clone();
    by_move.execute_move(CubeMove::X);
    let mut direct = start.clone();
    direct.rotate_x();
    assert_eq!(by_move, direct);
    let mut by_move = start.clone();
    by_move.execute_move(CubeMove::Y);
    let mut direct = start.clone();
    direct.rotate_y();
    assert_eq!(by_move, direct);
    let mut by_move = start.clone();
    by_move.execute_move(CubeMove::Z);
    let mut direct = start.clone();
    direct.rotate_z();
    assert_eq!(by_move, direct);
    let mut turned = start.clone();
    turned.rotate_face_cw(3);
    turned.rotate_face_ccw(3);
    assert_eq!(turned, start);
}

#[test]
fn slice_moves_are_what_their_names_say() {
    // M follows L: seen from the left the middle slice turns clockwise, so the
    // front centre goes down.
    let mut cube = CubeState::new_solved();
    cube.execute_move(CubeMove::M);
    assert_eq!(cube.faces[2][4], 0);
    assert_eq!(cube.faces[5][4], 2);
    assert_eq!(cube.faces[1], [1; 9]);
    assert_eq!(cube.faces[3], [3; 9]);
}

#[test]
fn sequences_apply_from_left_to_right() {
    let moves = [CubeMove::R, CubeMove::U, CubeMove::RPrime, CubeMove::F2];
    let mut one_by_one = CubeState::new_solved();
    for mv in moves {
        one_by_one.execute_move(mv);
    }
    let mut at_once = CubeState::new_solved();
    at_once.execute_moves(&moves);
    assert_eq!(one_by_one, at_once);
    let mut other_order = CubeState::new_solved();
    other_order.execute_moves(&[CubeMove::F2, CubeMove::RPrime, CubeMove::U, CubeMove::R]);
    assert_ne!(other_order, at_once);
    let mut unchanged = CubeState::new_solved();
    unchanged.execute_moves(&[]);
    assert_eq!(unchanged, CubeState::new_solved());
}

#[test]
fn vectors_of_moves() {
    assert_eq!(moves_to_vec(&[CubeMove::R, CubeMove::U]), vec![CubeMove::R, CubeMove::U]);
    assert_eq!(moves_to_vec(&[]), Vec::<CubeMove>::new());
    assert_eq!(
        joined_moves(&[CubeMove::R, CubeMove::U], &[CubeMove::F]),
        vec![CubeMove::R, CubeMove::U, CubeMove::F]
    );
    assert_eq!(joined_moves(&[], &[CubeMove::F]), vec![CubeMove::F]);
}

#[test]
fn faces_and_planes_of_face_turns() {
    assert_eq!(move_to_face(CubeMove::U), CubeFace::Up);
    assert_eq!(move_to_face(CubeMove::DPrime), CubeFace::Down);
    assert_eq!(move_to_face(CubeMove::L2), CubeFace::Left);
    assert_eq!(move_to_face(CubeMove::R), CubeFace::Right);
    assert_eq!(move_to_face(CubeMove::FPrime), CubeFace::Front);
    assert_eq!(move_to_face(CubeMove::B2), CubeFace::Back);
    assert_eq!(face_to_plane(CubeFace::Up), CubePlane::UpDown);
    assert_eq!(face_to_plane(CubeFace::Down), CubePlane::UpDown);
    assert_eq!(face_to_plane(CubeFace::Left), CubePlane::LeftRight);
    assert_eq!(face_to_plane(CubeFace::Right), CubePlane::LeftRight);
    assert_eq!(face_to_plane(CubeFace::Front), CubePlane::FrontBack);
    assert_eq!(face_to_plane(CubeFace::Back), CubePlane::FrontBack);
    assert_eq!(move_to_plane(CubeMove::D2), CubePlane::UpDown);
    assert_eq!(move_to_plane(CubeMove::RPrime), CubePlane::LeftRight);
    assert_eq!(move_to_plane(CubeMove::B), CubePlane::FrontBack);
    assert_eq!(NON_ROTATION_MOVES.len(), 18);
}

#[test]
fn a_face_is_not_turned_twice_in_its_plane() {
    // Nothing before: every face turn may come.
    assert!(can_follow(&[], CubeMove::U));
    // The same face again, whatever the amount.
    assert!(!can_follow(&[CubeMove::U], CubeMove::U));
    assert!(!can_follow(&[CubeMove::U], CubeMove::UPrime));
    assert!(!can_follow(&[CubeMove::U], CubeMove::U2));
    // The opposite face is in the same plane, yet another face.
    assert!(can_follow(&[CubeMove::U], CubeMove::D));
    // Behind a turn of the opposite face the first face is still barred.
    assert!(!can_follow(&[CubeMove::U, CubeMove::D], CubeMove::U2));
    assert!(!can_follow(&[CubeMove::U, CubeMove::D], CubeMove::DPrime));
    // A turn in another plane opens both again.
    assert!(can_follow(&[CubeMove::U, CubeMove::R], CubeMove::U));
    assert!(can_follow(&[CubeMove::U, CubeMove::D, CubeMove::F], CubeMove::D));
    assert!(!can_follow(&[CubeMove::U, CubeMove::D, CubeMove::F], CubeMove::F2));
}

#[test]
fn candidates_for_the_next_move() {
    assert_eq!(next_moves(&[]), NON_ROTATION_MOVES.to_vec());
    let after_up = next_moves(&[CubeMove::U]);
    assert_eq!(after_up, NON_ROTATION_MOVES[3..].to_vec());
    let after_both = next_moves(&[CubeMove::U, CubeMove::D2]);
    assert_eq!(after_both, NON_ROTATION_MOVES[6..].to_vec());
}

#[test]
fn scrambles_have_the_length_and_keep_the_rule() {
    for length in [0usize, 1, 2, 5, 25, 200] {
        let scramble = generate_scramble_sequence(length);
        assert_eq!(scramble.len(), length);
        for i in 0..scramble.len() {
            assert!(NON_ROTATION_MOVES.contains(&scramble[i]));
            assert!(can_follow(&scramble[..i], scramble[i]), "move {} of {:?}", i, scramble);
        }
    }
}

#[test]
fn scrambles_vary() {
    // Thirty random moves give one fixed sequence with a chance below 12^-30.
    let first = generate_scramble_sequence(30);
    let differs = (0..20).any(|_| generate_scramble_sequence(30) != first);
    assert!(differs);
    // Every face turn comes first sooner or later.
    let mut seen = Vec::new();
    for _ in 0..2000 {
        let mv = generate_scramble_sequence(1)[0];
        if !seen.contains(&mv) {
            seen.push(mv);
        }
    }
    assert_eq!(seen.len(), 18);
}
