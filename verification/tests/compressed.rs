use kubesolv_solvers::cube::compressed::{CompressedState, CompressedStateNoCenter};
use kubesolv_solvers::cube::moves::CubeMove;
use kubesolv_solvers::cube::scramble::generate_scramble_sequence;
use kubesolv_solvers::cube::state::CubeState;

#[test]
fn test_compression_roundtrip() {
    let original = CubeState::new_solved();
    let compressed = CompressedState::from_cube_state(&original);
    let decompressed = compressed.to_cube_state();
    assert_eq!(original, decompressed);
}

#[test]
fn test_compression_size() {
    let state = CubeState::new_solved();
    let compressed = CompressedState::from_cube_state(&state);
    assert_eq!(compressed.as_bytes().len(), 21);
}

#[test]
fn test_compression_no_center_roundtrip() {
    let original = CubeState::new_solved();
    let compressed = CompressedStateNoCenter::from_cube_state(&original);
    let decompressed = compressed.to_cube_state();
    assert_eq!(original, decompressed);
}

#[test]
fn test_compression_no_center_size() {
    let state = CubeState::new_solved();
    let compressed = CompressedStateNoCenter::from_cube_state(&state);
    assert_eq!(compressed.as_bytes().len(), 18);
}

#[test]
fn test_compression_with_moves() {
    let mut cube = CubeState::new_solved();
    cube.execute_move(CubeMove::U);
    cube.execute_move(CubeMove::RPrime);
    cube.execute_move(CubeMove::B);

    let compressed = CompressedState::from_cube_state(&cube);
    let decompressed = compressed.to_cube_state();
    assert_eq!(cube, decompressed);
}

#[test]
fn bytes_of_the_solved_cube() {
    let state = CubeState::new_solved();
    let full = CompressedState::from_cube_state(&state);
    assert_eq!(
        full.as_bytes(),
        &[0, 0, 0, 72, 146, 36, 137, 36, 73, 146, 182, 109, 219, 70, 146, 36, 201, 182, 109, 219, 2]
    );
    let outer = CompressedStateNoCenter::from_cube_state(&state);
    assert_eq!(
        outer.as_bytes(),
        &[0, 0, 0, 73, 146, 36, 146, 36, 73, 219, 182, 109, 36, 73, 146, 109, 219, 182]
    );
}

#[test]
fn bytes_after_moves() {
    let mut cube = CubeState::new_solved();
    cube.execute_moves(&[CubeMove::U, CubeMove::RPrime, CubeMove::B]);
    let full = CompressedState::from_cube_state(&cube);
    assert_eq!(
        full.as_bytes(),
        &[219, 0, 2, 161, 132, 4, 201, 6, 9, 18, 56, 113, 229, 218, 150, 12, 153, 118, 173, 148, 0]
    );
}

#[test]
fn first_field_is_in_the_low_bits() {
    let mut state = CubeState { faces: [[0; 9]; 6] };
    state.faces[0][0] = 5;
    let full = CompressedState::from_cube_state(&state);
    let mut expected = [0u8; 21];
    expected[0] = 5;
    assert_eq!(full.as_bytes(), &expected);
    // The third colour lies across the first two bytes.
    let mut state = CubeState { faces: [[0; 9]; 6] };
    state.faces[0][2] = 7;
    let full = CompressedState::from_cube_state(&state);
    let mut expected = [0u8; 21];
    expected[0] = 0b1100_0000;
    expected[1] = 0b0000_0001;
    assert_eq!(full.as_bytes(), &expected);
    assert_eq!(full.to_cube_state(), state);
}

#[test]
fn roundtrips_of_scrambled_cubes() {
    for length in [1usize, 3, 10, 40] {
        let mut cube = CubeState::new_solved();
        cube.execute_moves(&generate_scramble_sequence(length));
        let full = CompressedState::from_cube_state(&cube);
        assert_eq!(full.to_cube_state(), cube);
        assert_eq!(full.as_bytes().len(), 21);
        // Face turns leave the centres, so the short packing is enough.
        let outer = CompressedStateNoCenter::from_cube_state(&cube);
        assert_eq!(outer.to_cube_state(), cube);
        assert_eq!(outer.as_bytes().len(), 18);
    }
}

#[test]
fn bytes_in_and_out() {
    let mut cube = CubeState::new_solved();
    cube.execute_moves(&[CubeMove::F, CubeMove::L2, CubeMove::DPrime]);
    let full = CompressedState::from_cube_state(&cube);
    let again = CompressedState::from_bytes(*full.as_bytes());
    assert!(again == full);
    assert_eq!(again.to_cube_state(), cube);
    let outer = CompressedStateNoCenter::from_cube_state(&cube);
    let again = CompressedStateNoCenter::from_bytes(*outer.as_bytes());
    assert!(again == outer);
    assert_eq!(again.to_cube_state(), cube);
    // Any bytes unpack to some state: three bits a colour.
    let state = CompressedState::from_bytes([0xff; 21]).to_cube_state();
    assert_eq!(state.faces, [[7; 9]; 6]);
    let state = CompressedStateNoCenter::from_bytes([0xff; 18]).to_cube_state();
    for f in 0..6 {
        for p in 0..9 {
            assert_eq!(state.faces[f][p], if p == 4 { f as u8 } else { 7 });
        }
    }
}

#[test]
fn only_three_bits_of_a_colour_are_kept() {
    let mut state = CubeState::new_solved();
    state.faces[2][3] = 13;
    let back = CompressedState::from_cube_state(&state).to_cube_state();
    assert_eq!(back.faces[2][3], 5);
    let mut expected = state.clone();
    expected.faces[2][3] = 5;
    assert_eq!(back, expected);
}

#[test]
fn centres_are_not_kept_by_the_short_packing() {
    // Held another way the centres are elsewhere: the short packing puts
    // them back where they start.
    let mut cube = CubeState::new_solved();
    cube.execute_move(CubeMove::X);
    let back = CompressedStateNoCenter::from_cube_state(&cube).to_cube_state();
    assert_ne!(back, cube);
    for f in 0..6 {
        assert_eq!(back.faces[f][4], f as u8);
        for p in 0..9 {
            if p != 4 {
                assert_eq!(back.faces[f][p], cube.faces[f][p]);
            }
        }
    }
    let full = CompressedState::from_cube_state(&cube).to_cube_state();
    assert_eq!(full, cube);
}
