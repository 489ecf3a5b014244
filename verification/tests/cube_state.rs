use kubesolv_solvers::cube::moves::CubeMove;
use kubesolv_solvers::cube::state::CubeState;

#[test]
fn test_cube_initialization() {
    let cube = CubeState::new_solved();
    for (i, face) in cube.faces.iter().enumerate() {
        for &color in face.iter() {
            assert_eq!(color, i as u8);
        }
    }
}

#[test]
fn test_cube_rotation() {
    // Test that moves work - using F move as example
    let mut cube = CubeState::new_solved();

    // Do F move 4 times - should return to solved
    cube.execute_move(CubeMove::F);
    cube.execute_move(CubeMove::F);
    cube.execute_move(CubeMove::F);
    cube.execute_move(CubeMove::F);

    let solved = CubeState::new_solved();
    assert_eq!(cube, solved, "4\u{d7} F should return to solved state");
}

#[test]
fn test_cube_display() {
    let cube = CubeState::new_solved();
    println!("\nSolved cube:");
    println!("{}", cube.to_text());
    println!("\nColored display:");
    println!("{}", cube.format_colored());
}

#[test]
fn test_rotate_z_orientation() {
    // Create a cube with distinct values on U, R, D, L to track orientation
    let mut cube = CubeState::new_solved();
    for i in 0..9 {
        cube.faces[0][i] = 10 + i as u8; // U
        cube.faces[3][i] = 20 + i as u8; // R
        cube.faces[5][i] = 30 + i as u8; // D
        cube.faces[1][i] = 40 + i as u8; // L
    }

    let old_u = cube.faces[0].clone();
    let old_r = cube.faces[3].clone();
    let old_d = cube.faces[5].clone();
    let old_l = cube.faces[1].clone();

    // perform rotate_z (90 degrees clockwise around F)
    cube.execute_move(CubeMove::Z);

    // helper: rotate a face 90 degrees CW (same mapping as rotate_face_cw)
    let rotate_cw = |f: [u8; 9]| -> [u8; 9] {
        [f[6], f[3], f[0], f[7], f[4], f[1], f[8], f[5], f[2]]
    };

    // after rotate_z: old U -> R (rotated CW)
    assert_eq!(cube.faces[3], rotate_cw(old_u));
    // old R -> D
    assert_eq!(cube.faces[5], rotate_cw(old_r));
    // old D -> L
    assert_eq!(cube.faces[1], rotate_cw(old_d));
    // old L -> U
    assert_eq!(cube.faces[0], rotate_cw(old_l));
}

#[test]
fn solved_cube_in_letters() {
    let cube = CubeState::new_solved();
    let expected = "   WWW\n   WWW\n   WWW\nOOOGGGRRR\nOOOGGGRRR\nOOOGGGRRR\n   YYY\n   YYY\n   YYY\n   BBB\n   BBB\n   BBB\n";
    assert_eq!(cube.to_text(), expected);
}

#[test]
fn solved_cube_in_blocks() {
    let cube = CubeState::new_solved();
    let pad = "      \u{3000}\u{3000}\u{3000} ";
    let mut expected = String::new();
    for _ in 0..3 {
        expected.push_str(pad);
        expected.push_str("\u{2B1C}\u{2B1C}\u{2B1C}\n");
    }
    for _ in 0..3 {
        expected.push_str("      \u{1F7E7}\u{1F7E7}\u{1F7E7} \u{1F7E9}\u{1F7E9}\u{1F7E9} \u{1F7E5}\u{1F7E5}\u{1F7E5} \u{1F7E6}\u{1F7E6}\u{1F7E6}\n");
    }
    for _ in 0..3 {
        expected.push_str(pad);
        expected.push_str("\u{1F7E8}\u{1F7E8}\u{1F7E8}\n");
    }
    assert_eq!(cube.format_colored(), expected);
}

#[test]
fn names_and_blocks_of_colors() {
    let names = ["W", "O", "G", "R", "B", "Y"];
    let blocks = ["\u{2B1C}", "\u{1F7E7}", "\u{1F7E9}", "\u{1F7E5}", "\u{1F7E6}", "\u{1F7E8}"];
    for color in 0..6u8 {
        assert_eq!(CubeState::color_name(color), names[color as usize]);
        assert_eq!(CubeState::color_block(color), blocks[color as usize]);
    }
    assert_eq!(CubeState::color_name(6), "?");
    assert_eq!(CubeState::color_name(255), "?");
    assert_eq!(CubeState::color_block(6), "\u{2B1B}");
}

#[test]
fn letters_follow_the_facelets() {
    let mut cube = CubeState::new_solved();
    cube.execute_move(CubeMove::F);
    let expected = "   WWW\n   WWW\n   OOO\nOOYGGGWRR\nOOYGGGWRR\nOOYGGGWRR\n   RRR\n   YYY\n   YYY\n   BBB\n   BBB\n   BBB\n";
    assert_eq!(cube.to_text(), expected);
}
