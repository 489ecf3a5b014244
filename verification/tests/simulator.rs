use kubesolv_solvers::cube::moves::CubeMove;
use kubesolv_solvers::cube::state::CubeState;
use kubesolv_solvers::simulator::App;

#[test]
fn keys_turn_the_cube() {
    let keys = [
        ('u', CubeMove::U), ('U', CubeMove::UPrime), ('d', CubeMove::D), ('D', CubeMove::DPrime),
        ('l', CubeMove::L), ('L', CubeMove::LPrime), ('r', CubeMove::R), ('R', CubeMove::RPrime),
        ('f', CubeMove::F), ('F', CubeMove::FPrime), ('b', CubeMove::B), ('B', CubeMove::BPrime),
        ('m', CubeMove::M), ('M', CubeMove::MPrime), ('e', CubeMove::E), ('E', CubeMove::EPrime),
        ('s', CubeMove::S), ('S', CubeMove::SPrime), ('x', CubeMove::X), ('X', CubeMove::XPrime),
        ('y', CubeMove::Y), ('Y', CubeMove::YPrime), ('z', CubeMove::Z), ('Z', CubeMove::ZPrime),
    ];
    for (key, mv) in keys {
        let mut app = App::new();
        assert!(app.handle_key(key));
        let mut expected = CubeState::new_solved();
        expected.execute_move(mv);
        assert_eq!(app.cube, expected, "key {:?}", key);
    }
}

#[test]
fn other_keys() {
    let mut app = App::new();
    assert_eq!(app.cube, CubeState::new_solved());
    assert!(app.handle_key('r'));
    let turned = app.cube.clone();
    assert!(app.handle_key('k'));
    assert!(app.handle_key('2'));
    assert_eq!(app.cube, turned);
    assert!(!app.handle_key('q'));
    assert_eq!(app.cube, turned);
    assert!(app.handle_key('c'));
    assert_eq!(app.cube, CubeState::new_solved());
}
