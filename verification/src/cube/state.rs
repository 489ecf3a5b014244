//! The state of a cube: six faces of nine facelets each.

use vstd::prelude::*;

verus! {

/// The mathematical model of a state: six sequences of nine colours, indexed
/// first by face (0 up, 1 left, 2 front, 3 right, 4 back, 5 down) and then by
/// position on the face, row by row.
pub type Facelets = Seq<Seq<u8>>;

/// A sequence is the model of some state exactly when it has the 6 x 9 shape.
pub open spec fn well_formed(s: Facelets) -> bool {
    &&& s.len() == 6
    &&& forall|f: int| 0 <= f < 6 ==> (#[trigger] s[f]).len() == 9
}

/// The model of the solved cube in its initial orientation: face `f` shows
/// colour `f` on all of its nine facelets.
pub open spec fn solved_facelets() -> Facelets {
    Seq::new(6, |f: int| Seq::new(9, |p: int| f as u8))
}

/// A state of the cube: the colour of each of its fifty-four facelets.  Two
/// states are equal when they show the same colours in the same places.
#[derive(Clone, Copy, Debug, PartialEq, Eq, Hash)]
pub struct CubeState {
    /// Face layout: 0=U(Up), 1=L(Left), 2=F(Front), 3=R(Right), 4=B(Back), 5=D(Down)
    pub faces: [[u8; 9]; 6],
}

impl View for CubeState {
    type V = Facelets;

    open spec fn view(&self) -> Facelets {
        Seq::new(6, |f: int| self.faces[f]@)
    }
}

impl CubeState {
    /// A solved cube in the initial orientation.
    pub fn new_solved() -> (cube: CubeState)
        ensures
            cube@ == solved_facelets(),
    {
        let cube = CubeState {
            faces: [[0; 9], [1; 9], [2; 9], [3; 9], [4; 9], [5; 9]],
        };
        assert forall|f: int| 0 <= f < 6 implies #[trigger] cube@[f] == solved_facelets()[f] by {
            assert(cube@[f] =~= solved_facelets()[f]);
        }
        assert(cube@ =~= solved_facelets());
        cube
    }
}

/// Every state has a well-formed model.
pub proof fn lemma_view_well_formed(cube: CubeState)
    ensures
        well_formed(cube@),
{
}

/// Two states with the same model are the same state.
pub proof fn lemma_view_injective(a: CubeState, b: CubeState)
    requires
        a@ == b@,
    ensures
        a == b,
{
    assert forall|f: int| 0 <= f < 6 implies a.faces[f] == b.faces[f] by {
        assert(a@[f] == b@[f]);
        assert(a.faces[f] =~= b.faces[f]);
    }
    assert(a.faces =~= b.faces);
}

} // verus!
