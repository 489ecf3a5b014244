//! The final goal: every face shows one colour.

use vstd::prelude::*;
use crate::cube::state::{CubeState, Facelets};

verus! {

/// Facelet `p` of face `f` shows the colour of that face's centre.
pub open spec fn matches_center(s: Facelets, f: int, p: int) -> bool {
    s[f][p] == s[f][4]
}

/// Every facelet shows the colour of the centre of its face.
pub open spec fn is_solved(s: Facelets) -> bool {
    forall|f: int, p: int| 0 <= f < 6 && 0 <= p < 9 ==> #[trigger] matches_center(s, f, p)
}

impl CubeState {
    /// Whether the cube is solved, in whatever orientation it is held.
    pub fn solved(&self) -> (done: bool)
        ensures
            done == is_solved(self@),
    {
        let mut f: usize = 0;
        while f < 6
            invariant
                f <= 6,
                forall|g: int, p: int| 0 <= g < f && 0 <= p < 9 ==> #[trigger] matches_center(self@, g, p),
            decreases 6 - f,
        {
            let color = self.faces[f][4];
            let mut p: usize = 0;
            while p < 9
                invariant
                    f < 6,
                    p <= 9,
                    color == self@[f as int][4],
                    forall|q: int| 0 <= q < p ==> #[trigger] matches_center(self@, f as int, q),
                decreases 9 - p,
            {
                if self.faces[f][p] != color {
                    assert(!matches_center(self@, f as int, p as int));
                    return false;
                }
                p += 1;
            }
            f += 1;
        }
        true
    }
}

} // verus!
