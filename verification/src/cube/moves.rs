//! The generators of the cube group and how each transforms a state.

use vstd::prelude::*;
use super::state::{CubeState, Facelets};

verus! {

/// The thirty-six moves: for each of the six faces, the three slices and the
/// three axes of the whole cube a quarter turn, the quarter turn the other
/// way (`Prime`) and the half turn (`2`).
#[derive(Debug, Clone, Copy, PartialEq, Eq, Structural)]
pub enum CubeMove {
    U,
    UPrime,
    U2,
    D,
    DPrime,
    D2,
    L,
    LPrime,
    L2,
    R,
    RPrime,
    R2,
    F,
    FPrime,
    F2,
    B,
    BPrime,
    B2,
    M,
    MPrime,
    M2,
    E,
    EPrime,
    E2,
    S,
    SPrime,
    S2,
    X,
    XPrime,
    X2,
    Y,
    YPrime,
    Y2,
    Z,
    ZPrime,
    Z2,
}

/// A face turned a quarter clockwise, seen from outside the cube.
pub open spec fn turn_cw(face: Seq<u8>) -> Seq<u8> {
    seq![face[6], face[3], face[0], face[7], face[4], face[1], face[8], face[5], face[2]]
}

/// A face turned a quarter counterclockwise.
pub open spec fn turn_ccw(face: Seq<u8>) -> Seq<u8> {
    seq![face[2], face[5], face[8], face[1], face[4], face[7], face[0], face[3], face[6]]
}

/// A face turned by a half.
pub open spec fn turn_half(face: Seq<u8>) -> Seq<u8> {
    turn_cw(turn_cw(face))
}

/// The whole cube turned about the axis through left and right, the way the
/// right face turns clockwise: front goes up, up goes back, back goes down.
#[verifier::opaque]
pub open spec fn rotate_x(s: Facelets) -> Facelets {
    seq![s[2], turn_ccw(s[1]), s[5], turn_cw(s[3]), turn_half(s[0]), turn_half(s[4])]
}

/// The whole cube turned about the axis through up and down, the way the up
/// face turns clockwise: right comes to the front, front goes left.
#[verifier::opaque]
pub open spec fn rotate_y(s: Facelets) -> Facelets {
    seq![turn_cw(s[0]), s[2], s[3], s[4], s[1], turn_ccw(s[5])]
}

/// The whole cube turned about the axis through front and back, the way the
/// front face turns clockwise: up goes right, right goes down.
#[verifier::opaque]
pub open spec fn rotate_z(s: Facelets) -> Facelets {
    seq![
        turn_cw(s[1]),
        turn_cw(s[5]),
        turn_cw(s[2]),
        turn_cw(s[0]),
        turn_ccw(s[4]),
        turn_cw(s[3]),
    ]
}

/// The front face turned a quarter clockwise, with the adjacent rows of the
/// up, right, down and left faces carried along.
#[verifier::opaque]
pub open spec fn front_cw(s: Facelets) -> Facelets {
    seq![
        s[0].update(6, s[1][8]).update(7, s[1][5]).update(8, s[1][2]),
        s[1].update(2, s[5][0]).update(5, s[5][1]).update(8, s[5][2]),
        turn_cw(s[2]),
        s[3].update(0, s[0][6]).update(3, s[0][7]).update(6, s[0][8]),
        s[4],
        s[5].update(0, s[3][6]).update(1, s[3][3]).update(2, s[3][0]),
    ]
}

/// The front face turned a quarter counterclockwise.
#[verifier::opaque]
pub open spec fn front_ccw(s: Facelets) -> Facelets {
    seq![
        s[0].update(6, s[3][0]).update(7, s[3][3]).update(8, s[3][6]),
        s[1].update(2, s[0][8]).update(5, s[0][7]).update(8, s[0][6]),
        turn_ccw(s[2]),
        s[3].update(0, s[5][2]).update(3, s[5][1]).update(6, s[5][0]),
        s[4],
        s[5].update(0, s[1][2]).update(1, s[1][5]).update(2, s[1][8]),
    ]
}

/// The whole cube turned by a half about the left-right axis.
pub open spec fn rotate_x2(s: Facelets) -> Facelets {
    rotate_x(rotate_x(s))
}

/// The whole cube turned about the left-right axis the other way: three quarters.
pub open spec fn rotate_x3(s: Facelets) -> Facelets {
    rotate_x(rotate_x(rotate_x(s)))
}

/// The whole cube turned by a half about the up-down axis.
pub open spec fn rotate_y2(s: Facelets) -> Facelets {
    rotate_y(rotate_y(s))
}

/// The whole cube turned about the up-down axis the other way: three quarters.
pub open spec fn rotate_y3(s: Facelets) -> Facelets {
    rotate_y(rotate_y(rotate_y(s)))
}

/// The whole cube turned by a half about the front-back axis.
pub open spec fn rotate_z2(s: Facelets) -> Facelets {
    rotate_z(rotate_z(s))
}

/// The whole cube turned about the front-back axis the other way: three quarters.
pub open spec fn rotate_z3(s: Facelets) -> Facelets {
    rotate_z(rotate_z(rotate_z(s)))
}

/// The front face turned by a half: two quarters.
pub open spec fn front_half(s: Facelets) -> Facelets {
    front_cw(front_cw(s))
}

/// What a turn of one face makes of a state.  The front face is turned as it
/// stands; any other face is brought to the front by a rotation of the whole
/// cube, turned there, and taken back.  Other moves leave the state.
pub open spec fn apply_face(s: Facelets, m: CubeMove) -> Facelets {
    match m {
        CubeMove::F => front_cw(s),
        CubeMove::FPrime => front_ccw(s),
        CubeMove::F2 => front_half(s),
        CubeMove::U => rotate_x(front_cw(rotate_x3(s))),
        CubeMove::UPrime => rotate_x(front_ccw(rotate_x3(s))),
        CubeMove::U2 => rotate_x(front_half(rotate_x3(s))),
        CubeMove::D => rotate_x3(front_cw(rotate_x(s))),
        CubeMove::DPrime => rotate_x3(front_ccw(rotate_x(s))),
        CubeMove::D2 => rotate_x3(front_half(rotate_x(s))),
        CubeMove::L => rotate_y(front_cw(rotate_y3(s))),
        CubeMove::LPrime => rotate_y(front_ccw(rotate_y3(s))),
        CubeMove::L2 => rotate_y(front_half(rotate_y3(s))),
        CubeMove::R => rotate_y3(front_cw(rotate_y(s))),
        CubeMove::RPrime => rotate_y3(front_ccw(rotate_y(s))),
        CubeMove::R2 => rotate_y3(front_half(rotate_y(s))),
        CubeMove::B => rotate_y2(front_cw(rotate_y2(s))),
        CubeMove::BPrime => rotate_y2(front_ccw(rotate_y2(s))),
        CubeMove::B2 => rotate_y2(front_half(rotate_y2(s))),
        _ => s,
    }
}

/// What a move makes of a state.  Only the front turn and the three
/// whole-cube rotations are given facelet by facelet.  A face turn is a front
/// turn seen from another side; a slice move is a rotation of the whole cube
/// with the two outer layers turned back.
pub open spec fn apply_move(s: Facelets, m: CubeMove) -> Facelets {
    match m {
        CubeMove::X => rotate_x(s),
        CubeMove::XPrime => rotate_x3(s),
        CubeMove::X2 => rotate_x2(s),
        CubeMove::Y => rotate_y(s),
        CubeMove::YPrime => rotate_y3(s),
        CubeMove::Y2 => rotate_y2(s),
        CubeMove::Z => rotate_z(s),
        CubeMove::ZPrime => rotate_z3(s),
        CubeMove::Z2 => rotate_z2(s),
        CubeMove::M => apply_face(apply_face(rotate_x3(s), CubeMove::R), CubeMove::LPrime),
        CubeMove::MPrime => apply_face(apply_face(rotate_x(s), CubeMove::RPrime), CubeMove::L),
        CubeMove::M2 => apply_face(apply_face(rotate_x2(s), CubeMove::R2), CubeMove::L2),
        CubeMove::E => apply_face(apply_face(rotate_y3(s), CubeMove::U), CubeMove::DPrime),
        CubeMove::EPrime => apply_face(apply_face(rotate_y(s), CubeMove::UPrime), CubeMove::D),
        CubeMove::E2 => apply_face(apply_face(rotate_y2(s), CubeMove::U2), CubeMove::D2),
        CubeMove::S => apply_face(apply_face(rotate_z(s), CubeMove::FPrime), CubeMove::B),
        CubeMove::SPrime => apply_face(apply_face(rotate_z3(s), CubeMove::F), CubeMove::BPrime),
        CubeMove::S2 => apply_face(apply_face(rotate_z2(s), CubeMove::F2), CubeMove::B2),
        _ => apply_face(s, m),
    }
}

/// The move that undoes `m`: the quarter turn the other way; a half turn
/// undoes itself.
pub open spec fn invert(m: CubeMove) -> CubeMove {
    match m {
        CubeMove::U => CubeMove::UPrime,
        CubeMove::UPrime => CubeMove::U,
        CubeMove::D => CubeMove::DPrime,
        CubeMove::DPrime => CubeMove::D,
        CubeMove::L => CubeMove::LPrime,
        CubeMove::LPrime => CubeMove::L,
        CubeMove::R => CubeMove::RPrime,
        CubeMove::RPrime => CubeMove::R,
        CubeMove::F => CubeMove::FPrime,
        CubeMove::FPrime => CubeMove::F,
        CubeMove::B => CubeMove::BPrime,
        CubeMove::BPrime => CubeMove::B,
        CubeMove::M => CubeMove::MPrime,
        CubeMove::MPrime => CubeMove::M,
        CubeMove::E => CubeMove::EPrime,
        CubeMove::EPrime => CubeMove::E,
        CubeMove::S => CubeMove::SPrime,
        CubeMove::SPrime => CubeMove::S,
        CubeMove::X => CubeMove::XPrime,
        CubeMove::XPrime => CubeMove::X,
        CubeMove::Y => CubeMove::YPrime,
        CubeMove::YPrime => CubeMove::Y,
        CubeMove::Z => CubeMove::ZPrime,
        CubeMove::ZPrime => CubeMove::Z,
        _ => m,
    }
}


/// The move that undoes `cube_move`: a quarter turn the other way; a half
/// turn is its own inverse.
pub fn invert_move(cube_move: CubeMove) -> (inverse: CubeMove)
    ensures
        inverse == invert(cube_move),
{
    match cube_move {
        CubeMove::U => CubeMove::UPrime,
        CubeMove::UPrime => CubeMove::U,
        CubeMove::D => CubeMove::DPrime,
        CubeMove::DPrime => CubeMove::D,
        CubeMove::L => CubeMove::LPrime,
        CubeMove::LPrime => CubeMove::L,
        CubeMove::R => CubeMove::RPrime,
        CubeMove::RPrime => CubeMove::R,
        CubeMove::F => CubeMove::FPrime,
        CubeMove::FPrime => CubeMove::F,
        CubeMove::B => CubeMove::BPrime,
        CubeMove::BPrime => CubeMove::B,
        CubeMove::M => CubeMove::MPrime,
        CubeMove::MPrime => CubeMove::M,
        CubeMove::E => CubeMove::EPrime,
        CubeMove::EPrime => CubeMove::E,
        CubeMove::S => CubeMove::SPrime,
        CubeMove::SPrime => CubeMove::S,
        CubeMove::X => CubeMove::XPrime,
        CubeMove::XPrime => CubeMove::X,
        CubeMove::Y => CubeMove::YPrime,
        CubeMove::YPrime => CubeMove::Y,
        CubeMove::Z => CubeMove::ZPrime,
        CubeMove::ZPrime => CubeMove::Z,
        CubeMove::U2 => CubeMove::U2,
        CubeMove::D2 => CubeMove::D2,
        CubeMove::L2 => CubeMove::L2,
        CubeMove::R2 => CubeMove::R2,
        CubeMove::F2 => CubeMove::F2,
        CubeMove::B2 => CubeMove::B2,
        CubeMove::M2 => CubeMove::M2,
        CubeMove::E2 => CubeMove::E2,
        CubeMove::S2 => CubeMove::S2,
        CubeMove::X2 => CubeMove::X2,
        CubeMove::Y2 => CubeMove::Y2,
        CubeMove::Z2 => CubeMove::Z2,
    }
}

/// The eighteen face turns: the moves that a search may make.  Rotations of
/// the whole cube change only how the cube is held, and slice moves are
/// left out with them.
pub const NON_ROTATION_MOVES: [CubeMove; 18] = [
    CubeMove::U, CubeMove::UPrime, CubeMove::U2,
    CubeMove::D, CubeMove::DPrime, CubeMove::D2,
    CubeMove::L, CubeMove::LPrime, CubeMove::L2,
    CubeMove::R, CubeMove::RPrime, CubeMove::R2,
    CubeMove::F, CubeMove::FPrime, CubeMove::F2,
    CubeMove::B, CubeMove::BPrime, CubeMove::B2,
];

/// How many layers of derived moves a move is built from: the execution of a
/// move only calls moves of a smaller rank.
pub open spec fn rank(m: CubeMove) -> nat {
    match m {
        CubeMove::F | CubeMove::FPrime | CubeMove::F2 => 0,
        CubeMove::X | CubeMove::Y | CubeMove::Z => 0,
        CubeMove::XPrime | CubeMove::X2 => 1,
        CubeMove::YPrime | CubeMove::Y2 => 1,
        CubeMove::ZPrime | CubeMove::Z2 => 1,
        CubeMove::M | CubeMove::MPrime | CubeMove::M2 => 3,
        CubeMove::E | CubeMove::EPrime | CubeMove::E2 => 3,
        CubeMove::S | CubeMove::SPrime | CubeMove::S2 => 3,
        _ => 2,
    }
}

impl CubeState {
    /// Turns one face a quarter clockwise; its neighbours stay.
    pub fn rotate_face_cw(&mut self, face: usize)
        requires
            face < 6,
        ensures
            final(self)@ == old(self)@.update(face as int, turn_cw(old(self)@[face as int])),
            forall|f: int| 0 <= f < 6 && f != face ==> final(self).faces[f] == old(self).faces[f],
            final(self).faces[face as int]@ == turn_cw(old(self).faces[face as int]@),
    {
        let temp = self.faces[face];
        self.faces[face] = [
            temp[6], temp[3], temp[0], temp[7], temp[4], temp[1], temp[8], temp[5], temp[2],
        ];
        assert(self@[face as int] =~= turn_cw(old(self)@[face as int]));
        assert(self@ =~= old(self)@.update(face as int, turn_cw(old(self)@[face as int])));
    }

    /// Turns one face a quarter counterclockwise; its neighbours stay.
    pub fn rotate_face_ccw(&mut self, face: usize)
        requires
            face < 6,
        ensures
            final(self)@ == old(self)@.update(face as int, turn_ccw(old(self)@[face as int])),
            forall|f: int| 0 <= f < 6 && f != face ==> final(self).faces[f] == old(self).faces[f],
            final(self).faces[face as int]@ == turn_ccw(old(self).faces[face as int]@),
    {
        let temp = self.faces[face];
        self.faces[face] = [
            temp[2], temp[5], temp[8], temp[1], temp[4], temp[7], temp[0], temp[3], temp[6],
        ];
        assert(self@[face as int] =~= turn_ccw(old(self)@[face as int]));
        assert(self@ =~= old(self)@.update(face as int, turn_ccw(old(self)@[face as int])));
    }

    /// Turns the whole cube about the left-right axis, as the right face turns clockwise.
    pub fn rotate_x(&mut self)
        ensures
            final(self)@ == rotate_x(old(self)@),
    {
        reveal(rotate_x);
        let temp_f = self.faces[2];
        self.faces[2] = self.faces[5];
        self.faces[5] = self.faces[4];
        self.faces[4] = self.faces[0];
        self.faces[0] = temp_f;
        self.rotate_face_cw(4);
        self.rotate_face_cw(4);
        self.rotate_face_cw(5);
        self.rotate_face_cw(5);
        self.rotate_face_cw(3);
        self.rotate_face_ccw(1);
        assert(self@ =~= rotate_x(old(self)@));
    }

    /// Turns the whole cube about the up-down axis, as the up face turns clockwise.
    pub fn rotate_y(&mut self)
        ensures
            final(self)@ == rotate_y(old(self)@),
    {
        reveal(rotate_y);
        let temp_f = self.faces[2];
        self.faces[2] = self.faces[3];
        self.faces[3] = self.faces[4];
        self.faces[4] = self.faces[1];
        self.faces[1] = temp_f;
        self.rotate_face_cw(0);
        self.rotate_face_ccw(5);
        assert(self@ =~= rotate_y(old(self)@));
    }

    /// Turns the whole cube about the front-back axis, as the front face turns clockwise.
    pub fn rotate_z(&mut self)
        ensures
            final(self)@ == rotate_z(old(self)@),
    {
        reveal(rotate_z);
        let temp_u = self.faces[0];
        self.faces[0] = self.faces[1];
        self.faces[1] = self.faces[5];
        self.faces[5] = self.faces[3];
        self.faces[3] = temp_u;
        self.rotate_face_cw(2);
        self.rotate_face_ccw(4);
        self.rotate_face_cw(0);
        self.rotate_face_cw(3);
        self.rotate_face_cw(5);
        self.rotate_face_cw(1);
        assert(self@ =~= rotate_z(old(self)@));
    }

    /// Turns the front face a quarter clockwise.
    pub fn move_f(&mut self)
        ensures
            final(self)@ == front_cw(old(self)@),
    {
        reveal(front_cw);
        self.rotate_face_cw(2);
        let temp = [self.faces[0][6], self.faces[0][7], self.faces[0][8]];
        self.faces[0][6] = self.faces[1][8];
        self.faces[0][7] = self.faces[1][5];
        self.faces[0][8] = self.faces[1][2];
        self.faces[1][2] = self.faces[5][0];
        self.faces[1][5] = self.faces[5][1];
        self.faces[1][8] = self.faces[5][2];
        self.faces[5][0] = self.faces[3][6];
        self.faces[5][1] = self.faces[3][3];
        self.faces[5][2] = self.faces[3][0];
        self.faces[3][0] = temp[0];
        self.faces[3][3] = temp[1];
        self.faces[3][6] = temp[2];
        proof {
            let t = front_cw(old(self)@);
            assert(self@[0] =~= t[0]);
            assert(self@[1] =~= t[1]);
            assert(self@[2] =~= t[2]);
            assert(self@[3] =~= t[3]);
            assert(self@[4] =~= t[4]);
            assert(self@[5] =~= t[5]);
            assert(self@ =~= t);
        }
    }

    /// Turns the front face a quarter counterclockwise.
    pub fn move_f_prime(&mut self)
        ensures
            final(self)@ == front_ccw(old(self)@),
    {
        reveal(front_ccw);
        self.rotate_face_ccw(2);
        let temp = [self.faces[0][6], self.faces[0][7], self.faces[0][8]];
        self.faces[0][6] = self.faces[3][0];
        self.faces[0][7] = self.faces[3][3];
        self.faces[0][8] = self.faces[3][6];
        self.faces[3][0] = self.faces[5][2];
        self.faces[3][3] = self.faces[5][1];
        self.faces[3][6] = self.faces[5][0];
        self.faces[5][0] = self.faces[1][2];
        self.faces[5][1] = self.faces[1][5];
        self.faces[5][2] = self.faces[1][8];
        self.faces[1][2] = temp[2];
        self.faces[1][5] = temp[1];
        self.faces[1][8] = temp[0];
        proof {
            let t = front_ccw(old(self)@);
            assert(self@[0] =~= t[0]);
            assert(self@[1] =~= t[1]);
            assert(self@[2] =~= t[2]);
            assert(self@[3] =~= t[3]);
            assert(self@[4] =~= t[4]);
            assert(self@[5] =~= t[5]);
            assert(self@ =~= t);
        }
    }

    /// Applies one move to the state.
    ///
    /// Every move is carried out through the front turn and the three
    /// rotations of the whole cube, as `apply_move` defines it.
    pub fn execute_move(&mut self, cube_move: CubeMove)
        ensures
            final(self)@ == apply_move(old(self)@, cube_move),
        decreases rank(cube_move),
    {
        match cube_move {
            CubeMove::U => {
                self.execute_move(CubeMove::XPrime);
                self.execute_move(CubeMove::F);
                self.execute_move(CubeMove::X);
            },
            CubeMove::UPrime => {
                self.execute_move(CubeMove::XPrime);
                self.execute_move(CubeMove::FPrime);
                self.execute_move(CubeMove::X);
            },
            CubeMove::U2 => {
                self.execute_move(CubeMove::XPrime);
                self.execute_move(CubeMove::F2);
                self.execute_move(CubeMove::X);
            },
            CubeMove::D => {
                self.execute_move(CubeMove::X);
                self.execute_move(CubeMove::F);
                self.execute_move(CubeMove::XPrime);
            },
            CubeMove::DPrime => {
                self.execute_move(CubeMove::X);
                self.execute_move(CubeMove::FPrime);
                self.execute_move(CubeMove::XPrime);
            },
            CubeMove::D2 => {
                self.execute_move(CubeMove::X);
                self.execute_move(CubeMove::F2);
                self.execute_move(CubeMove::XPrime);
            },
            CubeMove::L => {
                self.execute_move(CubeMove::YPrime);
                self.execute_move(CubeMove::F);
                self.execute_move(CubeMove::Y);
            },
            CubeMove::LPrime => {
                self.execute_move(CubeMove::YPrime);
                self.execute_move(CubeMove::FPrime);
                self.execute_move(CubeMove::Y);
            },
            CubeMove::L2 => {
                self.execute_move(CubeMove::YPrime);
                self.execute_move(CubeMove::F2);
                self.execute_move(CubeMove::Y);
            },
            CubeMove::R => {
                self.execute_move(CubeMove::Y);
                self.execute_move(CubeMove::F);
                self.execute_move(CubeMove::YPrime);
            },
            CubeMove::RPrime => {
                self.execute_move(CubeMove::Y);
                self.execute_move(CubeMove::FPrime);
                self.execute_move(CubeMove::YPrime);
            },
            CubeMove::R2 => {
                self.execute_move(CubeMove::Y);
                self.execute_move(CubeMove::F2);
                self.execute_move(CubeMove::YPrime);
            },
            CubeMove::F => self.move_f(),
            CubeMove::FPrime => self.move_f_prime(),
            CubeMove::F2 => {
                self.move_f();
                self.move_f();
            },
            CubeMove::B => {
                self.execute_move(CubeMove::Y2);
                self.execute_move(CubeMove::F);
                self.execute_move(CubeMove::Y2);
            },
            CubeMove::BPrime => {
                self.execute_move(CubeMove::Y2);
                self.execute_move(CubeMove::FPrime);
                self.execute_move(CubeMove::Y2);
            },
            CubeMove::B2 => {
                self.execute_move(CubeMove::Y2);
                self.execute_move(CubeMove::F2);
                self.execute_move(CubeMove::Y2);
            },
            CubeMove::M => {
                self.execute_move(CubeMove::XPrime);
                self.execute_move(CubeMove::R);
                self.execute_move(CubeMove::LPrime);
            },
            CubeMove::MPrime => {
                self.execute_move(CubeMove::X);
                self.execute_move(CubeMove::RPrime);
                self.execute_move(CubeMove::L);
            },
            CubeMove::M2 => {
                self.execute_move(CubeMove::X2);
                self.execute_move(CubeMove::R2);
                self.execute_move(CubeMove::L2);
            },
            CubeMove::E => {
                self.execute_move(CubeMove::YPrime);
                self.execute_move(CubeMove::U);
                self.execute_move(CubeMove::DPrime);
            },
            CubeMove::EPrime => {
                self.execute_move(CubeMove::Y);
                self.execute_move(CubeMove::UPrime);
                self.execute_move(CubeMove::D);
            },
            CubeMove::E2 => {
                self.execute_move(CubeMove::Y2);
                self.execute_move(CubeMove::U2);
                self.execute_move(CubeMove::D2);
            },
            CubeMove::S => {
                self.execute_move(CubeMove::Z);
                self.execute_move(CubeMove::FPrime);
                self.execute_move(CubeMove::B);
            },
            CubeMove::SPrime => {
                self.execute_move(CubeMove::ZPrime);
                self.execute_move(CubeMove::F);
                self.execute_move(CubeMove::BPrime);
            },
            CubeMove::S2 => {
                self.execute_move(CubeMove::Z2);
                self.execute_move(CubeMove::F2);
                self.execute_move(CubeMove::B2);
            },
            CubeMove::X => self.rotate_x(),
            CubeMove::XPrime => {
                self.execute_move(CubeMove::X);
                self.execute_move(CubeMove::X);
                self.execute_move(CubeMove::X);
            },
            CubeMove::X2 => {
                self.execute_move(CubeMove::X);
                self.execute_move(CubeMove::X);
            },
            CubeMove::Y => self.rotate_y(),
            CubeMove::YPrime => {
                self.execute_move(CubeMove::Y);
                self.execute_move(CubeMove::Y);
                self.execute_move(CubeMove::Y);
            },
            CubeMove::Y2 => {
                self.execute_move(CubeMove::Y);
                self.execute_move(CubeMove::Y);
            },
            CubeMove::Z => self.rotate_z(),
            CubeMove::ZPrime => {
                self.execute_move(CubeMove::Z);
                self.execute_move(CubeMove::Z);
                self.execute_move(CubeMove::Z);
            },
            CubeMove::Z2 => {
                self.execute_move(CubeMove::Z);
                self.execute_move(CubeMove::Z);
            },
        }
    }
}



} // verus!
