//! Every move as a permutation of the fifty-four facelets.
//!
//! A table gives, for each place on the cube, the place from which the move
//! brings a facelet there.  Places are numbered face by face: place `p` of
//! face `f` has the number `9 * f + p`.

use vstd::prelude::*;
use super::moves::{CubeMove, apply_move, front_ccw, front_cw, rotate_x, rotate_y, rotate_z};
use super::state::{Facelets, well_formed};

verus! {

pub const TABLE_U: [u8; 54] = [
    6, 3, 0, 7, 4, 1, 8, 5, 2,
    18, 19, 20, 12, 13, 14, 15, 16, 17,
    27, 28, 29, 21, 22, 23, 24, 25, 26,
    36, 37, 38, 30, 31, 32, 33, 34, 35,
    9, 10, 11, 39, 40, 41, 42, 43, 44,
    45, 46, 47, 48, 49, 50, 51, 52, 53,
];

pub const TABLE_U_PRIME: [u8; 54] = [
    2, 5, 8, 1, 4, 7, 0, 3, 6,
    36, 37, 38, 12, 13, 14, 15, 16, 17,
    9, 10, 11, 21, 22, 23, 24, 25, 26,
    18, 19, 20, 30, 31, 32, 33, 34, 35,
    27, 28, 29, 39, 40, 41, 42, 43, 44,
    45, 46, 47, 48, 49, 50, 51, 52, 53,
];

pub const TABLE_U2: [u8; 54] = [
    8, 7, 6, 5, 4, 3, 2, 1, 0,
    27, 28, 29, 12, 13, 14, 15, 16, 17,
    36, 37, 38, 21, 22, 23, 24, 25, 26,
    9, 10, 11, 30, 31, 32, 33, 34, 35,
    18, 19, 20, 39, 40, 41, 42, 43, 44,
    45, 46, 47, 48, 49, 50, 51, 52, 53,
];

pub const TABLE_D: [u8; 54] = [
    0, 1, 2, 3, 4, 5, 6, 7, 8,
    9, 10, 11, 12, 13, 14, 42, 43, 44,
    18, 19, 20, 21, 22, 23, 15, 16, 17,
    27, 28, 29, 30, 31, 32, 24, 25, 26,
    36, 37, 38, 39, 40, 41, 33, 34, 35,
    51, 48, 45, 52, 49, 46, 53, 50, 47,
];

pub const TABLE_D_PRIME: [u8; 54] = [
    0, 1, 2, 3, 4, 5, 6, 7, 8,
    9, 10, 11, 12, 13, 14, 24, 25, 26,
    18, 19, 20, 21, 22, 23, 33, 34, 35,
    27, 28, 29, 30, 31, 32, 42, 43, 44,
    36, 37, 38, 39, 40, 41, 15, 16, 17,
    47, 50, 53, 46, 49, 52, 45, 48, 51,
];

pub const TABLE_D2: [u8; 54] = [
    0, 1, 2, 3, 4, 5, 6, 7, 8,
    9, 10, 11, 12, 13, 14, 33, 34, 35,
    18, 19, 20, 21, 22, 23, 42, 43, 44,
    27, 28, 29, 30, 31, 32, 15, 16, 17,
    36, 37, 38, 39, 40, 41, 24, 25, 26,
    53, 52, 51, 50, 49, 48, 47, 46, 45,
];

pub const TABLE_L: [u8; 54] = [
    44, 1, 2, 41, 4, 5, 38, 7, 8,
    15, 12, 9, 16, 13, 10, 17, 14, 11,
    0, 19, 20, 3, 22, 23, 6, 25, 26,
    27, 28, 29, 30, 31, 32, 33, 34, 35,
    36, 37, 51, 39, 40, 48, 42, 43, 45,
    18, 46, 47, 21, 49, 50, 24, 52, 53,
];

pub const TABLE_L_PRIME: [u8; 54] = [
    18, 1, 2, 21, 4, 5, 24, 7, 8,
    11, 14, 17, 10, 13, 16, 9, 12, 15,
    45, 19, 20, 48, 22, 23, 51, 25, 26,
    27, 28, 29, 30, 31, 32, 33, 34, 35,
    36, 37, 6, 39, 40, 3, 42, 43, 0,
    44, 46, 47, 41, 49, 50, 38, 52, 53,
];

pub const TABLE_L2: [u8; 54] = [
    45, 1, 2, 48, 4, 5, 51, 7, 8,
    17, 16, 15, 14, 13, 12, 11, 10, 9,
    44, 19, 20, 41, 22, 23, 38, 25, 26,
    27, 28, 29, 30, 31, 32, 33, 34, 35,
    36, 37, 24, 39, 40, 21, 42, 43, 18,
    0, 46, 47, 3, 49, 50, 6, 52, 53,
];

pub const TABLE_R: [u8; 54] = [
    0, 1, 20, 3, 4, 23, 6, 7, 26,
    9, 10, 11, 12, 13, 14, 15, 16, 17,
    18, 19, 47, 21, 22, 50, 24, 25, 53,
    33, 30, 27, 34, 31, 28, 35, 32, 29,
    8, 37, 38, 5, 40, 41, 2, 43, 44,
    45, 46, 42, 48, 49, 39, 51, 52, 36,
];

pub const TABLE_R_PRIME: [u8; 54] = [
    0, 1, 42, 3, 4, 39, 6, 7, 36,
    9, 10, 11, 12, 13, 14, 15, 16, 17,
    18, 19, 2, 21, 22, 5, 24, 25, 8,
    29, 32, 35, 28, 31, 34, 27, 30, 33,
    53, 37, 38, 50, 40, 41, 47, 43, 44,
    45, 46, 20, 48, 49, 23, 51, 52, 26,
];

pub const TABLE_R2: [u8; 54] = [
    0, 1, 47, 3, 4, 50, 6, 7, 53,
    9, 10, 11, 12, 13, 14, 15, 16, 17,
    18, 19, 42, 21, 22, 39, 24, 25, 36,
    35, 34, 33, 32, 31, 30, 29, 28, 27,
    26, 37, 38, 23, 40, 41, 20, 43, 44,
    45, 46, 2, 48, 49, 5, 51, 52, 8,
];

pub const TABLE_F: [u8; 54] = [
    0, 1, 2, 3, 4, 5, 17, 14, 11,
    9, 10, 45, 12, 13, 46, 15, 16, 47,
    24, 21, 18, 25, 22, 19, 26, 23, 20,
    6, 28, 29, 7, 31, 32, 8, 34, 35,
    36, 37, 38, 39, 40, 41, 42, 43, 44,
    33, 30, 27, 48, 49, 50, 51, 52, 53,
];

pub const TABLE_F_PRIME: [u8; 54] = [
    0, 1, 2, 3, 4, 5, 27, 30, 33,
    9, 10, 8, 12, 13, 7, 15, 16, 6,
    20, 23, 26, 19, 22, 25, 18, 21, 24,
    47, 28, 29, 46, 31, 32, 45, 34, 35,
    36, 37, 38, 39, 40, 41, 42, 43, 44,
    11, 14, 17, 48, 49, 50, 51, 52, 53,
];

pub const TABLE_F2: [u8; 54] = [
    0, 1, 2, 3, 4, 5, 47, 46, 45,
    9, 10, 33, 12, 13, 30, 15, 16, 27,
    26, 25, 24, 23, 22, 21, 20, 19, 18,
    17, 28, 29, 14, 31, 32, 11, 34, 35,
    36, 37, 38, 39, 40, 41, 42, 43, 44,
    8, 7, 6, 48, 49, 50, 51, 52, 53,
];

pub const TABLE_B: [u8; 54] = [
    29, 32, 35, 3, 4, 5, 6, 7, 8,
    2, 10, 11, 1, 13, 14, 0, 16, 17,
    18, 19, 20, 21, 22, 23, 24, 25, 26,
    27, 28, 53, 30, 31, 52, 33, 34, 51,
    42, 39, 36, 43, 40, 37, 44, 41, 38,
    45, 46, 47, 48, 49, 50, 9, 12, 15,
];

pub const TABLE_B_PRIME: [u8; 54] = [
    15, 12, 9, 3, 4, 5, 6, 7, 8,
    51, 10, 11, 52, 13, 14, 53, 16, 17,
    18, 19, 20, 21, 22, 23, 24, 25, 26,
    27, 28, 0, 30, 31, 1, 33, 34, 2,
    38, 41, 44, 37, 40, 43, 36, 39, 42,
    45, 46, 47, 48, 49, 50, 35, 32, 29,
];

pub const TABLE_B2: [u8; 54] = [
    53, 52, 51, 3, 4, 5, 6, 7, 8,
    35, 10, 11, 32, 13, 14, 29, 16, 17,
    18, 19, 20, 21, 22, 23, 24, 25, 26,
    27, 28, 15, 30, 31, 12, 33, 34, 9,
    44, 43, 42, 41, 40, 39, 38, 37, 36,
    45, 46, 47, 48, 49, 50, 2, 1, 0,
];

pub const TABLE_M: [u8; 54] = [
    0, 43, 2, 3, 40, 5, 6, 37, 8,
    9, 10, 11, 12, 13, 14, 15, 16, 17,
    18, 1, 20, 21, 4, 23, 24, 7, 26,
    27, 28, 29, 30, 31, 32, 33, 34, 35,
    36, 52, 38, 39, 49, 41, 42, 46, 44,
    45, 19, 47, 48, 22, 50, 51, 25, 53,
];

pub const TABLE_M_PRIME: [u8; 54] = [
    0, 19, 2, 3, 22, 5, 6, 25, 8,
    9, 10, 11, 12, 13, 14, 15, 16, 17,
    18, 46, 20, 21, 49, 23, 24, 52, 26,
    27, 28, 29, 30, 31, 32, 33, 34, 35,
    36, 7, 38, 39, 4, 41, 42, 1, 44,
    45, 43, 47, 48, 40, 50, 51, 37, 53,
];

pub const TABLE_M2: [u8; 54] = [
    0, 46, 2, 3, 49, 5, 6, 52, 8,
    9, 10, 11, 12, 13, 14, 15, 16, 17,
    18, 43, 20, 21, 40, 23, 24, 37, 26,
    27, 28, 29, 30, 31, 32, 33, 34, 35,
    36, 25, 38, 39, 22, 41, 42, 19, 44,
    45, 1, 47, 48, 4, 50, 51, 7, 53,
];

pub const TABLE_E: [u8; 54] = [
    0, 1, 2, 3, 4, 5, 6, 7, 8,
    9, 10, 11, 39, 40, 41, 15, 16, 17,
    18, 19, 20, 12, 13, 14, 24, 25, 26,
    27, 28, 29, 21, 22, 23, 33, 34, 35,
    36, 37, 38, 30, 31, 32, 42, 43, 44,
    45, 46, 47, 48, 49, 50, 51, 52, 53,
];

pub const TABLE_E_PRIME: [u8; 54] = [
    0, 1, 2, 3, 4, 5, 6, 7, 8,
    9, 10, 11, 21, 22, 23, 15, 16, 17,
    18, 19, 20, 30, 31, 32, 24, 25, 26,
    27, 28, 29, 39, 40, 41, 33, 34, 35,
    36, 37, 38, 12, 13, 14, 42, 43, 44,
    45, 46, 47, 48, 49, 50, 51, 52, 53,
];

pub const TABLE_E2: [u8; 54] = [
    0, 1, 2, 3, 4, 5, 6, 7, 8,
    9, 10, 11, 30, 31, 32, 15, 16, 17,
    18, 19, 20, 39, 40, 41, 24, 25, 26,
    27, 28, 29, 12, 13, 14, 33, 34, 35,
    36, 37, 38, 21, 22, 23, 42, 43, 44,
    45, 46, 47, 48, 49, 50, 51, 52, 53,
];

pub const TABLE_S: [u8; 54] = [
    0, 1, 2, 16, 13, 10, 6, 7, 8,
    9, 48, 11, 12, 49, 14, 15, 50, 17,
    18, 19, 20, 21, 22, 23, 24, 25, 26,
    27, 3, 29, 30, 4, 32, 33, 5, 35,
    36, 37, 38, 39, 40, 41, 42, 43, 44,
    45, 46, 47, 34, 31, 28, 51, 52, 53,
];

pub const TABLE_S_PRIME: [u8; 54] = [
    0, 1, 2, 28, 31, 34, 6, 7, 8,
    9, 5, 11, 12, 4, 14, 15, 3, 17,
    18, 19, 20, 21, 22, 23, 24, 25, 26,
    27, 50, 29, 30, 49, 32, 33, 48, 35,
    36, 37, 38, 39, 40, 41, 42, 43, 44,
    45, 46, 47, 10, 13, 16, 51, 52, 53,
];

pub const TABLE_S2: [u8; 54] = [
    0, 1, 2, 50, 49, 48, 6, 7, 8,
    9, 34, 11, 12, 31, 14, 15, 28, 17,
    18, 19, 20, 21, 22, 23, 24, 25, 26,
    27, 16, 29, 30, 13, 32, 33, 10, 35,
    36, 37, 38, 39, 40, 41, 42, 43, 44,
    45, 46, 47, 5, 4, 3, 51, 52, 53,
];

pub const TABLE_X: [u8; 54] = [
    18, 19, 20, 21, 22, 23, 24, 25, 26,
    11, 14, 17, 10, 13, 16, 9, 12, 15,
    45, 46, 47, 48, 49, 50, 51, 52, 53,
    33, 30, 27, 34, 31, 28, 35, 32, 29,
    8, 7, 6, 5, 4, 3, 2, 1, 0,
    44, 43, 42, 41, 40, 39, 38, 37, 36,
];

pub const TABLE_X_PRIME: [u8; 54] = [
    44, 43, 42, 41, 40, 39, 38, 37, 36,
    15, 12, 9, 16, 13, 10, 17, 14, 11,
    0, 1, 2, 3, 4, 5, 6, 7, 8,
    29, 32, 35, 28, 31, 34, 27, 30, 33,
    53, 52, 51, 50, 49, 48, 47, 46, 45,
    18, 19, 20, 21, 22, 23, 24, 25, 26,
];

pub const TABLE_X2: [u8; 54] = [
    45, 46, 47, 48, 49, 50, 51, 52, 53,
    17, 16, 15, 14, 13, 12, 11, 10, 9,
    44, 43, 42, 41, 40, 39, 38, 37, 36,
    35, 34, 33, 32, 31, 30, 29, 28, 27,
    26, 25, 24, 23, 22, 21, 20, 19, 18,
    0, 1, 2, 3, 4, 5, 6, 7, 8,
];

pub const TABLE_Y: [u8; 54] = [
    6, 3, 0, 7, 4, 1, 8, 5, 2,
    18, 19, 20, 21, 22, 23, 24, 25, 26,
    27, 28, 29, 30, 31, 32, 33, 34, 35,
    36, 37, 38, 39, 40, 41, 42, 43, 44,
    9, 10, 11, 12, 13, 14, 15, 16, 17,
    47, 50, 53, 46, 49, 52, 45, 48, 51,
];

pub const TABLE_Y_PRIME: [u8; 54] = [
    2, 5, 8, 1, 4, 7, 0, 3, 6,
    36, 37, 38, 39, 40, 41, 42, 43, 44,
    9, 10, 11, 12, 13, 14, 15, 16, 17,
    18, 19, 20, 21, 22, 23, 24, 25, 26,
    27, 28, 29, 30, 31, 32, 33, 34, 35,
    51, 48, 45, 52, 49, 46, 53, 50, 47,
];

pub const TABLE_Y2: [u8; 54] = [
    8, 7, 6, 5, 4, 3, 2, 1, 0,
    27, 28, 29, 30, 31, 32, 33, 34, 35,
    36, 37, 38, 39, 40, 41, 42, 43, 44,
    9, 10, 11, 12, 13, 14, 15, 16, 17,
    18, 19, 20, 21, 22, 23, 24, 25, 26,
    53, 52, 51, 50, 49, 48, 47, 46, 45,
];

pub const TABLE_Z: [u8; 54] = [
    15, 12, 9, 16, 13, 10, 17, 14, 11,
    51, 48, 45, 52, 49, 46, 53, 50, 47,
    24, 21, 18, 25, 22, 19, 26, 23, 20,
    6, 3, 0, 7, 4, 1, 8, 5, 2,
    38, 41, 44, 37, 40, 43, 36, 39, 42,
    33, 30, 27, 34, 31, 28, 35, 32, 29,
];

pub const TABLE_Z_PRIME: [u8; 54] = [
    29, 32, 35, 28, 31, 34, 27, 30, 33,
    2, 5, 8, 1, 4, 7, 0, 3, 6,
    20, 23, 26, 19, 22, 25, 18, 21, 24,
    47, 50, 53, 46, 49, 52, 45, 48, 51,
    42, 39, 36, 43, 40, 37, 44, 41, 38,
    11, 14, 17, 10, 13, 16, 9, 12, 15,
];

pub const TABLE_Z2: [u8; 54] = [
    53, 52, 51, 50, 49, 48, 47, 46, 45,
    35, 34, 33, 32, 31, 30, 29, 28, 27,
    26, 25, 24, 23, 22, 21, 20, 19, 18,
    17, 16, 15, 14, 13, 12, 11, 10, 9,
    44, 43, 42, 41, 40, 39, 38, 37, 36,
    8, 7, 6, 5, 4, 3, 2, 1, 0,
];

/// The table under which every facelet stays where it is.
pub const TABLE_IDENTITY: [u8; 54] = [
    0, 1, 2, 3, 4, 5, 6, 7, 8,
    9, 10, 11, 12, 13, 14, 15, 16, 17,
    18, 19, 20, 21, 22, 23, 24, 25, 26,
    27, 28, 29, 30, 31, 32, 33, 34, 35,
    36, 37, 38, 39, 40, 41, 42, 43, 44,
    45, 46, 47, 48, 49, 50, 51, 52, 53,
];

/// The table of a move.
pub open spec fn table_of(m: CubeMove) -> [u8; 54] {
    match m {
        CubeMove::U => TABLE_U,
        CubeMove::UPrime => TABLE_U_PRIME,
        CubeMove::U2 => TABLE_U2,
        CubeMove::D => TABLE_D,
        CubeMove::DPrime => TABLE_D_PRIME,
        CubeMove::D2 => TABLE_D2,
        CubeMove::L => TABLE_L,
        CubeMove::LPrime => TABLE_L_PRIME,
        CubeMove::L2 => TABLE_L2,
        CubeMove::R => TABLE_R,
        CubeMove::RPrime => TABLE_R_PRIME,
        CubeMove::R2 => TABLE_R2,
        CubeMove::F => TABLE_F,
        CubeMove::FPrime => TABLE_F_PRIME,
        CubeMove::F2 => TABLE_F2,
        CubeMove::B => TABLE_B,
        CubeMove::BPrime => TABLE_B_PRIME,
        CubeMove::B2 => TABLE_B2,
        CubeMove::M => TABLE_M,
        CubeMove::MPrime => TABLE_M_PRIME,
        CubeMove::M2 => TABLE_M2,
        CubeMove::E => TABLE_E,
        CubeMove::EPrime => TABLE_E_PRIME,
        CubeMove::E2 => TABLE_E2,
        CubeMove::S => TABLE_S,
        CubeMove::SPrime => TABLE_S_PRIME,
        CubeMove::S2 => TABLE_S2,
        CubeMove::X => TABLE_X,
        CubeMove::XPrime => TABLE_X_PRIME,
        CubeMove::X2 => TABLE_X2,
        CubeMove::Y => TABLE_Y,
        CubeMove::YPrime => TABLE_Y_PRIME,
        CubeMove::Y2 => TABLE_Y2,
        CubeMove::Z => TABLE_Z,
        CubeMove::ZPrime => TABLE_Z_PRIME,
        CubeMove::Z2 => TABLE_Z2,
    }
}

/// A table names a place of the cube for each of the fifty-four places.
pub open spec fn is_table(t: [u8; 54]) -> bool {
    forall|i: int| 0 <= i < 54 ==> #[trigger] t[i] < 54
}

/// The facelets moved as a table says: the facelet at place `i` comes from
/// place `t[i]`.
pub open spec fn permute(s: Facelets, t: [u8; 54]) -> Facelets {
    Seq::new(6, |f: int| Seq::new(9, |p: int| s[t[9 * f + p] as int / 9][t[9 * f + p] as int % 9]))
}

/// Two moves in a row, each by its table, move by the one table `all` if
/// `all` sends each place where the two send it in turn.
pub proof fn lemma_two_tables(s: Facelets, a: [u8; 54], b: [u8; 54], all: [u8; 54])
    requires
        is_table(b),
        forall|i: int| 0 <= i < 54 ==> #[trigger] all[i] == a[b[i] as int],
    ensures
        permute(permute(s, a), b) == permute(s, all),
{
    let left = permute(permute(s, a), b);
    let right = permute(s, all);
    assert forall|f: int| 0 <= f < 6 implies #[trigger] left[f] == right[f] by {
        assert forall|p: int| 0 <= p < 9 implies left[f][p] == right[f][p] by {
            let j = b[9 * f + p] as int;
            assert(9 * (j / 9) + j % 9 == j);
        }
        assert(left[f] =~= right[f]);
    }
    assert(left =~= right);
}

/// Three moves in a row, each by its table, move by the one table `all` if
/// `all` sends each place where the three send it in turn.
pub proof fn lemma_three_tables(s: Facelets, a: [u8; 54], b: [u8; 54], c: [u8; 54], all: [u8; 54])
    requires
        is_table(b),
        is_table(c),
        forall|i: int| 0 <= i < 54 ==> #[trigger] all[i] == a[b[c[i] as int] as int],
    ensures
        permute(permute(permute(s, a), b), c) == permute(s, all),
{
    let left = permute(permute(permute(s, a), b), c);
    let right = permute(s, all);
    assert forall|f: int| 0 <= f < 6 implies #[trigger] left[f] == right[f] by {
        assert forall|p: int| 0 <= p < 9 implies left[f][p] == right[f][p] by {
            let j = c[9 * f + p] as int;
            assert(9 * (j / 9) + j % 9 == j);
            let k = b[j] as int;
            assert(9 * (k / 9) + k % 9 == k);
        }
        assert(left[f] =~= right[f]);
    }
    assert(left =~= right);
}

/// A table that sends every place to itself leaves a state as it is.
pub proof fn lemma_identity_table(s: Facelets, t: [u8; 54])
    requires
        well_formed(s),
        forall|i: int| 0 <= i < 54 ==> #[trigger] t[i] == i,
    ensures
        permute(s, t) == s,
{
    let moved = permute(s, t);
    assert forall|f: int| 0 <= f < 6 implies #[trigger] moved[f] == s[f] by {
        assert forall|p: int| 0 <= p < 9 implies moved[f][p] == s[f][p] by {
            assert(t[9 * f + p] == 9 * f + p);
            assert((9 * f + p) / 9 == f && (9 * f + p) % 9 == p);
        }
        assert(moved[f] =~= s[f]);
    }
    assert(moved =~= s);
}

proof fn lemma_table_x(s: Facelets)
    requires
        well_formed(s),
    ensures
        rotate_x(s) == permute(s, TABLE_X),
{
    reveal(rotate_x);
    let moved = rotate_x(s);
    let by_table = permute(s, TABLE_X);
    assert(moved[0] =~= by_table[0]);
    assert(moved[1] =~= by_table[1]);
    assert(moved[2] =~= by_table[2]);
    assert(moved[3] =~= by_table[3]);
    assert(moved[4] =~= by_table[4]);
    assert(moved[5] =~= by_table[5]);
    assert(moved =~= by_table);
}

proof fn lemma_table_y(s: Facelets)
    requires
        well_formed(s),
    ensures
        rotate_y(s) == permute(s, TABLE_Y),
{
    reveal(rotate_y);
    let moved = rotate_y(s);
    let by_table = permute(s, TABLE_Y);
    assert(moved[0] =~= by_table[0]);
    assert(moved[1] =~= by_table[1]);
    assert(moved[2] =~= by_table[2]);
    assert(moved[3] =~= by_table[3]);
    assert(moved[4] =~= by_table[4]);
    assert(moved[5] =~= by_table[5]);
    assert(moved =~= by_table);
}

proof fn lemma_table_z(s: Facelets)
    requires
        well_formed(s),
    ensures
        rotate_z(s) == permute(s, TABLE_Z),
{
    reveal(rotate_z);
    let moved = rotate_z(s);
    let by_table = permute(s, TABLE_Z);
    assert(moved[0] =~= by_table[0]);
    assert(moved[1] =~= by_table[1]);
    assert(moved[2] =~= by_table[2]);
    assert(moved[3] =~= by_table[3]);
    assert(moved[4] =~= by_table[4]);
    assert(moved[5] =~= by_table[5]);
    assert(moved =~= by_table);
}

proof fn lemma_table_f(s: Facelets)
    requires
        well_formed(s),
    ensures
        front_cw(s) == permute(s, TABLE_F),
{
    reveal(front_cw);
    let moved = front_cw(s);
    let by_table = permute(s, TABLE_F);
    assert(moved[0] =~= by_table[0]);
    assert(moved[1] =~= by_table[1]);
    assert(moved[2] =~= by_table[2]);
    assert(moved[3] =~= by_table[3]);
    assert(moved[4] =~= by_table[4]);
    assert(moved[5] =~= by_table[5]);
    assert(moved =~= by_table);
}

proof fn lemma_table_f_prime(s: Facelets)
    requires
        well_formed(s),
    ensures
        front_ccw(s) == permute(s, TABLE_F_PRIME),
{
    reveal(front_ccw);
    let moved = front_ccw(s);
    let by_table = permute(s, TABLE_F_PRIME);
    assert(moved[0] =~= by_table[0]);
    assert(moved[1] =~= by_table[1]);
    assert(moved[2] =~= by_table[2]);
    assert(moved[3] =~= by_table[3]);
    assert(moved[4] =~= by_table[4]);
    assert(moved[5] =~= by_table[5]);
    assert(moved =~= by_table);
}

proof fn lemma_table_u(s: Facelets)
    requires
        well_formed(s),
    ensures
        apply_move(s, CubeMove::U) == permute(s, TABLE_U),
{
    lemma_table_x_prime(s);
    lemma_table_f(permute(s, TABLE_X_PRIME));
    lemma_table_x(permute(permute(s, TABLE_X_PRIME), TABLE_F));
    lemma_three_tables(s, TABLE_X_PRIME, TABLE_F, TABLE_X, TABLE_U);
}

proof fn lemma_table_u_prime(s: Facelets)
    requires
        well_formed(s),
    ensures
        apply_move(s, CubeMove::UPrime) == permute(s, TABLE_U_PRIME),
{
    lemma_table_x_prime(s);
    lemma_table_f_prime(permute(s, TABLE_X_PRIME));
    lemma_table_x(permute(permute(s, TABLE_X_PRIME), TABLE_F_PRIME));
    lemma_three_tables(s, TABLE_X_PRIME, TABLE_F_PRIME, TABLE_X, TABLE_U_PRIME);
}

proof fn lemma_table_u2(s: Facelets)
    requires
        well_formed(s),
    ensures
        apply_move(s, CubeMove::U2) == permute(s, TABLE_U2),
{
    lemma_table_x_prime(s);
    lemma_table_f2(permute(s, TABLE_X_PRIME));
    lemma_table_x(permute(permute(s, TABLE_X_PRIME), TABLE_F2));
    lemma_three_tables(s, TABLE_X_PRIME, TABLE_F2, TABLE_X, TABLE_U2);
}

proof fn lemma_table_d(s: Facelets)
    requires
        well_formed(s),
    ensures
        apply_move(s, CubeMove::D) == permute(s, TABLE_D),
{
    lemma_table_x(s);
    lemma_table_f(permute(s, TABLE_X));
    lemma_table_x_prime(permute(permute(s, TABLE_X), TABLE_F));
    lemma_three_tables(s, TABLE_X, TABLE_F, TABLE_X_PRIME, TABLE_D);
}

proof fn lemma_table_d_prime(s: Facelets)
    requires
        well_formed(s),
    ensures
        apply_move(s, CubeMove::DPrime) == permute(s, TABLE_D_PRIME),
{
    lemma_table_x(s);
    lemma_table_f_prime(permute(s, TABLE_X));
    lemma_table_x_prime(permute(permute(s, TABLE_X), TABLE_F_PRIME));
    lemma_three_tables(s, TABLE_X, TABLE_F_PRIME, TABLE_X_PRIME, TABLE_D_PRIME);
}

proof fn lemma_table_d2(s: Facelets)
    requires
        well_formed(s),
    ensures
        apply_move(s, CubeMove::D2) == permute(s, TABLE_D2),
{
    lemma_table_x(s);
    lemma_table_f2(permute(s, TABLE_X));
    lemma_table_x_prime(permute(permute(s, TABLE_X), TABLE_F2));
    lemma_three_tables(s, TABLE_X, TABLE_F2, TABLE_X_PRIME, TABLE_D2);
}

proof fn lemma_table_l(s: Facelets)
    requires
        well_formed(s),
    ensures
        apply_move(s, CubeMove::L) == permute(s, TABLE_L),
{
    lemma_table_y_prime(s);
    lemma_table_f(permute(s, TABLE_Y_PRIME));
    lemma_table_y(permute(permute(s, TABLE_Y_PRIME), TABLE_F));
    lemma_three_tables(s, TABLE_Y_PRIME, TABLE_F, TABLE_Y, TABLE_L);
}

proof fn lemma_table_l_prime(s: Facelets)
    requires
        well_formed(s),
    ensures
        apply_move(s, CubeMove::LPrime) == permute(s, TABLE_L_PRIME),
{
    lemma_table_y_prime(s);
    lemma_table_f_prime(permute(s, TABLE_Y_PRIME));
    lemma_table_y(permute(permute(s, TABLE_Y_PRIME), TABLE_F_PRIME));
    lemma_three_tables(s, TABLE_Y_PRIME, TABLE_F_PRIME, TABLE_Y, TABLE_L_PRIME);
}

proof fn lemma_table_l2(s: Facelets)
    requires
        well_formed(s),
    ensures
        apply_move(s, CubeMove::L2) == permute(s, TABLE_L2),
{
    lemma_table_y_prime(s);
    lemma_table_f2(permute(s, TABLE_Y_PRIME));
    lemma_table_y(permute(permute(s, TABLE_Y_PRIME), TABLE_F2));
    lemma_three_tables(s, TABLE_Y_PRIME, TABLE_F2, TABLE_Y, TABLE_L2);
}

proof fn lemma_table_r(s: Facelets)
    requires
        well_formed(s),
    ensures
        apply_move(s, CubeMove::R) == permute(s, TABLE_R),
{
    lemma_table_y(s);
    lemma_table_f(permute(s, TABLE_Y));
    lemma_table_y_prime(permute(permute(s, TABLE_Y), TABLE_F));
    lemma_three_tables(s, TABLE_Y, TABLE_F, TABLE_Y_PRIME, TABLE_R);
}

proof fn lemma_table_r_prime(s: Facelets)
    requires
        well_formed(s),
    ensures
        apply_move(s, CubeMove::RPrime) == permute(s, TABLE_R_PRIME),
{
    lemma_table_y(s);
    lemma_table_f_prime(permute(s, TABLE_Y));
    lemma_table_y_prime(permute(permute(s, TABLE_Y), TABLE_F_PRIME));
    lemma_three_tables(s, TABLE_Y, TABLE_F_PRIME, TABLE_Y_PRIME, TABLE_R_PRIME);
}

proof fn lemma_table_r2(s: Facelets)
    requires
        well_formed(s),
    ensures
        apply_move(s, CubeMove::R2) == permute(s, TABLE_R2),
{
    lemma_table_y(s);
    lemma_table_f2(permute(s, TABLE_Y));
    lemma_table_y_prime(permute(permute(s, TABLE_Y), TABLE_F2));
    lemma_three_tables(s, TABLE_Y, TABLE_F2, TABLE_Y_PRIME, TABLE_R2);
}

proof fn lemma_table_f2(s: Facelets)
    requires
        well_formed(s),
    ensures
        apply_move(s, CubeMove::F2) == permute(s, TABLE_F2),
{
    lemma_table_f(s);
    lemma_table_f(permute(s, TABLE_F));
    lemma_two_tables(s, TABLE_F, TABLE_F, TABLE_F2);
}

proof fn lemma_table_b(s: Facelets)
    requires
        well_formed(s),
    ensures
        apply_move(s, CubeMove::B) == permute(s, TABLE_B),
{
    lemma_table_y2(s);
    lemma_table_f(permute(s, TABLE_Y2));
    lemma_table_y2(permute(permute(s, TABLE_Y2), TABLE_F));
    lemma_three_tables(s, TABLE_Y2, TABLE_F, TABLE_Y2, TABLE_B);
}

proof fn lemma_table_b_prime(s: Facelets)
    requires
        well_formed(s),
    ensures
        apply_move(s, CubeMove::BPrime) == permute(s, TABLE_B_PRIME),
{
    lemma_table_y2(s);
    lemma_table_f_prime(permute(s, TABLE_Y2));
    lemma_table_y2(permute(permute(s, TABLE_Y2), TABLE_F_PRIME));
    lemma_three_tables(s, TABLE_Y2, TABLE_F_PRIME, TABLE_Y2, TABLE_B_PRIME);
}

proof fn lemma_table_b2(s: Facelets)
    requires
        well_formed(s),
    ensures
        apply_move(s, CubeMove::B2) == permute(s, TABLE_B2),
{
    lemma_table_y2(s);
    lemma_table_f2(permute(s, TABLE_Y2));
    lemma_table_y2(permute(permute(s, TABLE_Y2), TABLE_F2));
    lemma_three_tables(s, TABLE_Y2, TABLE_F2, TABLE_Y2, TABLE_B2);
}

proof fn lemma_table_m(s: Facelets)
    requires
        well_formed(s),
    ensures
        apply_move(s, CubeMove::M) == permute(s, TABLE_M),
{
    lemma_table_x_prime(s);
    lemma_table_r(permute(s, TABLE_X_PRIME));
    lemma_table_l_prime(permute(permute(s, TABLE_X_PRIME), TABLE_R));
    lemma_three_tables(s, TABLE_X_PRIME, TABLE_R, TABLE_L_PRIME, TABLE_M);
}

proof fn lemma_table_m_prime(s: Facelets)
    requires
        well_formed(s),
    ensures
        apply_move(s, CubeMove::MPrime) == permute(s, TABLE_M_PRIME),
{
    lemma_table_x(s);
    lemma_table_r_prime(permute(s, TABLE_X));
    lemma_table_l(permute(permute(s, TABLE_X), TABLE_R_PRIME));
    lemma_three_tables(s, TABLE_X, TABLE_R_PRIME, TABLE_L, TABLE_M_PRIME);
}

proof fn lemma_table_m2(s: Facelets)
    requires
        well_formed(s),
    ensures
        apply_move(s, CubeMove::M2) == permute(s, TABLE_M2),
{
    lemma_table_x2(s);
    lemma_table_r2(permute(s, TABLE_X2));
    lemma_table_l2(permute(permute(s, TABLE_X2), TABLE_R2));
    lemma_three_tables(s, TABLE_X2, TABLE_R2, TABLE_L2, TABLE_M2);
}

proof fn lemma_table_e(s: Facelets)
    requires
        well_formed(s),
    ensures
        apply_move(s, CubeMove::E) == permute(s, TABLE_E),
{
    lemma_table_y_prime(s);
    lemma_table_u(permute(s, TABLE_Y_PRIME));
    lemma_table_d_prime(permute(permute(s, TABLE_Y_PRIME), TABLE_U));
    lemma_three_tables(s, TABLE_Y_PRIME, TABLE_U, TABLE_D_PRIME, TABLE_E);
}

proof fn lemma_table_e_prime(s: Facelets)
    requires
        well_formed(s),
    ensures
        apply_move(s, CubeMove::EPrime) == permute(s, TABLE_E_PRIME),
{
    lemma_table_y(s);
    lemma_table_u_prime(permute(s, TABLE_Y));
    lemma_table_d(permute(permute(s, TABLE_Y), TABLE_U_PRIME));
    lemma_three_tables(s, TABLE_Y, TABLE_U_PRIME, TABLE_D, TABLE_E_PRIME);
}

proof fn lemma_table_e2(s: Facelets)
    requires
        well_formed(s),
    ensures
        apply_move(s, CubeMove::E2) == permute(s, TABLE_E2),
{
    lemma_table_y2(s);
    lemma_table_u2(permute(s, TABLE_Y2));
    lemma_table_d2(permute(permute(s, TABLE_Y2), TABLE_U2));
    lemma_three_tables(s, TABLE_Y2, TABLE_U2, TABLE_D2, TABLE_E2);
}

proof fn lemma_table_s(s: Facelets)
    requires
        well_formed(s),
    ensures
        apply_move(s, CubeMove::S) == permute(s, TABLE_S),
{
    lemma_table_z(s);
    lemma_table_f_prime(permute(s, TABLE_Z));
    lemma_table_b(permute(permute(s, TABLE_Z), TABLE_F_PRIME));
    lemma_three_tables(s, TABLE_Z, TABLE_F_PRIME, TABLE_B, TABLE_S);
}

proof fn lemma_table_s_prime(s: Facelets)
    requires
        well_formed(s),
    ensures
        apply_move(s, CubeMove::SPrime) == permute(s, TABLE_S_PRIME),
{
    lemma_table_z_prime(s);
    lemma_table_f(permute(s, TABLE_Z_PRIME));
    lemma_table_b_prime(permute(permute(s, TABLE_Z_PRIME), TABLE_F));
    lemma_three_tables(s, TABLE_Z_PRIME, TABLE_F, TABLE_B_PRIME, TABLE_S_PRIME);
}

proof fn lemma_table_s2(s: Facelets)
    requires
        well_formed(s),
    ensures
        apply_move(s, CubeMove::S2) == permute(s, TABLE_S2),
{
    lemma_table_z2(s);
    lemma_table_f2(permute(s, TABLE_Z2));
    lemma_table_b2(permute(permute(s, TABLE_Z2), TABLE_F2));
    lemma_three_tables(s, TABLE_Z2, TABLE_F2, TABLE_B2, TABLE_S2);
}

proof fn lemma_table_x_prime(s: Facelets)
    requires
        well_formed(s),
    ensures
        apply_move(s, CubeMove::XPrime) == permute(s, TABLE_X_PRIME),
{
    lemma_table_x(s);
    lemma_table_x(permute(s, TABLE_X));
    lemma_table_x(permute(permute(s, TABLE_X), TABLE_X));
    lemma_three_tables(s, TABLE_X, TABLE_X, TABLE_X, TABLE_X_PRIME);
}

proof fn lemma_table_x2(s: Facelets)
    requires
        well_formed(s),
    ensures
        apply_move(s, CubeMove::X2) == permute(s, TABLE_X2),
{
    lemma_table_x(s);
    lemma_table_x(permute(s, TABLE_X));
    lemma_two_tables(s, TABLE_X, TABLE_X, TABLE_X2);
}

proof fn lemma_table_y_prime(s: Facelets)
    requires
        well_formed(s),
    ensures
        apply_move(s, CubeMove::YPrime) == permute(s, TABLE_Y_PRIME),
{
    lemma_table_y(s);
    lemma_table_y(permute(s, TABLE_Y));
    lemma_table_y(permute(permute(s, TABLE_Y), TABLE_Y));
    lemma_three_tables(s, TABLE_Y, TABLE_Y, TABLE_Y, TABLE_Y_PRIME);
}

proof fn lemma_table_y2(s: Facelets)
    requires
        well_formed(s),
    ensures
        apply_move(s, CubeMove::Y2) == permute(s, TABLE_Y2),
{
    lemma_table_y(s);
    lemma_table_y(permute(s, TABLE_Y));
    lemma_two_tables(s, TABLE_Y, TABLE_Y, TABLE_Y2);
}

proof fn lemma_table_z_prime(s: Facelets)
    requires
        well_formed(s),
    ensures
        apply_move(s, CubeMove::ZPrime) == permute(s, TABLE_Z_PRIME),
{
    lemma_table_z(s);
    lemma_table_z(permute(s, TABLE_Z));
    lemma_table_z(permute(permute(s, TABLE_Z), TABLE_Z));
    lemma_three_tables(s, TABLE_Z, TABLE_Z, TABLE_Z, TABLE_Z_PRIME);
}

proof fn lemma_table_z2(s: Facelets)
    requires
        well_formed(s),
    ensures
        apply_move(s, CubeMove::Z2) == permute(s, TABLE_Z2),
{
    lemma_table_z(s);
    lemma_table_z(permute(s, TABLE_Z));
    lemma_two_tables(s, TABLE_Z, TABLE_Z, TABLE_Z2);
}

/// Each move carries the facelets as its table says.
pub proof fn lemma_move_by_table(s: Facelets, m: CubeMove)
    requires
        well_formed(s),
    ensures
        apply_move(s, m) == permute(s, table_of(m)),
        well_formed(apply_move(s, m)),
{
    match m {
        CubeMove::U => lemma_table_u(s),
        CubeMove::UPrime => lemma_table_u_prime(s),
        CubeMove::U2 => lemma_table_u2(s),
        CubeMove::D => lemma_table_d(s),
        CubeMove::DPrime => lemma_table_d_prime(s),
        CubeMove::D2 => lemma_table_d2(s),
        CubeMove::L => lemma_table_l(s),
        CubeMove::LPrime => lemma_table_l_prime(s),
        CubeMove::L2 => lemma_table_l2(s),
        CubeMove::R => lemma_table_r(s),
        CubeMove::RPrime => lemma_table_r_prime(s),
        CubeMove::R2 => lemma_table_r2(s),
        CubeMove::F => lemma_table_f(s),
        CubeMove::FPrime => lemma_table_f_prime(s),
        CubeMove::F2 => lemma_table_f2(s),
        CubeMove::B => lemma_table_b(s),
        CubeMove::BPrime => lemma_table_b_prime(s),
        CubeMove::B2 => lemma_table_b2(s),
        CubeMove::M => lemma_table_m(s),
        CubeMove::MPrime => lemma_table_m_prime(s),
        CubeMove::M2 => lemma_table_m2(s),
        CubeMove::E => lemma_table_e(s),
        CubeMove::EPrime => lemma_table_e_prime(s),
        CubeMove::E2 => lemma_table_e2(s),
        CubeMove::S => lemma_table_s(s),
        CubeMove::SPrime => lemma_table_s_prime(s),
        CubeMove::S2 => lemma_table_s2(s),
        CubeMove::X => lemma_table_x(s),
        CubeMove::XPrime => lemma_table_x_prime(s),
        CubeMove::X2 => lemma_table_x2(s),
        CubeMove::Y => lemma_table_y(s),
        CubeMove::YPrime => lemma_table_y_prime(s),
        CubeMove::Y2 => lemma_table_y2(s),
        CubeMove::Z => lemma_table_z(s),
        CubeMove::ZPrime => lemma_table_z_prime(s),
        CubeMove::Z2 => lemma_table_z2(s),
    }
}

} // verus!
