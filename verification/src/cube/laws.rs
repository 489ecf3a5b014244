//! What holds of every move: it has an inverse among the moves, and it comes
//! back to where it started after two or four applications.

use vstd::prelude::*;
use super::moves::{CubeMove, apply_move, invert};
use super::sequence::{apply_moves, lemma_apply_moves_concat, lemma_apply_moves_single};
use super::state::{CubeState, Facelets, lemma_view_injective, well_formed};
use super::tables::{
    TABLE_B, TABLE_B2, TABLE_B_PRIME, TABLE_D, TABLE_D2, TABLE_D_PRIME, TABLE_E, TABLE_E2,
    TABLE_E_PRIME, TABLE_F, TABLE_F2, TABLE_F_PRIME, TABLE_IDENTITY, TABLE_L, TABLE_L2,
    TABLE_L_PRIME, TABLE_M, TABLE_M2, TABLE_M_PRIME, TABLE_R, TABLE_R2, TABLE_R_PRIME, TABLE_S,
    TABLE_S2, TABLE_S_PRIME, TABLE_U, TABLE_U2, TABLE_U_PRIME, TABLE_X, TABLE_X2, TABLE_X_PRIME,
    TABLE_Y, TABLE_Y2, TABLE_Y_PRIME, TABLE_Z, TABLE_Z2, TABLE_Z_PRIME, is_table,
    lemma_identity_table, lemma_move_by_table, lemma_two_tables, table_of,
};

verus! {

/// The half turns: the moves that are their own inverse.
pub open spec fn is_half_turn(m: CubeMove) -> bool {
    match m {
        CubeMove::U2 | CubeMove::D2 | CubeMove::L2 | CubeMove::R2 | CubeMove::F2 | CubeMove::B2 => true,
        CubeMove::M2 | CubeMove::E2 | CubeMove::S2 => true,
        CubeMove::X2 | CubeMove::Y2 | CubeMove::Z2 => true,
        _ => false,
    }
}

/// The half turn about the axis of `m`, in the layer of `m`.
pub open spec fn half_turn_of(m: CubeMove) -> CubeMove {
    match m {
        CubeMove::U | CubeMove::UPrime | CubeMove::U2 => CubeMove::U2,
        CubeMove::D | CubeMove::DPrime | CubeMove::D2 => CubeMove::D2,
        CubeMove::L | CubeMove::LPrime | CubeMove::L2 => CubeMove::L2,
        CubeMove::R | CubeMove::RPrime | CubeMove::R2 => CubeMove::R2,
        CubeMove::F | CubeMove::FPrime | CubeMove::F2 => CubeMove::F2,
        CubeMove::B | CubeMove::BPrime | CubeMove::B2 => CubeMove::B2,
        CubeMove::M | CubeMove::MPrime | CubeMove::M2 => CubeMove::M2,
        CubeMove::E | CubeMove::EPrime | CubeMove::E2 => CubeMove::E2,
        CubeMove::S | CubeMove::SPrime | CubeMove::S2 => CubeMove::S2,
        CubeMove::X | CubeMove::XPrime | CubeMove::X2 => CubeMove::X2,
        CubeMove::Y | CubeMove::YPrime | CubeMove::Y2 => CubeMove::Y2,
        CubeMove::Z | CubeMove::ZPrime | CubeMove::Z2 => CubeMove::Z2,
    }
}

/// A sequence undone: the inverses of its moves, last move first.
pub open spec fn invert_sequence(moves: Seq<CubeMove>) -> Seq<CubeMove> {
    Seq::new(moves.len(), |i: int| invert(moves[moves.len() - 1 - i]))
}

proof fn lemma_inverse_tables_u()
    ensures
        is_table(TABLE_U),
        is_table(TABLE_U_PRIME),
        is_table(TABLE_U2),
        forall|i: int| 0 <= i < 54 ==> #[trigger] TABLE_IDENTITY[i] == TABLE_U[TABLE_U_PRIME[i] as int],
        forall|i: int| 0 <= i < 54 ==> #[trigger] TABLE_IDENTITY[i] == TABLE_U_PRIME[TABLE_U[i] as int],
        forall|i: int| 0 <= i < 54 ==> #[trigger] TABLE_IDENTITY[i] == TABLE_U2[TABLE_U2[i] as int],
{
}

proof fn lemma_inverse_tables_d()
    ensures
        is_table(TABLE_D),
        is_table(TABLE_D_PRIME),
        is_table(TABLE_D2),
        forall|i: int| 0 <= i < 54 ==> #[trigger] TABLE_IDENTITY[i] == TABLE_D[TABLE_D_PRIME[i] as int],
        forall|i: int| 0 <= i < 54 ==> #[trigger] TABLE_IDENTITY[i] == TABLE_D_PRIME[TABLE_D[i] as int],
        forall|i: int| 0 <= i < 54 ==> #[trigger] TABLE_IDENTITY[i] == TABLE_D2[TABLE_D2[i] as int],
{
}

proof fn lemma_inverse_tables_l()
    ensures
        is_table(TABLE_L),
        is_table(TABLE_L_PRIME),
        is_table(TABLE_L2),
        forall|i: int| 0 <= i < 54 ==> #[trigger] TABLE_IDENTITY[i] == TABLE_L[TABLE_L_PRIME[i] as int],
        forall|i: int| 0 <= i < 54 ==> #[trigger] TABLE_IDENTITY[i] == TABLE_L_PRIME[TABLE_L[i] as int],
        forall|i: int| 0 <= i < 54 ==> #[trigger] TABLE_IDENTITY[i] == TABLE_L2[TABLE_L2[i] as int],
{
}

proof fn lemma_inverse_tables_r()
    ensures
        is_table(TABLE_R),
        is_table(TABLE_R_PRIME),
        is_table(TABLE_R2),
        forall|i: int| 0 <= i < 54 ==> #[trigger] TABLE_IDENTITY[i] == TABLE_R[TABLE_R_PRIME[i] as int],
        forall|i: int| 0 <= i < 54 ==> #[trigger] TABLE_IDENTITY[i] == TABLE_R_PRIME[TABLE_R[i] as int],
        forall|i: int| 0 <= i < 54 ==> #[trigger] TABLE_IDENTITY[i] == TABLE_R2[TABLE_R2[i] as int],
{
}

proof fn lemma_inverse_tables_f()
    ensures
        is_table(TABLE_F),
        is_table(TABLE_F_PRIME),
        is_table(TABLE_F2),
        forall|i: int| 0 <= i < 54 ==> #[trigger] TABLE_IDENTITY[i] == TABLE_F[TABLE_F_PRIME[i] as int],
        forall|i: int| 0 <= i < 54 ==> #[trigger] TABLE_IDENTITY[i] == TABLE_F_PRIME[TABLE_F[i] as int],
        forall|i: int| 0 <= i < 54 ==> #[trigger] TABLE_IDENTITY[i] == TABLE_F2[TABLE_F2[i] as int],
{
}

proof fn lemma_inverse_tables_b()
    ensures
        is_table(TABLE_B),
        is_table(TABLE_B_PRIME),
        is_table(TABLE_B2),
        forall|i: int| 0 <= i < 54 ==> #[trigger] TABLE_IDENTITY[i] == TABLE_B[TABLE_B_PRIME[i] as int],
        forall|i: int| 0 <= i < 54 ==> #[trigger] TABLE_IDENTITY[i] == TABLE_B_PRIME[TABLE_B[i] as int],
        forall|i: int| 0 <= i < 54 ==> #[trigger] TABLE_IDENTITY[i] == TABLE_B2[TABLE_B2[i] as int],
{
}

proof fn lemma_inverse_tables_m()
    ensures
        is_table(TABLE_M),
        is_table(TABLE_M_PRIME),
        is_table(TABLE_M2),
        forall|i: int| 0 <= i < 54 ==> #[trigger] TABLE_IDENTITY[i] == TABLE_M[TABLE_M_PRIME[i] as int],
        forall|i: int| 0 <= i < 54 ==> #[trigger] TABLE_IDENTITY[i] == TABLE_M_PRIME[TABLE_M[i] as int],
        forall|i: int| 0 <= i < 54 ==> #[trigger] TABLE_IDENTITY[i] == TABLE_M2[TABLE_M2[i] as int],
{
}

proof fn lemma_inverse_tables_e()
    ensures
        is_table(TABLE_E),
        is_table(TABLE_E_PRIME),
        is_table(TABLE_E2),
        forall|i: int| 0 <= i < 54 ==> #[trigger] TABLE_IDENTITY[i] == TABLE_E[TABLE_E_PRIME[i] as int],
        forall|i: int| 0 <= i < 54 ==> #[trigger] TABLE_IDENTITY[i] == TABLE_E_PRIME[TABLE_E[i] as int],
        forall|i: int| 0 <= i < 54 ==> #[trigger] TABLE_IDENTITY[i] == TABLE_E2[TABLE_E2[i] as int],
{
}

proof fn lemma_inverse_tables_s()
    ensures
        is_table(TABLE_S),
        is_table(TABLE_S_PRIME),
        is_table(TABLE_S2),
        forall|i: int| 0 <= i < 54 ==> #[trigger] TABLE_IDENTITY[i] == TABLE_S[TABLE_S_PRIME[i] as int],
        forall|i: int| 0 <= i < 54 ==> #[trigger] TABLE_IDENTITY[i] == TABLE_S_PRIME[TABLE_S[i] as int],
        forall|i: int| 0 <= i < 54 ==> #[trigger] TABLE_IDENTITY[i] == TABLE_S2[TABLE_S2[i] as int],
{
}

proof fn lemma_inverse_tables_x()
    ensures
        is_table(TABLE_X),
        is_table(TABLE_X_PRIME),
        is_table(TABLE_X2),
        forall|i: int| 0 <= i < 54 ==> #[trigger] TABLE_IDENTITY[i] == TABLE_X[TABLE_X_PRIME[i] as int],
        forall|i: int| 0 <= i < 54 ==> #[trigger] TABLE_IDENTITY[i] == TABLE_X_PRIME[TABLE_X[i] as int],
        forall|i: int| 0 <= i < 54 ==> #[trigger] TABLE_IDENTITY[i] == TABLE_X2[TABLE_X2[i] as int],
{
}

proof fn lemma_inverse_tables_y()
    ensures
        is_table(TABLE_Y),
        is_table(TABLE_Y_PRIME),
        is_table(TABLE_Y2),
        forall|i: int| 0 <= i < 54 ==> #[trigger] TABLE_IDENTITY[i] == TABLE_Y[TABLE_Y_PRIME[i] as int],
        forall|i: int| 0 <= i < 54 ==> #[trigger] TABLE_IDENTITY[i] == TABLE_Y_PRIME[TABLE_Y[i] as int],
        forall|i: int| 0 <= i < 54 ==> #[trigger] TABLE_IDENTITY[i] == TABLE_Y2[TABLE_Y2[i] as int],
{
}

proof fn lemma_inverse_tables_z()
    ensures
        is_table(TABLE_Z),
        is_table(TABLE_Z_PRIME),
        is_table(TABLE_Z2),
        forall|i: int| 0 <= i < 54 ==> #[trigger] TABLE_IDENTITY[i] == TABLE_Z[TABLE_Z_PRIME[i] as int],
        forall|i: int| 0 <= i < 54 ==> #[trigger] TABLE_IDENTITY[i] == TABLE_Z_PRIME[TABLE_Z[i] as int],
        forall|i: int| 0 <= i < 54 ==> #[trigger] TABLE_IDENTITY[i] == TABLE_Z2[TABLE_Z2[i] as int],
{
}

/// The table of a move followed by the table of its inverse sends every
/// place to itself.
proof fn lemma_inverse_tables(m: CubeMove)
    ensures
        is_table(table_of(m)),
        is_table(table_of(invert(m))),
        forall|i: int| 0 <= i < 54 ==> #[trigger] TABLE_IDENTITY[i] == table_of(m)[table_of(
            invert(m),
        )[i] as int],
{
    match m {
        CubeMove::U | CubeMove::UPrime | CubeMove::U2 => lemma_inverse_tables_u(),
        CubeMove::D | CubeMove::DPrime | CubeMove::D2 => lemma_inverse_tables_d(),
        CubeMove::L | CubeMove::LPrime | CubeMove::L2 => lemma_inverse_tables_l(),
        CubeMove::R | CubeMove::RPrime | CubeMove::R2 => lemma_inverse_tables_r(),
        CubeMove::F | CubeMove::FPrime | CubeMove::F2 => lemma_inverse_tables_f(),
        CubeMove::B | CubeMove::BPrime | CubeMove::B2 => lemma_inverse_tables_b(),
        CubeMove::M | CubeMove::MPrime | CubeMove::M2 => lemma_inverse_tables_m(),
        CubeMove::E | CubeMove::EPrime | CubeMove::E2 => lemma_inverse_tables_e(),
        CubeMove::S | CubeMove::SPrime | CubeMove::S2 => lemma_inverse_tables_s(),
        CubeMove::X | CubeMove::XPrime | CubeMove::X2 => lemma_inverse_tables_x(),
        CubeMove::Y | CubeMove::YPrime | CubeMove::Y2 => lemma_inverse_tables_y(),
        CubeMove::Z | CubeMove::ZPrime | CubeMove::Z2 => lemma_inverse_tables_z(),
    }
}

/// The table of a quarter turn, twice, is the table of the half turn; the
/// table of a half turn, twice, sends every place to itself.
proof fn lemma_double_tables(m: CubeMove)
    ensures
        is_table(table_of(m)),
        is_half_turn(m) ==> forall|i: int|
            0 <= i < 54 ==> #[trigger] TABLE_IDENTITY[i] == table_of(m)[table_of(m)[i] as int],
        !is_half_turn(m) ==> forall|i: int|
            0 <= i < 54 ==> #[trigger] table_of(half_turn_of(m))[i] == table_of(m)[table_of(m)[i] as int],
{
}

/// Move `n` undoes move `m` if the table of `m` followed by that of `n`
/// sends every place to itself.
proof fn lemma_undone_by(s: Facelets, m: CubeMove, n: CubeMove)
    requires
        well_formed(s),
        is_table(table_of(n)),
        forall|i: int| 0 <= i < 54 ==> #[trigger] TABLE_IDENTITY[i] == table_of(m)[table_of(n)[i] as int],
    ensures
        apply_move(apply_move(s, m), n) == s,
{
    lemma_move_by_table(s, m);
    lemma_move_by_table(apply_move(s, m), n);
    lemma_two_tables(s, table_of(m), table_of(n), TABLE_IDENTITY);
    lemma_identity_table(s, TABLE_IDENTITY);
}

/// Every move has an inverse among the moves, on either side: the move and
/// then its inverse, or the inverse and then the move, leave every state as
/// it was.
pub proof fn lemma_move_then_inverse(s: Facelets, m: CubeMove)
    requires
        well_formed(s),
    ensures
        apply_move(apply_move(s, m), invert(m)) == s,
        apply_move(apply_move(s, invert(m)), m) == s,
        invert(invert(m)) == m,
{
    lemma_inverse_tables(m);
    lemma_undone_by(s, m, invert(m));
    lemma_inverse_tables(invert(m));
    lemma_undone_by(s, invert(m), m);
}

/// On states: whatever state a move leads to, the inverse of the move leads
/// back from there to the very state it started from.
pub proof fn lemma_state_restored(start: CubeState, moved: CubeState, back: CubeState, m: CubeMove)
    requires
        moved@ == apply_move(start@, m),
        back@ == apply_move(moved@, invert(m)),
    ensures
        back == start,
{
    lemma_move_then_inverse(start@, m);
    lemma_view_injective(back, start);
}

/// A half turn applied twice leaves every state as it was.
pub proof fn lemma_half_turn_twice(s: Facelets, m: CubeMove)
    requires
        well_formed(s),
        is_half_turn(m),
    ensures
        apply_move(apply_move(s, m), m) == s,
{
    lemma_double_tables(m);
    lemma_undone_by(s, m, m);
}

/// A quarter turn applied twice is the half turn of its layer.
pub proof fn lemma_quarter_turn_twice(s: Facelets, m: CubeMove)
    requires
        well_formed(s),
        !is_half_turn(m),
    ensures
        apply_move(apply_move(s, m), m) == apply_move(s, half_turn_of(m)),
{
    lemma_move_by_table(s, m);
    lemma_move_by_table(apply_move(s, m), m);
    lemma_move_by_table(s, half_turn_of(m));
    lemma_double_tables(m);
    lemma_two_tables(s, table_of(m), table_of(m), table_of(half_turn_of(m)));
}

/// A quarter turn applied four times leaves every state as it was.
pub proof fn lemma_quarter_turn_four_times(s: Facelets, m: CubeMove)
    requires
        well_formed(s),
        !is_half_turn(m),
    ensures
        apply_move(apply_move(apply_move(apply_move(s, m), m), m), m) == s,
{
    let twice = apply_move(apply_move(s, m), m);
    lemma_move_by_table(s, m);
    lemma_move_by_table(apply_move(s, m), m);
    lemma_quarter_turn_twice(s, m);
    lemma_quarter_turn_twice(twice, m);
    lemma_half_turn_twice(s, half_turn_of(m));
}

/// Every sequence of moves keeps the shape of the state.
pub proof fn lemma_apply_moves_well_formed(s: Facelets, moves: Seq<CubeMove>)
    requires
        well_formed(s),
    ensures
        well_formed(apply_moves(s, moves)),
    decreases moves.len(),
{
    if moves.len() > 0 {
        lemma_move_by_table(s, moves[0]);
        lemma_apply_moves_well_formed(apply_move(s, moves[0]), moves.drop_first());
    }
}

/// A sequence is undone by the inverses of its moves in reverse order.
pub proof fn lemma_sequence_then_inverse(s: Facelets, moves: Seq<CubeMove>)
    requires
        well_formed(s),
    ensures
        apply_moves(apply_moves(s, moves), invert_sequence(moves)) == s,
    decreases moves.len(),
{
    if moves.len() == 0 {
        assert(invert_sequence(moves) =~= Seq::<CubeMove>::empty());
    } else {
        let first = moves[0];
        let rest = moves.drop_first();
        let after_first = apply_move(s, first);
        lemma_move_by_table(s, first);
        lemma_sequence_then_inverse(after_first, rest);
        assert(invert_sequence(moves) =~= invert_sequence(rest) + seq![invert(first)]);
        lemma_apply_moves_concat(apply_moves(s, moves), invert_sequence(rest), seq![invert(first)]);
        lemma_apply_moves_single(after_first, invert(first));
        lemma_move_then_inverse(s, first);
    }
}

} // verus!
