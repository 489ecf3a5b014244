//! Random scrambles that waste no move: no face is turned twice while only
//! its own plane has been turned in between.

use rand::rngs::ThreadRng;
use rand::seq::IndexedRandom;
use vstd::prelude::*;
use super::face::{face_of, is_face_turn, move_to_face};
use super::moves::{CubeMove, NON_ROTATION_MOVES};
use super::plane::{move_to_plane, plane_of};

verus! {

/// The random number generator of the current thread, as the crate `rand`
/// hands it out.  Nothing is known of what it will produce.
#[verifier::external_type_specification]
#[verifier::external_body]
pub struct ExThreadRng(ThreadRng);

/// `rand::rng` returns a handle to the thread's generator.  Nothing is
/// claimed of it.
pub assume_specification[ rand::rng ]() -> (rng: ThreadRng);

/// One move of `moves`, picked by `rand`'s `IndexedRandom::choose`.
///
/// Claimed of `choose`, as its documentation has it: the result is an element
/// of the slice, and there is none only where the slice is empty.  Which
/// element comes is up to the generator.
#[verifier::external_body]
fn choose_move(moves: &[CubeMove], rng: &mut ThreadRng) -> (picked: Option<CubeMove>)
    ensures
        match picked {
            Some(mv) => moves@.contains(mv),
            None => moves@.len() == 0,
        },
{
    moves.choose(rng).copied()
}

/// Every move of the sequence is a face turn.
pub open spec fn all_face_turns(moves: Seq<CubeMove>) -> bool {
    forall|i: int| 0 <= i < moves.len() ==> is_face_turn(#[trigger] moves[i])
}

/// `mv` turns a face that `scramble` has turned already, with nothing but
/// turns in the plane of `mv` from that turn to the end.  Such a move would
/// only add to, or cancel, the earlier turn.
pub open spec fn repeats_face(scramble: Seq<CubeMove>, mv: CubeMove) -> bool {
    exists|j: int|
        0 <= j < scramble.len() && face_of(#[trigger] scramble[j]) == face_of(mv) && forall|k: int|
            j <= k < scramble.len() ==> plane_of(#[trigger] scramble[k]) == plane_of(mv)
}

/// `mv` can be the next move of `scramble`.
pub open spec fn may_follow(scramble: Seq<CubeMove>, mv: CubeMove) -> bool {
    is_face_turn(mv) && !repeats_face(scramble, mv)
}

/// A scramble: face turns, each of which may follow those before it.
pub open spec fn is_scramble(moves: Seq<CubeMove>) -> bool {
    forall|i: int| 0 <= i < moves.len() ==> may_follow(moves.take(i), #[trigger] moves[i])
}

/// Whether the face turn `mv` can be the next move of `scramble`.
pub fn can_follow(scramble: &[CubeMove], mv: CubeMove) -> (ok: bool)
    requires
        all_face_turns(scramble@),
        is_face_turn(mv),
    ensures
        ok == may_follow(scramble@, mv),
{
    let mut n: usize = scramble.len();
    while n > 0
        invariant
            n <= scramble.len(),
            all_face_turns(scramble@),
            is_face_turn(mv),
            forall|k: int| n <= k < scramble.len() ==> plane_of(#[trigger] scramble[k]) == plane_of(mv),
            forall|k: int| n <= k < scramble.len() ==> face_of(#[trigger] scramble[k]) != face_of(mv),
        decreases n,
    {
        let prev = scramble[n - 1];
        if move_to_plane(prev) != move_to_plane(mv) {
            assert(!repeats_face(scramble@, mv)) by {
                if repeats_face(scramble@, mv) {
                    let j = choose|j: int|
                        0 <= j < scramble.len() && face_of(#[trigger] scramble[j]) == face_of(mv)
                            && forall|k: int|
                            j <= k < scramble.len() ==> plane_of(#[trigger] scramble[k])
                                == plane_of(mv);
                    assert(plane_of(scramble[n - 1]) == plane_of(mv));
                }
            }
            return true;
        }
        if move_to_face(prev) == move_to_face(mv) {
            assert(repeats_face(scramble@, mv)) by {
                assert(face_of(scramble[n - 1]) == face_of(mv));
            }
            return false;
        }
        n -= 1;
    }
    true
}

/// The face turns that can be the next move of `scramble`, in the order of
/// `NON_ROTATION_MOVES`.  There is always one.
pub fn next_moves(scramble: &[CubeMove]) -> (candidates: Vec<CubeMove>)
    requires
        all_face_turns(scramble@),
    ensures
        candidates@ == NON_ROTATION_MOVES@.filter(|mv: CubeMove| may_follow(scramble@, mv)),
        candidates@.len() > 0,
{
    let mut candidates: Vec<CubeMove> = Vec::new();
    let ghost allowed = |mv: CubeMove| may_follow(scramble@, mv);
    let mut i: usize = 0;
    while i < 18
        invariant
            i <= 18,
            all_face_turns(scramble@),
            allowed == |mv: CubeMove| may_follow(scramble@, mv),
            candidates@ == NON_ROTATION_MOVES@.take(i as int).filter(allowed),
        decreases 18 - i,
    {
        let mv = NON_ROTATION_MOVES[i];
        let ok = can_follow(scramble, mv);
        proof {
            let before = NON_ROTATION_MOVES@.take(i as int);
            assert(NON_ROTATION_MOVES@.take(i + 1) =~= before.push(mv));
            assert(before.push(mv).drop_last() =~= before);
            reveal(Seq::filter);
        }
        if ok {
            candidates.push(mv);
        }
        i += 1;
    }
    proof {
        assert(NON_ROTATION_MOVES@.take(18) =~= NON_ROTATION_MOVES@);
        // A turn in another plane than the last one's repeats no face.
        let free = if scramble@.len() > 0 && plane_of(scramble@.last())
            == plane_of(CubeMove::U) {
            CubeMove::L
        } else {
            CubeMove::U
        };
        assert(may_follow(scramble@, free)) by {
            if repeats_face(scramble@, free) {
                let j = choose|j: int|
                    0 <= j < scramble@.len() && face_of(#[trigger] scramble@[j]) == face_of(free)
                        && forall|k: int|
                        j <= k < scramble@.len() ==> plane_of(#[trigger] scramble@[k]) == plane_of(
                            free,
                        );
                assert(plane_of(scramble@[scramble@.len() - 1]) == plane_of(free));
            }
        }
        assert(NON_ROTATION_MOVES@[0] == CubeMove::U && NON_ROTATION_MOVES@[6] == CubeMove::L);
        assert(NON_ROTATION_MOVES@.contains(free));
        broadcast use vstd::seq_lib::group_filter_ensures;
        assert(candidates@.contains(free));
    }
    candidates
}

/// A random scramble of `length` face turns.
///
/// Each move is drawn from the face turns that may follow the moves before
/// it.  Whatever the generator does, the result is a scramble of the length
/// asked for.
pub fn generate_scramble_sequence(length: usize) -> (scramble: Vec<CubeMove>)
    ensures
        scramble@.len() == length,
        is_scramble(scramble@),
{
    let mut rng = rand::rng();
    let mut scramble: Vec<CubeMove> = Vec::new();
    let mut i: usize = 0;
    while i < length
        invariant
            i <= length,
            scramble@.len() == i,
            is_scramble(scramble@),
            all_face_turns(scramble@),
        decreases length - i,
    {
        let candidates = next_moves(scramble.as_slice());
        let picked = choose_move(candidates.as_slice(), &mut rng);
        let ghost before = scramble@;
        if let Some(mv) = picked {
            proof {
                broadcast use vstd::seq_lib::group_filter_ensures;
                assert(may_follow(before, mv));
            }
            scramble.push(mv);
            proof {
                assert(scramble@.take(i as int) =~= before);
                assert forall|k: int| 0 <= k < scramble@.len() implies may_follow(
                    scramble@.take(k),
                    #[trigger] scramble@[k],
                ) by {
                    if k < i {
                        assert(scramble@.take(k) =~= before.take(k));
                        assert(scramble@[k] == before[k]);
                    }
                }
            }
        }
        i += 1;
    }
    scramble
}

} // verus!
