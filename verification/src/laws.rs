//! The library's laws: the group and invariant properties that hold of every
//! move, every algorithm, and every well-formed cube state.

use vstd::prelude::*;
use crate::moves::{Move, move_inverse};
use crate::state::{CubeView, wf_view, solved_view, CORNERS, EDGES};
use crate::turns::{move_view, alg_view, face_of, turns_of, lemma_face_turns_add,
    lemma_face_turns_multiple_of_four, lemma_face_turns_wf, lemma_move_wf, lemma_alg_view_wf,
    lemma_alg_view_concat};
use crate::legality::{legal_view, lemma_move_legal};
use crate::parity::{lemma_increasing_even, lemma_sum_zero};
use crate::alg::invert_moves;
use crate::group::{repeat_moves, power_moves};

verus! {

/// Law: applying any move four times to any well-formed cube state returns
/// exactly that state, permutation and orientation vectors alike.
pub proof fn lemma_move_four_times_restores(m: Move, v: CubeView)
    requires
        wf_view(v),
    ensures
        move_view(m, move_view(m, move_view(m, move_view(m, v)))) == v,
{
    let f = face_of(m);
    let t = turns_of(m);
    lemma_face_turns_add(f, v, t, t);
    lemma_face_turns_add(f, v, t + t, t);
    lemma_face_turns_add(f, v, t + t + t, t);
    assert(t + t + t + t == 4 * t);
    lemma_face_turns_multiple_of_four(f, v, t);
}

/// Law: a move followed by its inverse restores any well-formed state, and
/// so does the inverse followed by the move.
pub proof fn lemma_move_then_inverse_restores(m: Move, v: CubeView)
    requires
        wf_view(v),
    ensures
        move_view(move_inverse(m), move_view(m, v)) == v,
        move_view(m, move_view(move_inverse(m), v)) == v,
{
    let f = face_of(m);
    assert(face_of(move_inverse(m)) == f);
    assert(turns_of(m) + turns_of(move_inverse(m)) == 4);
    lemma_face_turns_add(f, v, turns_of(m), turns_of(move_inverse(m)));
    lemma_face_turns_add(f, v, turns_of(move_inverse(m)), turns_of(m));
    lemma_face_turns_multiple_of_four(f, v, 1);
}

/// Law: the solved state is well-formed and legal.
pub proof fn lemma_solved_is_legal()
    ensures
        wf_view(solved_view()),
        legal_view(solved_view()),
        crate::parity::perm_parity(solved_view().corner_perm) == 0,
        crate::parity::perm_parity(solved_view().edge_perm) == 0,
{
    let v = solved_view();
    lemma_increasing_even(v.corner_perm);
    lemma_increasing_even(v.edge_perm);
    lemma_sum_zero(v.corner_ori);
    lemma_sum_zero(v.edge_ori);
}

/// Law: every one of the eighteen moves preserves legality: applied to a
/// legal well-formed state it yields a legal well-formed state.
pub proof fn lemma_move_preserves_legality(m: Move, v: CubeView)
    requires
        wf_view(v),
        legal_view(v),
    ensures
        wf_view(move_view(m, v)),
        legal_view(move_view(m, v)),
{
    lemma_move_wf(m, v);
    lemma_move_legal(m, v);
}

/// Law: every algorithm preserves legality, move by move.
pub proof fn lemma_alg_preserves_legality(s: Seq<Move>, v: CubeView)
    requires
        wf_view(v),
        legal_view(v),
    ensures
        wf_view(alg_view(s, v)),
        legal_view(alg_view(s, v)),
    decreases s.len(),
{
    if s.len() == 0 {
    } else {
        lemma_move_preserves_legality(s[0], v);
        lemma_alg_preserves_legality(s.drop_first(), move_view(s[0], v));
    }
}

/// Law: an algorithm followed by its inverse restores any well-formed
/// state, even though the concatenated move list is not reduced.
pub proof fn lemma_alg_then_inverse_restores(s: Seq<Move>, v: CubeView)
    requires
        wf_view(v),
    ensures
        alg_view(invert_moves(s), alg_view(s, v)) == v,
    decreases s.len(),
{
    if s.len() == 0 {
        assert(invert_moves(s) =~= Seq::<Move>::empty());
    } else {
        let m0 = s[0];
        let tail = s.drop_first();
        let w = move_view(m0, v);
        lemma_move_wf(m0, v);
        lemma_alg_then_inverse_restores(tail, w);
        assert(invert_moves(s) =~= invert_moves(tail) + seq![move_inverse(m0)]);
        lemma_alg_view_concat(invert_moves(tail), seq![move_inverse(m0)], alg_view(s, v));
        assert(alg_view(s, v) == alg_view(tail, w));
        assert(alg_view(seq![move_inverse(m0)], move_view(m0, v)) == move_view(
            move_inverse(m0),
            move_view(m0, v),
        )) by {
            let im = move_inverse(m0);
            let w2 = move_view(m0, v);
            assert(seq![im].drop_first() =~= Seq::<Move>::empty());
            assert(seq![im][0] == im);
            assert(alg_view(Seq::<Move>::empty(), move_view(im, w2)) == move_view(im, w2));
        }
        lemma_move_then_inverse_restores(m0, v);
    }
}

/// Law: the empty sequence is a two-sided identity for composition.
pub proof fn lemma_compose_identity(s: Seq<Move>)
    ensures
        Seq::<Move>::empty() + s == s,
        s + Seq::<Move>::empty() == s,
{
    assert(Seq::<Move>::empty() + s =~= s);
    assert(s + Seq::<Move>::empty() =~= s);
}

/// Law: composition of move sequences is associative.
pub proof fn lemma_compose_assoc(a: Seq<Move>, b: Seq<Move>, c: Seq<Move>)
    ensures
        (a + b) + c == a + (b + c),
{
    assert((a + b) + c =~= a + (b + c));
}

/// Law: the zeroth power of any move sequence is the empty sequence.
pub proof fn lemma_power_zero(s: Seq<Move>)
    ensures
        power_moves(s, 0) == Seq::<Move>::empty(),
{
}

/// Law: the first power of any move sequence is the sequence itself.
pub proof fn lemma_power_one(s: Seq<Move>)
    ensures
        power_moves(s, 1) == s,
{
    assert(repeat_moves(s, 0) + s =~= s);
}

/// Law: the minus-first power of any move sequence is its inverse.
pub proof fn lemma_power_neg_one(s: Seq<Move>)
    ensures
        power_moves(s, -1) == invert_moves(s),
{
    assert(repeat_moves(invert_moves(s), 0) + invert_moves(s) =~= invert_moves(s));
}

/// Law: the second power of any move sequence is the sequence composed with
/// itself.
pub proof fn lemma_power_two(s: Seq<Move>)
    ensures
        power_moves(s, 2) == s + s,
{
    lemma_power_one(s);
    assert(repeat_moves(s, 2) == repeat_moves(s, 1) + s);
}

} // verus!
