//! Algorithms as bare move slices: application, inversion, and the derived
//! commutator and conjugate constructors.

use vstd::prelude::*;
use vstd::slice::slice_to_vec;
use crate::moves::{Move, move_inverse};
use crate::state::Cube;
use crate::turns::{alg_view, move_view};

verus! {

/// The inverse of a move sequence: the moves reversed, each replaced by its
/// inverse. Applying `s` and then `invert_moves(s)` restores any state.
pub open spec fn invert_moves(s: Seq<Move>) -> Seq<Move> {
    Seq::new(s.len(), |i: int| move_inverse(s[s.len() - 1 - i]))
}

/// Apply the moves of `alg` to `cube` left to right, returning the
/// resulting state.
pub fn apply_alg(cube: &Cube, alg: &[Move]) -> (r: Cube)
    ensures
        r@ == alg_view(alg@, cube@),
{
    let mut c = *cube;
    let mut i: usize = 0;
    proof {
        assert(alg@.skip(0) =~= alg@);
    }
    while i < alg.len()
        invariant
            i <= alg@.len(),
            alg_view(alg@.skip(i as int), c@) == alg_view(alg@, cube@),
        decreases alg@.len() - i,
    {
        proof {
            assert(alg@.skip(i as int).drop_first() =~= alg@.skip(i as int + 1));
            assert(alg@.skip(i as int)[0] == alg@[i as int]);
        }
        c.apply_move(alg[i]);
        i = i + 1;
    }
    proof {
        assert(alg@.skip(alg@.len() as int) =~= Seq::<Move>::empty());
    }
    c
}

/// The inverse algorithm: the moves reversed, each replaced by its inverse.
pub fn invert_alg(alg: &[Move]) -> (r: Vec<Move>)
    ensures
        r@ == invert_moves(alg@),
{
    let n = alg.len();
    let mut r: Vec<Move> = Vec::new();
    let mut i: usize = 0;
    while i < n
        invariant
            i <= n,
            n == alg@.len(),
            r@.len() == i,
            forall|k: int| 0 <= k < i ==> r@[k] == move_inverse(alg@[n - 1 - k]),
        decreases n - i,
    {
        r.push(alg[n - 1 - i].inverse());
        i = i + 1;
    }
    proof {
        assert(r@ =~= invert_moves(alg@));
    }
    r
}

/// The commutator of `a` and `b`: `a`, then `b`, then the inverse of `a`,
/// then the inverse of `b`. Its length is twice the length of `a` plus
/// twice the length of `b`; the sequence is not simplified.
pub fn commutator(a: &[Move], b: &[Move]) -> (r: Vec<Move>)
    ensures
        r@ == a@ + b@ + invert_moves(a@) + invert_moves(b@),
{
    let mut r = slice_to_vec(a);
    let mut vb = slice_to_vec(b);
    r.append(&mut vb);
    let mut ia = invert_alg(a);
    r.append(&mut ia);
    let mut ib = invert_alg(b);
    r.append(&mut ib);
    r
}

/// The conjugate of `a` by `b`: `b`, then `a`, then the inverse of `b`.
/// Its length is the length of `a` plus twice the length of `b`.
pub fn conjugate(a: &[Move], b: &[Move]) -> (r: Vec<Move>)
    ensures
        r@ == b@ + a@ + invert_moves(b@),
{
    let mut r = slice_to_vec(b);
    let mut va = slice_to_vec(a);
    r.append(&mut va);
    let mut ib = invert_alg(b);
    r.append(&mut ib);
    r
}

} // verus!
