//! The parity and legality checker: which well-formed states are reachable
//! from solved by physical moves.

use vstd::prelude::*;
use crate::state::{Cube, CubeView, wf_view};
use crate::turns::{Face, face_turn, face_turns, move_view, face_of, turns_of,
    lemma_face_turns_wf};
use crate::parity::{perm_parity, sum_seq, all_distinct, parity, permutation_parity, ori_sum,
    lemma_cycle4_perm_parity, lemma_cycle4_ori_sum};
use crate::moves::Move;

verus! {

/// The legality invariant: corner and edge permutations have equal parity,
/// the corner twists sum to a multiple of 3, and the edge flips sum to a
/// multiple of 2. Exactly the well-formed states satisfying this are
/// reachable from solved by face turns; the solved state satisfies it, and
/// every face turn preserves it.
pub open spec fn legal_view(v: CubeView) -> bool {
    &&& perm_parity(v.corner_perm) == perm_parity(v.edge_perm)
    &&& sum_seq(v.corner_ori) % 3 == 0
    &&& sum_seq(v.edge_ori) % 2 == 0
}

/// The outcome of a legality check: the two permutation signs, the two
/// orientation sums reduced by their moduli, and the aggregate verdict.
#[derive(Debug, Clone, Copy)]
pub struct LegalityInfo {
    /// Sign of the corner permutation: 1 if even, -1 if odd.
    pub corner_parity: i32,
    /// Sign of the edge permutation: 1 if even, -1 if odd.
    pub edge_parity: i32,
    /// Sum of the edge orientations, mod 2.
    pub edge_flip_sum_mod2: u8,
    /// Sum of the corner orientations, mod 3.
    pub corner_twist_sum_mod3: u8,
    /// Whether the state satisfies the legality invariant.
    pub is_legal: bool,
}

impl Cube {
    /// Parity of the corner permutation: 0 if even, 1 if odd.
    pub fn corner_parity(&self) -> (r: u8)
        ensures
            r as nat == perm_parity(self@.corner_perm),
            r == 0 || r == 1,
    {
        parity(self.corners())
    }

    /// Parity of the edge permutation: 0 if even, 1 if odd.
    pub fn edge_parity(&self) -> (r: u8)
        ensures
            r as nat == perm_parity(self@.edge_perm),
            r == 0 || r == 1,
    {
        parity(self.edges())
    }

    /// Whether this state is reachable from solved by face turns: equal
    /// corner and edge permutation parities, corner twist sum divisible by
    /// 3, edge flip sum divisible by 2.
    pub fn is_legal(&self) -> (r: bool)
        ensures
            r == legal_view(self@),
    {
        let cp = self.corner_parity();
        let ep = self.edge_parity();
        let cts = ori_sum(self.corner_orientations()) % 3;
        let efs = ori_sum(self.edge_orientations()) % 2;
        cp == ep && cts == 0 && efs == 0
    }

    /// The full legality report for this state: both permutation signs,
    /// both orientation sums reduced by their moduli, and the aggregate
    /// verdict, which holds exactly when the parities agree and both
    /// reduced sums are zero.
    pub fn legality(&self) -> (r: LegalityInfo)
        ensures
            r.corner_parity == (if perm_parity(self@.corner_perm) == 0 {
                1i32
            } else {
                -1i32
            }),
            r.edge_parity == (if perm_parity(self@.edge_perm) == 0 {
                1i32
            } else {
                -1i32
            }),
            r.corner_twist_sum_mod3 as int == sum_seq(self@.corner_ori) % 3,
            r.edge_flip_sum_mod2 as int == sum_seq(self@.edge_ori) % 2,
            r.is_legal == legal_view(self@),
    {
        let cp = permutation_parity(self.corners());
        let ep = permutation_parity(self.edges());
        let cts = (ori_sum(self.corner_orientations()) % 3) as u8;
        let efs = (ori_sum(self.edge_orientations()) % 2) as u8;
        let is_legal = cp == ep && efs == 0 && cts == 0;
        LegalityInfo {
            corner_parity: cp,
            edge_parity: ep,
            edge_flip_sum_mod2: efs,
            corner_twist_sum_mod3: cts,
            is_legal,
        }
    }
}

/// One quarter turn flips the parity of both permutation vectors and
/// preserves both orientation sums modulo their domains, so it preserves
/// legality exactly.
pub proof fn lemma_face_turn_legal(f: Face, v: CubeView)
    requires
        wf_view(v),
    ensures
        legal_view(face_turn(f, v)) == legal_view(v),
{
    assert(all_distinct(v.corner_perm));
    assert(all_distinct(v.edge_perm));
    match f {
        Face::Up => {
            lemma_cycle4_perm_parity(v.corner_perm, 3, 0, 1, 2);
            lemma_cycle4_perm_parity(v.edge_perm, 3, 0, 1, 2);
            lemma_cycle4_ori_sum(v.corner_ori, 3, 0, 1, 2, 0, 0, 3);
            lemma_cycle4_ori_sum(v.edge_ori, 3, 0, 1, 2, 0, 0, 2);
        },
        Face::Down => {
            lemma_cycle4_perm_parity(v.corner_perm, 7, 4, 5, 6);
            lemma_cycle4_perm_parity(v.edge_perm, 11, 8, 9, 10);
            lemma_cycle4_ori_sum(v.corner_ori, 7, 4, 5, 6, 0, 0, 3);
            lemma_cycle4_ori_sum(v.edge_ori, 11, 8, 9, 10, 0, 0, 2);
        },
        Face::Left => {
            lemma_cycle4_perm_parity(v.corner_perm, 4, 0, 3, 7);
            lemma_cycle4_perm_parity(v.edge_perm, 4, 3, 7, 11);
            lemma_cycle4_ori_sum(v.corner_ori, 4, 0, 3, 7, 1, 2, 3);
            lemma_cycle4_ori_sum(v.edge_ori, 4, 3, 7, 11, 0, 0, 2);
        },
        Face::Right => {
            lemma_cycle4_perm_parity(v.corner_perm, 5, 1, 2, 6);
            lemma_cycle4_perm_parity(v.edge_perm, 5, 1, 6, 9);
            lemma_cycle4_ori_sum(v.corner_ori, 5, 1, 2, 6, 1, 2, 3);
            lemma_cycle4_ori_sum(v.edge_ori, 5, 1, 6, 9, 0, 0, 2);
        },
        Face::Front => {
            lemma_cycle4_perm_parity(v.corner_perm, 4, 0, 1, 5);
            lemma_cycle4_perm_parity(v.edge_perm, 4, 0, 5, 8);
            lemma_cycle4_ori_sum(v.corner_ori, 4, 0, 1, 5, 1, 2, 3);
            lemma_cycle4_ori_sum(v.edge_ori, 4, 0, 5, 8, 1, 1, 2);
        },
        Face::Back => {
            lemma_cycle4_perm_parity(v.corner_perm, 7, 3, 2, 6);
            lemma_cycle4_perm_parity(v.edge_perm, 7, 2, 6, 10);
            lemma_cycle4_ori_sum(v.corner_ori, 7, 3, 2, 6, 1, 2, 3);
            lemma_cycle4_ori_sum(v.edge_ori, 7, 2, 6, 10, 1, 1, 2);
        },
    }
}

/// Any number of quarter turns of one face preserves legality exactly.
pub proof fn lemma_face_turns_legal(f: Face, v: CubeView, k: nat)
    requires
        wf_view(v),
    ensures
        legal_view(face_turns(f, v, k)) == legal_view(v),
    decreases k,
{
    if k > 0 {
        lemma_face_turns_legal(f, v, (k - 1) as nat);
        lemma_face_turns_wf(f, v, (k - 1) as nat);
        lemma_face_turn_legal(f, face_turns(f, v, (k - 1) as nat));
    }
}

/// Every one of the eighteen moves preserves legality exactly.
pub proof fn lemma_move_legal(m: Move, v: CubeView)
    requires
        wf_view(v),
    ensures
        legal_view(move_view(m, v)) == legal_view(v),
{
    lemma_face_turns_legal(face_of(m), v, turns_of(m));
}

} // verus!
