//! The cube state: permutation and orientation vectors for the eight corner
//! and twelve edge slots.

use vstd::prelude::*;
use crate::turns::{Face, face_turn, face_turns, move_view, cycle4_perm, cycle4_ori,
    lemma_face_turn_wf};
use crate::moves::Move;

verus! {

/// Number of corner slots.
pub const CORNERS: usize = 8;

/// Number of edge slots.
pub const EDGES: usize = 12;

/// Mathematical model of a cube state: the four vectors as sequences.
///
/// `corner_perm[s]` is the identity of the corner piece in slot `s`,
/// `corner_ori[s]` its twist (mod 3); `edge_perm` and `edge_ori` are the
/// analogues for edges, with flips counted mod 2.
#[verifier::ext_equal]
pub struct CubeView {
    pub corner_perm: Seq<u8>,
    pub corner_ori: Seq<u8>,
    pub edge_perm: Seq<u8>,
    pub edge_ori: Seq<u8>,
}

/// `p` is a genuine permutation vector of `n` slots: right length, entries
/// in range, no entry repeated.
pub open spec fn perm_valid(p: Seq<u8>, n: nat) -> bool {
    &&& p.len() == n
    &&& forall|i: int| 0 <= i < p.len() ==> p[i] < n
    &&& forall|i: int, j: int| 0 <= i < j < p.len() ==> p[i] != p[j]
}

/// `o` is an orientation vector of `n` slots with entries below `m`.
pub open spec fn ori_valid(o: Seq<u8>, n: nat, m: u8) -> bool {
    &&& o.len() == n
    &&& forall|i: int| 0 <= i < o.len() ==> o[i] < m
}

/// A well-formed cube state: both permutation vectors are genuine
/// permutations and every orientation entry lies in its domain ({0,1,2} for
/// corners, {0,1} for edges). Well-formedness does not imply legality: a
/// well-formed state may still have mismatched parities or nonzero
/// orientation sums.
pub open spec fn wf_view(v: CubeView) -> bool {
    &&& perm_valid(v.corner_perm, CORNERS as nat)
    &&& ori_valid(v.corner_ori, CORNERS as nat, 3)
    &&& perm_valid(v.edge_perm, EDGES as nat)
    &&& ori_valid(v.edge_ori, EDGES as nat, 2)
}

/// The solved state: every piece home, every orientation zero.
pub open spec fn solved_view() -> CubeView {
    CubeView {
        corner_perm: Seq::new(CORNERS as nat, |i: int| i as u8),
        corner_ori: Seq::new(CORNERS as nat, |i: int| 0u8),
        edge_perm: Seq::new(EDGES as nat, |i: int| i as u8),
        edge_ori: Seq::new(EDGES as nat, |i: int| 0u8),
    }
}

/// State of a 3x3x3 Rubik's cube.
///
/// Slot numbering. Corners: 0 UFL, 1 UFR, 2 UBR, 3 UBL, 4 DFL, 5 DFR,
/// 6 DBR, 7 DBL. Edges: 0 UF, 1 UR, 2 UB, 3 UL, 4 FL, 5 FR, 6 BR, 7 BL,
/// 8 DF, 9 DR, 10 DB, 11 DL.
///
/// Every `Cube` is well-formed by construction; states that are well-formed
/// but not reachable from solved are representable and are diagnosed by
/// [`Cube::legality`], not rejected.
#[derive(Debug, Clone, Copy, PartialEq, Eq)]
pub struct Cube {
    pub(crate) corner_perm: [u8; 8],
    pub(crate) corner_ori: [u8; 8],
    pub(crate) edge_perm: [u8; 12],
    pub(crate) edge_ori: [u8; 12],
}

impl Default for Cube {
    /// The default cube state is the solved cube.
    fn default() -> (r: Cube)
        ensures
            r@ == solved_view(),
    {
        Cube::solved()
    }
}

impl View for Cube {
    type V = CubeView;

    closed spec fn view(&self) -> CubeView {
        CubeView {
            corner_perm: self.corner_perm@,
            corner_ori: self.corner_ori@,
            edge_perm: self.edge_perm@,
            edge_ori: self.edge_ori@,
        }
    }
}

/// Whether `p` is a genuine permutation vector of its `N` slots.
fn perm_ok<const N: usize>(p: &[u8; N]) -> (r: bool)
    requires
        N <= 256,
    ensures
        r == perm_valid(p@, N as nat),
{
    let mut i: usize = 0;
    while i < N
        invariant
            i <= N,
            N <= 256,
            p@.len() == N,
            forall|k: int| 0 <= k < i ==> p@[k] < N,
        decreases N - i,
    {
        if p[i] as usize >= N {
            return false;
        }
        i = i + 1;
    }
    let mut a: usize = 0;
    while a < N
        invariant
            a <= N,
            N <= 256,
            p@.len() == N,
            forall|k: int| 0 <= k < N ==> p@[k] < N,
            forall|x: int, y: int| 0 <= x < y < N && x < a ==> p@[x] != p@[y],
        decreases N - a,
    {
        let mut b: usize = a + 1;
        while b < N
            invariant
                a < N,
                a + 1 <= b <= N,
                N <= 256,
                p@.len() == N,
                forall|k: int| 0 <= k < N ==> p@[k] < N,
                forall|x: int, y: int| 0 <= x < y < N && x < a ==> p@[x] != p@[y],
                forall|y: int| a < y < b ==> p@[a as int] != p@[y],
            decreases N - b,
        {
            if p[a] == p[b] {
                return false;
            }
            b = b + 1;
        }
        a = a + 1;
    }
    true
}

/// Whether every entry of `o` is below `m`.
fn ori_ok<const N: usize>(o: &[u8; N], m: u8) -> (r: bool)
    ensures
        r == ori_valid(o@, N as nat, m),
{
    let mut i: usize = 0;
    while i < N
        invariant
            i <= N,
            o@.len() == N,
            forall|k: int| 0 <= k < i ==> o@[k] < m,
        decreases N - i,
    {
        if o[i] >= m {
            return false;
        }
        i = i + 1;
    }
    true
}

impl Cube {
    /// Every cube state this library can build is well-formed.
    #[verifier::type_invariant]
    pub open spec fn well_formed(self) -> bool {
        wf_view(self.view())
    }

    /// The solved cube.
    pub fn solved() -> (r: Cube)
        ensures
            r@ == solved_view(),
    {
        let r = Cube {
            corner_perm: [0, 1, 2, 3, 4, 5, 6, 7],
            corner_ori: [0, 0, 0, 0, 0, 0, 0, 0],
            edge_perm: [0, 1, 2, 3, 4, 5, 6, 7, 8, 9, 10, 11],
            edge_ori: [0, 0, 0, 0, 0, 0, 0, 0, 0, 0, 0, 0],
        };
        proof {
            assert(r@.corner_perm =~= solved_view().corner_perm);
            assert(r@.corner_ori =~= solved_view().corner_ori);
            assert(r@.edge_perm =~= solved_view().edge_perm);
            assert(r@.edge_ori =~= solved_view().edge_ori);
            assert(r@ =~= solved_view());
        }
        r
    }

    /// The solved cube, seen as the identity of the cube group.
    pub fn identity() -> (r: Cube)
        ensures
            r@ == solved_view(),
    {
        Cube::solved()
    }

    /// Whether this state is exactly the solved state, permutations and
    /// orientations alike.
    pub fn is_solved(&self) -> (r: bool)
        ensures
            r == (self@ == solved_view()),
    {
        proof {
            use_type_invariant(self);
        }
        let mut i: usize = 0;
        while i < 8
            invariant
                i <= 8,
                self@.corner_perm.len() == 8,
                self@.corner_ori.len() == 8,
                forall|k: int|
                    0 <= k < i ==> self@.corner_perm[k] == k as u8 && self@.corner_ori[k] == 0u8,
            decreases 8 - i,
        {
            if self.corner_perm[i] != i as u8 || self.corner_ori[i] != 0 {
                proof {
                    assert(self@ != solved_view());
                }
                return false;
            }
            i = i + 1;
        }
        let mut j: usize = 0;
        while j < 12
            invariant
                j <= 12,
                self@.edge_perm.len() == 12,
                self@.edge_ori.len() == 12,
                forall|k: int|
                    0 <= k < 8 ==> self@.corner_perm[k] == k as u8 && self@.corner_ori[k] == 0u8,
                forall|k: int|
                    0 <= k < j ==> self@.edge_perm[k] == k as u8 && self@.edge_ori[k] == 0u8,
            decreases 12 - j,
        {
            if self.edge_perm[j] != j as u8 || self.edge_ori[j] != 0 {
                proof {
                    assert(self@ != solved_view());
                }
                return false;
            }
            j = j + 1;
        }
        proof {
            assert(self@.corner_perm =~= solved_view().corner_perm);
            assert(self@.corner_ori =~= solved_view().corner_ori);
            assert(self@.edge_perm =~= solved_view().edge_perm);
            assert(self@.edge_ori =~= solved_view().edge_ori);
            assert(self@ =~= solved_view());
        }
        true
    }

    /// A cube state built from raw vectors: `Some` exactly when the parts
    /// are well-formed (both permutation vectors are genuine permutations,
    /// every orientation entry in its domain). Well-formed states that are
    /// not reachable from solved are accepted: they are diagnosed by
    /// [`Cube::legality`], not rejected here.
    pub fn from_parts(
        corner_perm: [u8; 8],
        corner_ori: [u8; 8],
        edge_perm: [u8; 12],
        edge_ori: [u8; 12],
    ) -> (r: Option<Cube>)
        ensures
            r matches Some(c) ==> c@ == (CubeView {
                corner_perm: corner_perm@,
                corner_ori: corner_ori@,
                edge_perm: edge_perm@,
                edge_ori: edge_ori@,
            }),
            r is Some <==> wf_view(
                CubeView {
                    corner_perm: corner_perm@,
                    corner_ori: corner_ori@,
                    edge_perm: edge_perm@,
                    edge_ori: edge_ori@,
                },
            ),
    {
        if perm_ok(&corner_perm) && ori_ok(&corner_ori, 3) && perm_ok(&edge_perm) && ori_ok(
            &edge_ori,
            2,
        ) {
            Some(Cube { corner_perm, corner_ori, edge_perm, edge_ori })
        } else {
            None
        }
    }

    /// The corner permutation vector: entry `s` is the piece in corner slot
    /// `s`.
    pub fn corners(&self) -> (r: &[u8; 8])
        ensures
            r@ == self@.corner_perm,
    {
        &self.corner_perm
    }

    /// The corner orientation vector, entries in {0,1,2}.
    pub fn corner_orientations(&self) -> (r: &[u8; 8])
        ensures
            r@ == self@.corner_ori,
    {
        &self.corner_ori
    }

    /// The edge permutation vector: entry `s` is the piece in edge slot `s`.
    pub fn edges(&self) -> (r: &[u8; 12])
        ensures
            r@ == self@.edge_perm,
    {
        &self.edge_perm
    }

    /// The edge orientation vector, entries in {0,1}.
    pub fn edge_orientations(&self) -> (r: &[u8; 12])
        ensures
            r@ == self@.edge_ori,
    {
        &self.edge_ori
    }

    /// One clockwise quarter turn of the upper face.
    fn apply_u(&mut self)
        ensures
            final(self)@ == face_turn(Face::Up, old(self)@),
    {
        proof {
            use_type_invariant(&*self);
            lemma_face_turn_wf(Face::Up, self@);
        }
        let cp = self.corner_perm;
        let co = self.corner_ori;
        let ep = self.edge_perm;
        let eo = self.edge_ori;
        let mut ncp = cp;
        ncp[0] = cp[3];
        ncp[1] = cp[0];
        ncp[2] = cp[1];
        ncp[3] = cp[2];
        let mut nco = co;
        nco[0] = co[3];
        nco[1] = co[0];
        nco[2] = co[1];
        nco[3] = co[2];
        let mut nep = ep;
        nep[0] = ep[3];
        nep[1] = ep[0];
        nep[2] = ep[1];
        nep[3] = ep[2];
        let mut neo = eo;
        neo[0] = eo[3];
        neo[1] = eo[0];
        neo[2] = eo[1];
        neo[3] = eo[2];
        proof {
            assert(ncp@ =~= cycle4_perm(cp@, 3, 0, 1, 2));
            assert(nco@ =~= cycle4_ori(co@, 3, 0, 1, 2, 0, 0, 3));
            assert(nep@ =~= cycle4_perm(ep@, 3, 0, 1, 2));
            assert(neo@ =~= cycle4_ori(eo@, 3, 0, 1, 2, 0, 0, 2));
        }
        *self = Cube { corner_perm: ncp, corner_ori: nco, edge_perm: nep, edge_ori: neo };
        proof {
            assert(self@ =~= face_turn(Face::Up, old(self)@));
        }
    }

    /// One clockwise quarter turn of the lower face.
    fn apply_d(&mut self)
        ensures
            final(self)@ == face_turn(Face::Down, old(self)@),
    {
        proof {
            use_type_invariant(&*self);
            lemma_face_turn_wf(Face::Down, self@);
        }
        let cp = self.corner_perm;
        let co = self.corner_ori;
        let ep = self.edge_perm;
        let eo = self.edge_ori;
        let mut ncp = cp;
        ncp[4] = cp[7];
        ncp[5] = cp[4];
        ncp[6] = cp[5];
        ncp[7] = cp[6];
        let mut nco = co;
        nco[4] = co[7];
        nco[5] = co[4];
        nco[6] = co[5];
        nco[7] = co[6];
        let mut nep = ep;
        nep[8] = ep[11];
        nep[9] = ep[8];
        nep[10] = ep[9];
        nep[11] = ep[10];
        let mut neo = eo;
        neo[8] = eo[11];
        neo[9] = eo[8];
        neo[10] = eo[9];
        neo[11] = eo[10];
        proof {
            assert(ncp@ =~= cycle4_perm(cp@, 7, 4, 5, 6));
            assert(nco@ =~= cycle4_ori(co@, 7, 4, 5, 6, 0, 0, 3));
            assert(nep@ =~= cycle4_perm(ep@, 11, 8, 9, 10));
            assert(neo@ =~= cycle4_ori(eo@, 11, 8, 9, 10, 0, 0, 2));
        }
        *self = Cube { corner_perm: ncp, corner_ori: nco, edge_perm: nep, edge_ori: neo };
        proof {
            assert(self@ =~= face_turn(Face::Down, old(self)@));
        }
    }

    /// One clockwise quarter turn of the left face, twisting the four cycled
    /// corners.
    fn apply_l(&mut self)
        ensures
            final(self)@ == face_turn(Face::Left, old(self)@),
    {
        proof {
            use_type_invariant(&*self);
            lemma_face_turn_wf(Face::Left, self@);
        }
        let cp = self.corner_perm;
        let co = self.corner_ori;
        let ep = self.edge_perm;
        let eo = self.edge_ori;
        let mut ncp = cp;
        ncp[0] = cp[4];
        ncp[3] = cp[0];
        ncp[7] = cp[3];
        ncp[4] = cp[7];
        let mut nco = co;
        nco[0] = (co[4] + 1) % 3;
        nco[3] = (co[0] + 2) % 3;
        nco[7] = (co[3] + 1) % 3;
        nco[4] = (co[7] + 2) % 3;
        let mut nep = ep;
        nep[3] = ep[4];
        nep[7] = ep[3];
        nep[11] = ep[7];
        nep[4] = ep[11];
        let mut neo = eo;
        neo[3] = eo[4];
        neo[7] = eo[3];
        neo[11] = eo[7];
        neo[4] = eo[11];
        proof {
            assert(ncp@ =~= cycle4_perm(cp@, 4, 0, 3, 7));
            assert(nco@ =~= cycle4_ori(co@, 4, 0, 3, 7, 1, 2, 3));
            assert(nep@ =~= cycle4_perm(ep@, 4, 3, 7, 11));
            assert(neo@ =~= cycle4_ori(eo@, 4, 3, 7, 11, 0, 0, 2));
        }
        *self = Cube { corner_perm: ncp, corner_ori: nco, edge_perm: nep, edge_ori: neo };
        proof {
            assert(self@ =~= face_turn(Face::Left, old(self)@));
        }
    }

    /// One clockwise quarter turn of the right face, twisting the four
    /// cycled corners.
    fn apply_r(&mut self)
        ensures
            final(self)@ == face_turn(Face::Right, old(self)@),
    {
        proof {
            use_type_invariant(&*self);
            lemma_face_turn_wf(Face::Right, self@);
        }
        let cp = self.corner_perm;
        let co = self.corner_ori;
        let ep = self.edge_perm;
        let eo = self.edge_ori;
        let mut ncp = cp;
        ncp[1] = cp[5];
        ncp[2] = cp[1];
        ncp[6] = cp[2];
        ncp[5] = cp[6];
        let mut nco = co;
        nco[1] = (co[5] + 1) % 3;
        nco[2] = (co[1] + 2) % 3;
        nco[6] = (co[2] + 1) % 3;
        nco[5] = (co[6] + 2) % 3;
        let mut nep = ep;
        nep[1] = ep[5];
        nep[6] = ep[1];
        nep[9] = ep[6];
        nep[5] = ep[9];
        let mut neo = eo;
        neo[1] = eo[5];
        neo[6] = eo[1];
        neo[9] = eo[6];
        neo[5] = eo[9];
        proof {
            assert(ncp@ =~= cycle4_perm(cp@, 5, 1, 2, 6));
            assert(nco@ =~= cycle4_ori(co@, 5, 1, 2, 6, 1, 2, 3));
            assert(nep@ =~= cycle4_perm(ep@, 5, 1, 6, 9));
            assert(neo@ =~= cycle4_ori(eo@, 5, 1, 6, 9, 0, 0, 2));
        }
        *self = Cube { corner_perm: ncp, corner_ori: nco, edge_perm: nep, edge_ori: neo };
        proof {
            assert(self@ =~= face_turn(Face::Right, old(self)@));
        }
    }

    /// One clockwise quarter turn of the front face, twisting the four
    /// cycled corners and flipping the four cycled edges.
    fn apply_f(&mut self)
        ensures
            final(self)@ == face_turn(Face::Front, old(self)@),
    {
        proof {
            use_type_invariant(&*self);
            lemma_face_turn_wf(Face::Front, self@);
        }
        let cp = self.corner_perm;
        let co = self.corner_ori;
        let ep = self.edge_perm;
        let eo = self.edge_ori;
        let mut ncp = cp;
        ncp[0] = cp[4];
        ncp[1] = cp[0];
        ncp[5] = cp[1];
        ncp[4] = cp[5];
        let mut nco = co;
        nco[0] = (co[4] + 1) % 3;
        nco[1] = (co[0] + 2) % 3;
        nco[5] = (co[1] + 1) % 3;
        nco[4] = (co[5] + 2) % 3;
        let mut nep = ep;
        nep[0] = ep[4];
        nep[5] = ep[0];
        nep[8] = ep[5];
        nep[4] = ep[8];
        let mut neo = eo;
        neo[0] = (eo[4] + 1) % 2;
        neo[5] = (eo[0] + 1) % 2;
        neo[8] = (eo[5] + 1) % 2;
        neo[4] = (eo[8] + 1) % 2;
        proof {
            assert(ncp@ =~= cycle4_perm(cp@, 4, 0, 1, 5));
            assert(nco@ =~= cycle4_ori(co@, 4, 0, 1, 5, 1, 2, 3));
            assert(nep@ =~= cycle4_perm(ep@, 4, 0, 5, 8));
            assert(neo@ =~= cycle4_ori(eo@, 4, 0, 5, 8, 1, 1, 2));
        }
        *self = Cube { corner_perm: ncp, corner_ori: nco, edge_perm: nep, edge_ori: neo };
        proof {
            assert(self@ =~= face_turn(Face::Front, old(self)@));
        }
    }

    /// One clockwise quarter turn of the back face, twisting the four cycled
    /// corners and flipping the four cycled edges.
    fn apply_b(&mut self)
        ensures
            final(self)@ == face_turn(Face::Back, old(self)@),
    {
        proof {
            use_type_invariant(&*self);
            lemma_face_turn_wf(Face::Back, self@);
        }
        let cp = self.corner_perm;
        let co = self.corner_ori;
        let ep = self.edge_perm;
        let eo = self.edge_ori;
        let mut ncp = cp;
        ncp[3] = cp[7];
        ncp[2] = cp[3];
        ncp[6] = cp[2];
        ncp[7] = cp[6];
        let mut nco = co;
        nco[3] = (co[7] + 1) % 3;
        nco[2] = (co[3] + 2) % 3;
        nco[6] = (co[2] + 1) % 3;
        nco[7] = (co[6] + 2) % 3;
        let mut nep = ep;
        nep[2] = ep[7];
        nep[6] = ep[2];
        nep[10] = ep[6];
        nep[7] = ep[10];
        let mut neo = eo;
        neo[2] = (eo[7] + 1) % 2;
        neo[6] = (eo[2] + 1) % 2;
        neo[10] = (eo[6] + 1) % 2;
        neo[7] = (eo[10] + 1) % 2;
        proof {
            assert(ncp@ =~= cycle4_perm(cp@, 7, 3, 2, 6));
            assert(nco@ =~= cycle4_ori(co@, 7, 3, 2, 6, 1, 2, 3));
            assert(nep@ =~= cycle4_perm(ep@, 7, 2, 6, 10));
            assert(neo@ =~= cycle4_ori(eo@, 7, 2, 6, 10, 1, 1, 2));
        }
        *self = Cube { corner_perm: ncp, corner_ori: nco, edge_perm: nep, edge_ori: neo };
        proof {
            assert(self@ =~= face_turn(Face::Back, old(self)@));
        }
    }

    /// Apply one move to this cube state. Half and reverse-quarter turns are
    /// realized as two or three clockwise quarter turns of the same face, so
    /// the group laws hold by construction.
    pub fn apply_move(&mut self, m: Move)
        ensures
            final(self)@ == move_view(m, old(self)@),
    {
        proof {
            assert(forall|f: Face, v: CubeView| #![all_triggers] face_turns(f, v, 1) == face_turn(
                f,
                face_turns(f, v, 0),
            ));
            assert(forall|f: Face, v: CubeView| #![all_triggers] face_turns(f, v, 2) == face_turn(
                f,
                face_turns(f, v, 1),
            ));
            assert(forall|f: Face, v: CubeView| #![all_triggers] face_turns(f, v, 3) == face_turn(
                f,
                face_turns(f, v, 2),
            ));
        }
        match m {
            Move::U => self.apply_u(),
            Move::U2 => {
                self.apply_u();
                self.apply_u();
            },
            Move::UPrime => {
                self.apply_u();
                self.apply_u();
                self.apply_u();
            },
            Move::D => self.apply_d(),
            Move::D2 => {
                self.apply_d();
                self.apply_d();
            },
            Move::DPrime => {
                self.apply_d();
                self.apply_d();
                self.apply_d();
            },
            Move::L => self.apply_l(),
            Move::L2 => {
                self.apply_l();
                self.apply_l();
            },
            Move::LPrime => {
                self.apply_l();
                self.apply_l();
                self.apply_l();
            },
            Move::R => self.apply_r(),
            Move::R2 => {
                self.apply_r();
                self.apply_r();
            },
            Move::RPrime => {
                self.apply_r();
                self.apply_r();
                self.apply_r();
            },
            Move::F => self.apply_f(),
            Move::F2 => {
                self.apply_f();
                self.apply_f();
            },
            Move::FPrime => {
                self.apply_f();
                self.apply_f();
                self.apply_f();
            },
            Move::B => self.apply_b(),
            Move::B2 => {
                self.apply_b();
                self.apply_b();
            },
            Move::BPrime => {
                self.apply_b();
                self.apply_b();
                self.apply_b();
            },
        }
    }
}

} // verus!
