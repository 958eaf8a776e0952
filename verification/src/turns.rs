//! The transition engine's mathematical model: what one face turn does to a
//! cube state.
//!
//! Every quarter turn is a simultaneous 4-cycle over four corner slots and
//! four edge slots, with a fixed orientation delta attached to each arrival
//! slot. Half and reverse-quarter turns are the quarter turn applied two or
//! three times, so the group laws hold by construction.

use vstd::prelude::*;
use crate::moves::Move;
use crate::state::{CubeView, wf_view, perm_valid, ori_valid};

verus! {

/// `(x + t) % m`, the orientation of a piece after a twist of `t`.
pub open spec fn addmod(x: u8, t: u8, m: u8) -> u8 {
    (((x + t) % (m as int)) as u8)
}

/// The permutation vector after the slot cycle `a -> b -> c -> d -> a`:
/// the piece in slot `a` moves to slot `b`, and so on around the cycle.
/// All four new entries read the vector as it was before the turn.
pub open spec fn cycle4_perm(p: Seq<u8>, a: int, b: int, c: int, d: int) -> Seq<u8> {
    p.update(b, p[a]).update(c, p[b]).update(d, p[c]).update(a, p[d])
}

/// The orientation vector after the same slot cycle, the arriving pieces
/// twisted by `t1` at slots `b` and `d` and by `t2` at slots `c` and `a`,
/// all mod `m`.
pub open spec fn cycle4_ori(
    o: Seq<u8>,
    a: int,
    b: int,
    c: int,
    d: int,
    t1: u8,
    t2: u8,
    m: u8,
) -> Seq<u8> {
    o.update(b, addmod(o[a], t1, m)).update(c, addmod(o[b], t2, m)).update(
        d,
        addmod(o[c], t1, m),
    ).update(a, addmod(o[d], t2, m))
}

/// The six faces of the cube.
pub enum Face {
    Up,
    Down,
    Left,
    Right,
    Front,
    Back,
}

/// One clockwise quarter turn of face `f`.
///
/// U and D permute without touching orientations; L, R, F and B twist the
/// four cycled corners by the pattern +1, +2, +1, +2 (mod 3); F and B
/// additionally flip the four cycled edges (mod 2).
pub open spec fn face_turn(f: Face, v: CubeView) -> CubeView {
    match f {
        Face::Up => CubeView {
            corner_perm: cycle4_perm(v.corner_perm, 3, 0, 1, 2),
            corner_ori: cycle4_ori(v.corner_ori, 3, 0, 1, 2, 0, 0, 3),
            edge_perm: cycle4_perm(v.edge_perm, 3, 0, 1, 2),
            edge_ori: cycle4_ori(v.edge_ori, 3, 0, 1, 2, 0, 0, 2),
        },
        Face::Down => CubeView {
            corner_perm: cycle4_perm(v.corner_perm, 7, 4, 5, 6),
            corner_ori: cycle4_ori(v.corner_ori, 7, 4, 5, 6, 0, 0, 3),
            edge_perm: cycle4_perm(v.edge_perm, 11, 8, 9, 10),
            edge_ori: cycle4_ori(v.edge_ori, 11, 8, 9, 10, 0, 0, 2),
        },
        Face::Left => CubeView {
            corner_perm: cycle4_perm(v.corner_perm, 4, 0, 3, 7),
            corner_ori: cycle4_ori(v.corner_ori, 4, 0, 3, 7, 1, 2, 3),
            edge_perm: cycle4_perm(v.edge_perm, 4, 3, 7, 11),
            edge_ori: cycle4_ori(v.edge_ori, 4, 3, 7, 11, 0, 0, 2),
        },
        Face::Right => CubeView {
            corner_perm: cycle4_perm(v.corner_perm, 5, 1, 2, 6),
            corner_ori: cycle4_ori(v.corner_ori, 5, 1, 2, 6, 1, 2, 3),
            edge_perm: cycle4_perm(v.edge_perm, 5, 1, 6, 9),
            edge_ori: cycle4_ori(v.edge_ori, 5, 1, 6, 9, 0, 0, 2),
        },
        Face::Front => CubeView {
            corner_perm: cycle4_perm(v.corner_perm, 4, 0, 1, 5),
            corner_ori: cycle4_ori(v.corner_ori, 4, 0, 1, 5, 1, 2, 3),
            edge_perm: cycle4_perm(v.edge_perm, 4, 0, 5, 8),
            edge_ori: cycle4_ori(v.edge_ori, 4, 0, 5, 8, 1, 1, 2),
        },
        Face::Back => CubeView {
            corner_perm: cycle4_perm(v.corner_perm, 7, 3, 2, 6),
            corner_ori: cycle4_ori(v.corner_ori, 7, 3, 2, 6, 1, 2, 3),
            edge_perm: cycle4_perm(v.edge_perm, 7, 2, 6, 10),
            edge_ori: cycle4_ori(v.edge_ori, 7, 2, 6, 10, 1, 1, 2),
        },
    }
}

/// `k` clockwise quarter turns of face `f`.
pub open spec fn face_turns(f: Face, v: CubeView, k: nat) -> CubeView
    decreases k,
{
    if k == 0 {
        v
    } else {
        face_turn(f, face_turns(f, v, (k - 1) as nat))
    }
}

/// The face a move turns.
pub open spec fn face_of(m: Move) -> Face {
    match m {
        Move::U | Move::U2 | Move::UPrime => Face::Up,
        Move::D | Move::D2 | Move::DPrime => Face::Down,
        Move::L | Move::L2 | Move::LPrime => Face::Left,
        Move::R | Move::R2 | Move::RPrime => Face::Right,
        Move::F | Move::F2 | Move::FPrime => Face::Front,
        Move::B | Move::B2 | Move::BPrime => Face::Back,
    }
}

/// How many clockwise quarter turns a move amounts to.
pub open spec fn turns_of(m: Move) -> nat {
    match m {
        Move::U | Move::D | Move::L | Move::R | Move::F | Move::B => 1,
        Move::U2 | Move::D2 | Move::L2 | Move::R2 | Move::F2 | Move::B2 => 2,
        Move::UPrime | Move::DPrime | Move::LPrime | Move::RPrime | Move::FPrime
        | Move::BPrime => 3,
    }
}

/// The cube state after applying move `m` to state `v`.
pub open spec fn move_view(m: Move, v: CubeView) -> CubeView {
    face_turns(face_of(m), v, turns_of(m))
}

/// The cube state after applying the moves of `s` to `v`, left to right.
pub open spec fn alg_view(s: Seq<Move>, v: CubeView) -> CubeView
    decreases s.len(),
{
    if s.len() == 0 {
        v
    } else {
        alg_view(s.drop_first(), move_view(s[0], v))
    }
}

/// A 4-cycle keeps a permutation vector a genuine permutation.
pub proof fn lemma_cycle4_perm_valid(p: Seq<u8>, n: nat, a: int, b: int, c: int, d: int)
    requires
        perm_valid(p, n),
        0 <= a < n && 0 <= b < n && 0 <= c < n && 0 <= d < n,
        a != b && a != c && a != d && b != c && b != d && c != d,
    ensures
        perm_valid(cycle4_perm(p, a, b, c, d), n),
{
}

/// A 4-cycle with twists keeps every orientation entry in its domain.
pub proof fn lemma_cycle4_ori_valid(
    o: Seq<u8>,
    n: nat,
    m: u8,
    a: int,
    b: int,
    c: int,
    d: int,
    t1: u8,
    t2: u8,
)
    requires
        ori_valid(o, n, m),
        m > 0,
        0 <= a < n && 0 <= b < n && 0 <= c < n && 0 <= d < n,
    ensures
        ori_valid(cycle4_ori(o, a, b, c, d, t1, t2, m), n, m),
{
}

/// One quarter turn of any face keeps the state well-formed.
pub proof fn lemma_face_turn_wf(f: Face, v: CubeView)
    requires
        wf_view(v),
    ensures
        wf_view(face_turn(f, v)),
{
    match f {
        Face::Up => {
            lemma_cycle4_perm_valid(v.corner_perm, 8, 3, 0, 1, 2);
            lemma_cycle4_ori_valid(v.corner_ori, 8, 3, 3, 0, 1, 2, 0, 0);
            lemma_cycle4_perm_valid(v.edge_perm, 12, 3, 0, 1, 2);
            lemma_cycle4_ori_valid(v.edge_ori, 12, 2, 3, 0, 1, 2, 0, 0);
        },
        Face::Down => {
            lemma_cycle4_perm_valid(v.corner_perm, 8, 7, 4, 5, 6);
            lemma_cycle4_ori_valid(v.corner_ori, 8, 3, 7, 4, 5, 6, 0, 0);
            lemma_cycle4_perm_valid(v.edge_perm, 12, 11, 8, 9, 10);
            lemma_cycle4_ori_valid(v.edge_ori, 12, 2, 11, 8, 9, 10, 0, 0);
        },
        Face::Left => {
            lemma_cycle4_perm_valid(v.corner_perm, 8, 4, 0, 3, 7);
            lemma_cycle4_ori_valid(v.corner_ori, 8, 3, 4, 0, 3, 7, 1, 2);
            lemma_cycle4_perm_valid(v.edge_perm, 12, 4, 3, 7, 11);
            lemma_cycle4_ori_valid(v.edge_ori, 12, 2, 4, 3, 7, 11, 0, 0);
        },
        Face::Right => {
            lemma_cycle4_perm_valid(v.corner_perm, 8, 5, 1, 2, 6);
            lemma_cycle4_ori_valid(v.corner_ori, 8, 3, 5, 1, 2, 6, 1, 2);
            lemma_cycle4_perm_valid(v.edge_perm, 12, 5, 1, 6, 9);
            lemma_cycle4_ori_valid(v.edge_ori, 12, 2, 5, 1, 6, 9, 0, 0);
        },
        Face::Front => {
            lemma_cycle4_perm_valid(v.corner_perm, 8, 4, 0, 1, 5);
            lemma_cycle4_ori_valid(v.corner_ori, 8, 3, 4, 0, 1, 5, 1, 2);
            lemma_cycle4_perm_valid(v.edge_perm, 12, 4, 0, 5, 8);
            lemma_cycle4_ori_valid(v.edge_ori, 12, 2, 4, 0, 5, 8, 1, 1);
        },
        Face::Back => {
            lemma_cycle4_perm_valid(v.corner_perm, 8, 7, 3, 2, 6);
            lemma_cycle4_ori_valid(v.corner_ori, 8, 3, 7, 3, 2, 6, 1, 2);
            lemma_cycle4_perm_valid(v.edge_perm, 12, 7, 2, 6, 10);
            lemma_cycle4_ori_valid(v.edge_ori, 12, 2, 7, 2, 6, 10, 1, 1);
        },
    }
}

/// Any number of quarter turns keeps the state well-formed.
pub proof fn lemma_face_turns_wf(f: Face, v: CubeView, k: nat)
    requires
        wf_view(v),
    ensures
        wf_view(face_turns(f, v, k)),
    decreases k,
{
    if k > 0 {
        lemma_face_turns_wf(f, v, (k - 1) as nat);
        lemma_face_turn_wf(f, face_turns(f, v, (k - 1) as nat));
    }
}

/// Every move keeps the state well-formed.
pub proof fn lemma_move_wf(m: Move, v: CubeView)
    requires
        wf_view(v),
    ensures
        wf_view(move_view(m, v)),
{
    lemma_face_turns_wf(face_of(m), v, turns_of(m));
}

/// Applying a whole sequence keeps the state well-formed.
pub proof fn lemma_alg_view_wf(s: Seq<Move>, v: CubeView)
    requires
        wf_view(v),
    ensures
        wf_view(alg_view(s, v)),
    decreases s.len(),
{
    if s.len() > 0 {
        lemma_move_wf(s[0], v);
        lemma_alg_view_wf(s.drop_first(), move_view(s[0], v));
    }
}

/// Applying a concatenation is applying the parts in order.
pub proof fn lemma_alg_view_concat(s1: Seq<Move>, s2: Seq<Move>, v: CubeView)
    ensures
        alg_view(s1 + s2, v) == alg_view(s2, alg_view(s1, v)),
    decreases s1.len(),
{
    if s1.len() == 0 {
        assert(s1 + s2 =~= s2);
    } else {
        assert((s1 + s2)[0] == s1[0]);
        assert((s1 + s2).drop_first() =~= s1.drop_first() + s2);
        lemma_alg_view_concat(s1.drop_first(), s2, move_view(s1[0], v));
    }
}

/// Four identical 4-cycles return a permutation vector to its original
/// value.
pub proof fn lemma_cycle4_perm_four(p: Seq<u8>, a: int, b: int, c: int, d: int)
    requires
        0 <= a < p.len() && 0 <= b < p.len() && 0 <= c < p.len() && 0 <= d < p.len(),
        a != b && a != c && a != d && b != c && b != d && c != d,
    ensures
        cycle4_perm(
            cycle4_perm(cycle4_perm(cycle4_perm(p, a, b, c, d), a, b, c, d), a, b, c, d),
            a,
            b,
            c,
            d,
        ) == p,
{
    assert(cycle4_perm(
        cycle4_perm(cycle4_perm(cycle4_perm(p, a, b, c, d), a, b, c, d), a, b, c, d),
        a,
        b,
        c,
        d,
    ) =~= p);
}

/// `addmod` in closed form on in-range arguments: add, and subtract the
/// modulus on wrap-around.
proof fn lemma_addmod_unfold(x: u8, t: u8, m: u8)
    requires
        m > 0,
        x < m,
        t < m,
    ensures
        addmod(x, t, m) == (if x + t < m {
            (x + t) as u8
        } else {
            (x + t - m) as u8
        }),
        addmod(x, t, m) < m,
{
    if x + t < m {
        vstd::arithmetic::div_mod::lemma_small_mod((x + t) as nat, m as nat);
    } else {
        vstd::arithmetic::div_mod::lemma_mod_multiples_vanish(1, x + t - m, m as int);
        vstd::arithmetic::div_mod::lemma_small_mod((x + t - m) as nat, m as nat);
    }
}

/// Four successive twists whose sum is a multiple of the modulus cancel.
proof fn lemma_addmod_chain4(x: u8, s1: u8, s2: u8, s3: u8, s4: u8, m: u8)
    requires
        m == 2 || m == 3,
        x < m,
        s1 < m && s2 < m && s3 < m && s4 < m,
        (s1 + s2 + s3 + s4) % (m as int) == 0,
    ensures
        addmod(addmod(addmod(addmod(x, s1, m), s2, m), s3, m), s4, m) == x,
{
    let y1 = addmod(x, s1, m);
    lemma_addmod_unfold(x, s1, m);
    let y2 = addmod(y1, s2, m);
    lemma_addmod_unfold(y1, s2, m);
    let y3 = addmod(y2, s3, m);
    lemma_addmod_unfold(y2, s3, m);
    lemma_addmod_unfold(y3, s4, m);
    if m == 2 {
        assert((s1 + s2 + s3 + s4) % 2 == 0);
    } else {
        assert((s1 + s2 + s3 + s4) % 3 == 0);
    }
}

/// Four identical twisted 4-cycles return an orientation vector to its
/// original value, because each piece travels the whole cycle and collects
/// every twist, and the four twists sum to a multiple of the modulus.
pub proof fn lemma_cycle4_ori_four(
    o: Seq<u8>,
    a: int,
    b: int,
    c: int,
    d: int,
    t1: u8,
    t2: u8,
    m: u8,
)
    requires
        0 <= a < o.len() && 0 <= b < o.len() && 0 <= c < o.len() && 0 <= d < o.len(),
        a != b && a != c && a != d && b != c && b != d && c != d,
        m == 2 || m == 3,
        t1 < m && t2 < m,
        (2 * t1 + 2 * t2) % (m as int) == 0,
        forall|i: int| 0 <= i < o.len() ==> o[i] < m,
    ensures
        cycle4_ori(
            cycle4_ori(
                cycle4_ori(cycle4_ori(o, a, b, c, d, t1, t2, m), a, b, c, d, t1, t2, m),
                a,
                b,
                c,
                d,
                t1,
                t2,
                m,
            ),
            a,
            b,
            c,
            d,
            t1,
            t2,
            m,
        ) == o,
{
    let o1 = cycle4_ori(o, a, b, c, d, t1, t2, m);
    let o2 = cycle4_ori(o1, a, b, c, d, t1, t2, m);
    let o3 = cycle4_ori(o2, a, b, c, d, t1, t2, m);
    let o4 = cycle4_ori(o3, a, b, c, d, t1, t2, m);
    assert(o4[a] == addmod(addmod(addmod(addmod(o[a], t1, m), t2, m), t1, m), t2, m)) by {
        assert(o1[b] == addmod(o[a], t1, m));
        assert(o2[c] == addmod(o1[b], t2, m));
        assert(o3[d] == addmod(o2[c], t1, m));
        assert(o4[a] == addmod(o3[d], t2, m));
    }
    assert(o4[b] == addmod(addmod(addmod(addmod(o[b], t2, m), t1, m), t2, m), t1, m)) by {
        assert(o1[c] == addmod(o[b], t2, m));
        assert(o2[d] == addmod(o1[c], t1, m));
        assert(o3[a] == addmod(o2[d], t2, m));
        assert(o4[b] == addmod(o3[a], t1, m));
    }
    assert(o4[c] == addmod(addmod(addmod(addmod(o[c], t1, m), t2, m), t1, m), t2, m)) by {
        assert(o1[d] == addmod(o[c], t1, m));
        assert(o2[a] == addmod(o1[d], t2, m));
        assert(o3[b] == addmod(o2[a], t1, m));
        assert(o4[c] == addmod(o3[b], t2, m));
    }
    assert(o4[d] == addmod(addmod(addmod(addmod(o[d], t2, m), t1, m), t2, m), t1, m)) by {
        assert(o1[a] == addmod(o[d], t2, m));
        assert(o2[b] == addmod(o1[a], t1, m));
        assert(o3[c] == addmod(o2[b], t2, m));
        assert(o4[d] == addmod(o3[c], t1, m));
    }
    lemma_addmod_chain4(o[a], t1, t2, t1, t2, m);
    lemma_addmod_chain4(o[b], t2, t1, t2, t1, m);
    lemma_addmod_chain4(o[c], t1, t2, t1, t2, m);
    lemma_addmod_chain4(o[d], t2, t1, t2, t1, m);
    assert(o4 =~= o);
}

/// Four quarter turns of the same face restore the state exactly,
/// permutations and orientations alike.
pub proof fn lemma_face_turn_four(f: Face, v: CubeView)
    requires
        wf_view(v),
    ensures
        face_turns(f, v, 4) == v,
{
    let v1 = face_turn(f, v);
    let v2 = face_turn(f, v1);
    let v3 = face_turn(f, v2);
    let v4 = face_turn(f, v3);
    assert(face_turns(f, v, 0) == v);
    assert(face_turns(f, v, 1) == v1);
    assert(face_turns(f, v, 2) == v2);
    assert(face_turns(f, v, 3) == v3);
    assert(face_turns(f, v, 4) == v4);
    match f {
        Face::Up => {
            lemma_cycle4_perm_four(v.corner_perm, 3, 0, 1, 2);
            lemma_cycle4_ori_four(v.corner_ori, 3, 0, 1, 2, 0, 0, 3);
            lemma_cycle4_perm_four(v.edge_perm, 3, 0, 1, 2);
            lemma_cycle4_ori_four(v.edge_ori, 3, 0, 1, 2, 0, 0, 2);
        },
        Face::Down => {
            lemma_cycle4_perm_four(v.corner_perm, 7, 4, 5, 6);
            lemma_cycle4_ori_four(v.corner_ori, 7, 4, 5, 6, 0, 0, 3);
            lemma_cycle4_perm_four(v.edge_perm, 11, 8, 9, 10);
            lemma_cycle4_ori_four(v.edge_ori, 11, 8, 9, 10, 0, 0, 2);
        },
        Face::Left => {
            lemma_cycle4_perm_four(v.corner_perm, 4, 0, 3, 7);
            lemma_cycle4_ori_four(v.corner_ori, 4, 0, 3, 7, 1, 2, 3);
            lemma_cycle4_perm_four(v.edge_perm, 4, 3, 7, 11);
            lemma_cycle4_ori_four(v.edge_ori, 4, 3, 7, 11, 0, 0, 2);
        },
        Face::Right => {
            lemma_cycle4_perm_four(v.corner_perm, 5, 1, 2, 6);
            lemma_cycle4_ori_four(v.corner_ori, 5, 1, 2, 6, 1, 2, 3);
            lemma_cycle4_perm_four(v.edge_perm, 5, 1, 6, 9);
            lemma_cycle4_ori_four(v.edge_ori, 5, 1, 6, 9, 0, 0, 2);
        },
        Face::Front => {
            lemma_cycle4_perm_four(v.corner_perm, 4, 0, 1, 5);
            lemma_cycle4_ori_four(v.corner_ori, 4, 0, 1, 5, 1, 2, 3);
            lemma_cycle4_perm_four(v.edge_perm, 4, 0, 5, 8);
            lemma_cycle4_ori_four(v.edge_ori, 4, 0, 5, 8, 1, 1, 2);
        },
        Face::Back => {
            lemma_cycle4_perm_four(v.corner_perm, 7, 3, 2, 6);
            lemma_cycle4_ori_four(v.corner_ori, 7, 3, 2, 6, 1, 2, 3);
            lemma_cycle4_perm_four(v.edge_perm, 7, 2, 6, 10);
            lemma_cycle4_ori_four(v.edge_ori, 7, 2, 6, 10, 1, 1, 2);
        },
    }
    assert(v4 =~= v);
}

/// Turning a face `j + k` times is turning it `j` times and then `k` times.
pub proof fn lemma_face_turns_add(f: Face, v: CubeView, j: nat, k: nat)
    ensures
        face_turns(f, v, j + k) == face_turns(f, face_turns(f, v, j), k),
    decreases k,
{
    if k > 0 {
        lemma_face_turns_add(f, v, j, (k - 1) as nat);
    }
}

/// Any multiple of four quarter turns of one face restores the state.
pub proof fn lemma_face_turns_multiple_of_four(f: Face, v: CubeView, k: nat)
    requires
        wf_view(v),
    ensures
        face_turns(f, v, 4 * k) == v,
    decreases k,
{
    if k > 0 {
        lemma_face_turns_multiple_of_four(f, v, (k - 1) as nat);
        lemma_face_turns_add(f, v, (4 * (k - 1)) as nat, 4);
        lemma_face_turn_four(f, v);
    }
}

} // verus!
