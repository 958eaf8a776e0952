//! Move sequences as group elements: the `Algorithm` type, the group
//! operation interface, and the notation parser and printer for whole
//! algorithms.

use vstd::prelude::*;
use vstd::slice::slice_to_vec;
use crate::moves::{Move, move_chars, parse_move_chars};
use crate::alg::{apply_alg, invert_alg, invert_moves};
use crate::state::Cube;
use crate::turns::alg_view;

verus! {

/// `s` concatenated with itself `k` times.
pub open spec fn repeat_moves(s: Seq<Move>, k: nat) -> Seq<Move>
    decreases k,
{
    if k == 0 {
        Seq::empty()
    } else {
        repeat_moves(s, (k - 1) as nat) + s
    }
}

/// The move sequence of the `n`-th power of `s`: `n` copies of `s` for
/// nonnegative `n`, and `-n` copies of the inverse of `s` for negative `n`.
pub open spec fn power_moves(s: Seq<Move>, n: int) -> Seq<Move> {
    if n >= 0 {
        repeat_moves(s, n as nat)
    } else {
        repeat_moves(invert_moves(s), (-n) as nat)
    }
}

/// Repetition splits over addition of the counts.
pub proof fn lemma_repeat_adds(s: Seq<Move>, x: nat, y: nat)
    ensures
        repeat_moves(s, x + y) == repeat_moves(s, x) + repeat_moves(s, y),
    decreases y,
{
    if y == 0 {
        assert(repeat_moves(s, x) + repeat_moves(s, 0) =~= repeat_moves(s, x));
    } else {
        lemma_repeat_adds(s, x, (y - 1) as nat);
        assert((repeat_moves(s, x) + repeat_moves(s, (y - 1) as nat)) + s =~= repeat_moves(s, x)
            + (repeat_moves(s, (y - 1) as nat) + s));
    }
}

/// The canonical notation of a move sequence: the moves' notations joined
/// by single spaces, with no leading or trailing whitespace.
pub open spec fn alg_chars(s: Seq<Move>) -> Seq<char>
    decreases s.len(),
{
    if s.len() == 0 {
        Seq::empty()
    } else if s.len() == 1 {
        move_chars(s[0])
    } else {
        alg_chars(s.drop_last()) + seq![' '] + move_chars(s.last())
    }
}

/// Token separators recognized by the algorithm parser.
pub open spec fn is_space(c: char) -> bool {
    c == ' ' || c == '\t' || c == '\n' || c == '\r'
}

/// The moves a token denotes: one move for a recognized token, none
/// otherwise.
pub open spec fn token_moves(o: Option<Move>) -> Seq<Move> {
    match o {
        Some(m) => seq![m],
        None => Seq::empty(),
    }
}

/// The moves denoted by the text `s` from position `i` on, with `cur` the
/// characters of the token read so far: tokens are maximal runs of
/// non-separator characters, each parsed by move notation, unrecognized
/// tokens skipped.
pub open spec fn parse_alg_rec(s: Seq<char>, i: int, cur: Seq<char>) -> Seq<Move>
    decreases s.len() - i,
{
    if i < 0 || i > s.len() {
        Seq::empty()
    } else if i == s.len() {
        token_moves(parse_move_chars(cur))
    } else if is_space(s[i]) {
        token_moves(parse_move_chars(cur)) + parse_alg_rec(s, i + 1, Seq::empty())
    } else {
        parse_alg_rec(s, i + 1, cur.push(s[i]))
    }
}

/// The moves denoted by the text `s`: whitespace-separated tokens, each a
/// move notation, unrecognized tokens skipped.
pub open spec fn parse_alg_chars(s: Seq<char>) -> Seq<Move> {
    parse_alg_rec(s, 0, Seq::empty())
}

/// An ordered sequence of moves, applied left to right. The sequence is
/// never simplified: composing an algorithm with its inverse yields a
/// sequence of double length, even though applying it restores every state.
#[derive(Debug, Clone, PartialEq, Eq)]
pub struct Algorithm {
    moves: Vec<Move>,
}

impl View for Algorithm {
    type V = Seq<Move>;

    closed spec fn view(&self) -> Seq<Move> {
        self.moves@
    }
}

/// The group operations every algorithm supports. `rep` is the move
/// sequence an element denotes; each operation pins down the sequence of
/// its result.
pub trait GroupOp: Sized {
    /// The move sequence this group element denotes.
    spec fn rep(&self) -> Seq<Move>;

    /// The identity element: the empty sequence.
    fn identity() -> (r: Self)
        ensures
            r.rep() == Seq::<Move>::empty(),
    ;

    /// The composition of `self` and `other`: `self`'s moves followed by
    /// `other`'s, without simplification.
    fn compose(&self, other: &Self) -> (r: Self)
        ensures
            r.rep() == self.rep() + other.rep(),
    ;

    /// The inverse element: the moves reversed, each replaced by its
    /// inverse.
    fn inverse(&self) -> (r: Self)
        ensures
            r.rep() == invert_moves(self.rep()),
    ;

    /// The `n`-th power: `n` copies of `self` for nonnegative `n`, `-n`
    /// copies of the inverse for negative `n`, computed by binary
    /// square-and-multiply.
    fn power(&self, n: i32) -> (r: Self)
        requires
            n != i32::MIN,
        ensures
            r.rep() == power_moves(self.rep(), n as int),
    {
        let ghost s0 = self.rep();
        let base: Self;
        let ghost bs: Seq<Move>;
        let mut exp: u32;
        if n < 0 {
            base = self.inverse();
            proof {
                bs = invert_moves(s0);
            }
            exp = (-n) as u32;
        } else {
            let id = Self::identity();
            base = id.compose(self);
            proof {
                bs = s0;
                assert(Seq::<Move>::empty() + s0 =~= s0);
            }
            exp = n as u32;
        }
        let ghost n_abs = exp as nat;
        let mut result = Self::identity();
        let mut base = base;
        let ghost mut r_cnt: nat = 0;
        let ghost mut b_cnt: nat = 1;
        proof {
            assert(repeat_moves(bs, 0) =~= Seq::<Move>::empty());
            assert(repeat_moves(bs, 1) =~= bs) by {
                assert(repeat_moves(bs, 0) + bs =~= bs);
            }
            assert(power_moves(s0, n as int) == repeat_moves(bs, n_abs));
        }
        while exp > 0
            invariant
                result.rep() == repeat_moves(bs, r_cnt),
                base.rep() == repeat_moves(bs, b_cnt),
                r_cnt + b_cnt * (exp as nat) == n_abs,
            decreases exp,
        {
            let ghost exp0 = exp as nat;
            let ghost b0 = b_cnt;
            if exp % 2 == 1 {
                result = result.compose(&base);
                proof {
                    lemma_repeat_adds(bs, r_cnt, b_cnt);
                    r_cnt = r_cnt + b_cnt;
                }
            }
            base = base.compose(&base);
            proof {
                lemma_repeat_adds(bs, b_cnt, b_cnt);
                b_cnt = b_cnt + b_cnt;
            }
            exp = exp / 2;
            proof {
                if exp0 % 2 == 1 {
                    assert(b0 * exp0 == b0 + (b0 + b0) * ((exp0 - 1) / 2)) by (nonlinear_arith)
                        requires
                            exp0 % 2 == 1,
                    ;
                    assert(exp as nat == (exp0 - 1) / 2);
                } else {
                    assert(b0 * exp0 == (b0 + b0) * (exp0 / 2)) by (nonlinear_arith)
                        requires
                            exp0 % 2 == 0,
                    ;
                }
            }
        }
        proof {
            assert(r_cnt == n_abs);
        }
        result
    }
}

impl Algorithm {
    /// An algorithm made of the given moves, in application order.
    pub fn new(moves: Vec<Move>) -> (r: Algorithm)
        ensures
            r@ == moves@,
    {
        Algorithm { moves }
    }

    /// The empty algorithm.
    pub fn empty() -> (r: Algorithm)
        ensures
            r@ == Seq::<Move>::empty(),
    {
        Algorithm { moves: Vec::new() }
    }

    /// Append one move at the end.
    pub fn push(&mut self, m: Move)
        ensures
            final(self)@ == old(self)@.push(m),
    {
        self.moves.push(m);
    }

    /// The moves of this algorithm, in application order.
    pub fn moves(&self) -> (r: &[Move])
        ensures
            r@ == self@,
    {
        self.moves.as_slice()
    }

    /// How many moves this algorithm has.
    pub fn len(&self) -> (r: usize)
        ensures
            r == self@.len(),
    {
        self.moves.len()
    }

    /// Whether this algorithm has no moves.
    pub fn is_empty(&self) -> (r: bool)
        ensures
            r == (self@.len() == 0),
    {
        self.moves.is_empty()
    }

    /// The canonical notation: the moves' notations joined by single
    /// spaces.
    pub fn to_notation(&self) -> (r: String)
        ensures
            r@ == alg_chars(self@),
    {
        let mut out = String::new();
        let n = self.moves.len();
        let mut i: usize = 0;
        proof {
            assert(self@.take(0) =~= Seq::<Move>::empty());
        }
        while i < n
            invariant
                i <= n,
                n == self@.len(),
                out@ == alg_chars(self@.take(i as int)),
            decreases n - i,
        {
            if i > 0 {
                out.append(" ");
                proof {
                    reveal_strlit(" ");
                    assert(" "@ =~= seq![' ']);
                }
            }
            out.append(self.moves[i].to_notation());
            proof {
                let t = self@.take(i as int + 1);
                assert(t.drop_last() =~= self@.take(i as int));
                assert(t.last() == self@[i as int]);
                if i == 0 {
                    assert(out@ =~= alg_chars(t)) by {
                        assert(Seq::<char>::empty() + move_chars(self@[0]) =~= move_chars(
                            self@[0],
                        ));
                    }
                } else {
                    assert(out@ =~= alg_chars(t));
                }
            }
            i = i + 1;
        }
        proof {
            assert(self@.take(n as int) =~= self@);
        }
        out
    }

    /// Apply this algorithm to a cube state, returning the resulting state.
    pub fn apply(&self, cube: &Cube) -> (r: Cube)
        ensures
            r@ == alg_view(self@, cube@),
    {
        apply_alg(cube, self.moves.as_slice())
    }
}

impl GroupOp for Algorithm {
    open spec fn rep(&self) -> Seq<Move> {
        self.view()
    }

    fn identity() -> (r: Algorithm) {
        Algorithm::empty()
    }

    fn compose(&self, other: &Algorithm) -> (r: Algorithm) {
        let mut v = slice_to_vec(self.moves.as_slice());
        let mut o = slice_to_vec(other.moves.as_slice());
        v.append(&mut o);
        Algorithm { moves: v }
    }

    fn inverse(&self) -> (r: Algorithm) {
        Algorithm { moves: invert_alg(self.moves.as_slice()) }
    }
}

/// Whether `c` separates notation tokens.
fn is_space_char(c: char) -> (r: bool)
    ensures
        r == is_space(c),
{
    c == ' ' || c == '\t' || c == '\n' || c == '\r'
}

/// Parse one buffered token.
fn parse_token(cur: &Vec<char>) -> (r: Option<Move>)
    ensures
        r == parse_move_chars(cur@),
{
    if cur.len() == 1 {
        Move::face_quarter(cur[0])
    } else if cur.len() == 2 {
        let c0 = cur[0];
        let c1 = cur[1];
        if c1 == '\'' || c1 == '-' {
            Move::face_prime(c0)
        } else if c1 == '2' {
            Move::face_half(c0)
        } else {
            None
        }
    } else {
        None
    }
}

/// Parse a whitespace-separated sequence of move tokens into an algorithm,
/// skipping unrecognized tokens.
pub fn parse_algorithm(s: &str) -> (r: Algorithm)
    ensures
        r@ == parse_alg_chars(s@),
{
    let n = s.unicode_len();
    let mut out: Vec<Move> = Vec::new();
    let mut cur: Vec<char> = Vec::new();
    let mut i: usize = 0;
    proof {
        assert(Seq::<Move>::empty() + parse_alg_rec(s@, 0, Seq::<char>::empty()) =~= parse_alg_rec(
            s@,
            0,
            Seq::<char>::empty(),
        ));
    }
    while i < n
        invariant
            i <= n,
            n == s@.len(),
            parse_alg_chars(s@) == out@ + parse_alg_rec(s@, i as int, cur@),
        decreases n - i,
    {
        let c = s.get_char(i);
        if is_space_char(c) {
            let ghost cur0 = cur@;
            let ghost out0 = out@;
            match parse_token(&cur) {
                Some(m) => {
                    out.push(m);
                },
                None => {},
            }
            cur = Vec::new();
            proof {
                assert(parse_alg_rec(s@, i as int, cur0) == token_moves(parse_move_chars(cur0))
                    + parse_alg_rec(s@, i as int + 1, Seq::<char>::empty()));
                assert(out@ =~= out0 + token_moves(parse_move_chars(cur0)));
                assert(out@ + parse_alg_rec(s@, i as int + 1, cur@) =~= out0 + parse_alg_rec(
                    s@,
                    i as int,
                    cur0,
                ));
            }
        } else {
            cur.push(c);
        }
        i = i + 1;
    }
    let ghost cur0 = cur@;
    let ghost out0 = out@;
    match parse_token(&cur) {
        Some(m) => {
            out.push(m);
        },
        None => {},
    }
    proof {
        assert(parse_alg_rec(s@, n as int, cur0) == token_moves(parse_move_chars(cur0)));
        assert(out@ =~= out0 + token_moves(parse_move_chars(cur0)));
        assert(out@ =~= parse_alg_chars(s@));
    }
    Algorithm { moves: out }
}

} // verus!
