//! Plain-text rendering of a cube state.

use vstd::prelude::*;
use crate::state::{Cube, CubeView};

verus! {

/// The decimal digit character for `d`.
pub open spec fn digit_char(d: u8) -> char
    recommends
        d < 10,
{
    if d == 0 {
        '0'
    } else if d == 1 {
        '1'
    } else if d == 2 {
        '2'
    } else if d == 3 {
        '3'
    } else if d == 4 {
        '4'
    } else if d == 5 {
        '5'
    } else if d == 6 {
        '6'
    } else if d == 7 {
        '7'
    } else if d == 8 {
        '8'
    } else {
        '9'
    }
}

/// The decimal notation of `x`, without leading zeros.
pub open spec fn dec_chars(x: u8) -> Seq<char> {
    if x < 10 {
        seq![digit_char(x)]
    } else if x < 100 {
        seq![digit_char(x / 10), digit_char(x % 10)]
    } else {
        seq![digit_char(x / 100), digit_char((x / 10) % 10), digit_char(x % 10)]
    }
}

/// The entries of `s` in decimal, separated by comma and space.
pub open spec fn list_inner_chars(s: Seq<u8>) -> Seq<char>
    decreases s.len(),
{
    if s.len() == 0 {
        Seq::empty()
    } else if s.len() == 1 {
        dec_chars(s[0])
    } else {
        list_inner_chars(s.drop_last()) + seq![',', ' '] + dec_chars(s.last())
    }
}

/// A bracketed, comma-separated list of the entries of `s`.
pub open spec fn list_chars(s: Seq<u8>) -> Seq<char> {
    seq!['['] + list_inner_chars(s) + seq![']']
}

/// The plain-text rendering of a cube state: the corner and edge
/// permutation vectors, one labelled line each.
pub open spec fn cube_chars(v: CubeView) -> Seq<char> {
    "Corners: "@ + list_chars(v.corner_perm) + seq!['\n'] + "Edges: "@ + list_chars(v.edge_perm)
}

/// The one-character string for digit `d`.
fn digit_str(d: u8) -> (r: &'static str)
    requires
        d < 10,
    ensures
        r@ == seq![digit_char(d)],
{
    if d == 0 {
        proof {
            reveal_strlit("0");
            assert("0"@ =~= seq![digit_char(0)]);
        }
        "0"
    } else if d == 1 {
        proof {
            reveal_strlit("1");
            assert("1"@ =~= seq![digit_char(1)]);
        }
        "1"
    } else if d == 2 {
        proof {
            reveal_strlit("2");
            assert("2"@ =~= seq![digit_char(2)]);
        }
        "2"
    } else if d == 3 {
        proof {
            reveal_strlit("3");
            assert("3"@ =~= seq![digit_char(3)]);
        }
        "3"
    } else if d == 4 {
        proof {
            reveal_strlit("4");
            assert("4"@ =~= seq![digit_char(4)]);
        }
        "4"
    } else if d == 5 {
        proof {
            reveal_strlit("5");
            assert("5"@ =~= seq![digit_char(5)]);
        }
        "5"
    } else if d == 6 {
        proof {
            reveal_strlit("6");
            assert("6"@ =~= seq![digit_char(6)]);
        }
        "6"
    } else if d == 7 {
        proof {
            reveal_strlit("7");
            assert("7"@ =~= seq![digit_char(7)]);
        }
        "7"
    } else if d == 8 {
        proof {
            reveal_strlit("8");
            assert("8"@ =~= seq![digit_char(8)]);
        }
        "8"
    } else {
        proof {
            reveal_strlit("9");
            assert("9"@ =~= seq![digit_char(9)]);
        }
        "9"
    }
}

/// Append the decimal notation of `x`.
fn push_dec(out: &mut String, x: u8)
    ensures
        final(out)@ == old(out)@ + dec_chars(x),
{
    if x >= 100 {
        out.append(digit_str(x / 100));
    }
    if x >= 10 {
        out.append(digit_str((x / 10) % 10));
    }
    out.append(digit_str(x % 10));
    proof {
        if x < 10 {
            assert(old(out)@ + seq![digit_char(x % 10)] =~= old(out)@ + dec_chars(x));
        } else if x < 100 {
            assert((old(out)@ + seq![digit_char((x / 10) % 10)]) + seq![digit_char(x % 10)]
                =~= old(out)@ + dec_chars(x));
        } else {
            assert(((old(out)@ + seq![digit_char(x / 100)]) + seq![digit_char((x / 10) % 10)])
                + seq![digit_char(x % 10)] =~= old(out)@ + dec_chars(x));
        }
    }
}

/// Append a bracketed, comma-separated decimal list of the entries of
/// `arr`.
fn push_list<const N: usize>(out: &mut String, arr: &[u8; N])
    ensures
        final(out)@ == old(out)@ + list_chars(arr@),
{
    out.append("[");
    proof {
        reveal_strlit("[");
        assert("["@ =~= seq!['[']);
    }
    let mut i: usize = 0;
    proof {
        assert(arr@.take(0) =~= Seq::<u8>::empty());
        assert(out@ =~= old(out)@ + seq!['['] + list_inner_chars(arr@.take(0)));
    }
    while i < N
        invariant
            i <= N,
            arr@.len() == N,
            out@ == old(out)@ + seq!['['] + list_inner_chars(arr@.take(i as int)),
        decreases N - i,
    {
        let ghost out0 = out@;
        if i > 0 {
            out.append(", ");
            proof {
                reveal_strlit(", ");
                assert(", "@ =~= seq![',', ' ']);
            }
        }
        push_dec(out, arr[i]);
        proof {
            let t = arr@.take(i as int + 1);
            assert(t.drop_last() =~= arr@.take(i as int));
            assert(t.last() == arr@[i as int]);
            if i == 0 {
                assert(out@ =~= old(out)@ + seq!['['] + list_inner_chars(t));
            } else {
                assert(out@ =~= old(out)@ + seq!['['] + list_inner_chars(t));
            }
        }
        i = i + 1;
    }
    out.append("]");
    proof {
        reveal_strlit("]");
        assert("]"@ =~= seq![']']);
        assert(arr@.take(N as int) =~= arr@);
        assert(out@ =~= old(out)@ + list_chars(arr@));
    }
}

impl Cube {
    /// A plain-text rendering of this state: the corner and edge
    /// permutation vectors, one labelled line each.
    pub fn to_string(&self) -> (r: String)
        ensures
            r@ == cube_chars(self@),
    {
        let mut out = String::new();
        out.append("Corners: ");
        push_list(&mut out, self.corners());
        out.append("\n");
        out.append("Edges: ");
        proof {
            reveal_strlit("\n");
            assert("\n"@ =~= seq!['\n']);
        }
        push_list(&mut out, self.edges());
        proof {
            assert(out@ =~= cube_chars(self@));
        }
        out
    }
}

} // verus!
