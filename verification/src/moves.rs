//! The eighteen face turns of the cube and their notation.

use vstd::prelude::*;

verus! {

/// One face turn: a quarter, half, or reverse-quarter twist of one of the
/// six faces. `U2` is the half turn of the upper face, `UPrime` its
/// counter-quarter turn, and so on for the other faces.
#[derive(Debug, Clone, Copy, PartialEq, Eq, Hash, Structural)]
pub enum Move {
    U,
    UPrime,
    U2,
    D,
    DPrime,
    D2,
    R,
    RPrime,
    R2,
    L,
    LPrime,
    L2,
    F,
    FPrime,
    F2,
    B,
    BPrime,
    B2,
}

/// The inverse of a face turn: half turns are self-inverse, quarter turns
/// pair with their reverse-quarter counterparts.
pub open spec fn move_inverse(m: Move) -> Move {
    match m {
        Move::U => Move::UPrime,
        Move::UPrime => Move::U,
        Move::U2 => Move::U2,
        Move::D => Move::DPrime,
        Move::DPrime => Move::D,
        Move::D2 => Move::D2,
        Move::R => Move::RPrime,
        Move::RPrime => Move::R,
        Move::R2 => Move::R2,
        Move::L => Move::LPrime,
        Move::LPrime => Move::L,
        Move::L2 => Move::L2,
        Move::F => Move::FPrime,
        Move::FPrime => Move::F,
        Move::F2 => Move::F2,
        Move::B => Move::BPrime,
        Move::BPrime => Move::B,
        Move::B2 => Move::B2,
    }
}

impl Move {
    /// Short alias for the reverse quarter turn of the upper face.
    pub const Up: Move = Move::UPrime;

    /// Short alias for the reverse quarter turn of the lower face.
    pub const Dp: Move = Move::DPrime;

    /// Short alias for the reverse quarter turn of the right face.
    pub const Rp: Move = Move::RPrime;

    /// Short alias for the reverse quarter turn of the left face.
    pub const Lp: Move = Move::LPrime;

    /// Short alias for the reverse quarter turn of the front face.
    pub const Fp: Move = Move::FPrime;

    /// Short alias for the reverse quarter turn of the back face.
    pub const Bp: Move = Move::BPrime;

    /// The inverse turn: applying `self` and then `self.inverse()` to a cube
    /// restores the cube.
    pub fn inverse(&self) -> (r: Move)
        ensures
            r == move_inverse(*self),
    {
        match self {
            Move::U => Move::UPrime,
            Move::UPrime => Move::U,
            Move::U2 => Move::U2,
            Move::D => Move::DPrime,
            Move::DPrime => Move::D,
            Move::D2 => Move::D2,
            Move::R => Move::RPrime,
            Move::RPrime => Move::R,
            Move::R2 => Move::R2,
            Move::L => Move::LPrime,
            Move::LPrime => Move::L,
            Move::L2 => Move::L2,
            Move::F => Move::FPrime,
            Move::FPrime => Move::F,
            Move::F2 => Move::F2,
            Move::B => Move::BPrime,
            Move::BPrime => Move::B,
            Move::B2 => Move::B2,
        }
    }

    /// The canonical notation of this move: the face letter, with `2` for a
    /// half turn and `'` for a reverse quarter turn.
    pub fn to_notation(&self) -> (r: &'static str)
        ensures
            r@ == move_chars(*self),
    {
        match self {
            Move::U => {
                proof {
                    reveal_strlit("U");
                    assert("U"@ =~= move_chars(Move::U));
                }
                "U"
            },
            Move::UPrime => {
                proof {
                    reveal_strlit("U'");
                    assert("U'"@ =~= move_chars(Move::UPrime));
                }
                "U'"
            },
            Move::U2 => {
                proof {
                    reveal_strlit("U2");
                    assert("U2"@ =~= move_chars(Move::U2));
                }
                "U2"
            },
            Move::D => {
                proof {
                    reveal_strlit("D");
                    assert("D"@ =~= move_chars(Move::D));
                }
                "D"
            },
            Move::DPrime => {
                proof {
                    reveal_strlit("D'");
                    assert("D'"@ =~= move_chars(Move::DPrime));
                }
                "D'"
            },
            Move::D2 => {
                proof {
                    reveal_strlit("D2");
                    assert("D2"@ =~= move_chars(Move::D2));
                }
                "D2"
            },
            Move::R => {
                proof {
                    reveal_strlit("R");
                    assert("R"@ =~= move_chars(Move::R));
                }
                "R"
            },
            Move::RPrime => {
                proof {
                    reveal_strlit("R'");
                    assert("R'"@ =~= move_chars(Move::RPrime));
                }
                "R'"
            },
            Move::R2 => {
                proof {
                    reveal_strlit("R2");
                    assert("R2"@ =~= move_chars(Move::R2));
                }
                "R2"
            },
            Move::L => {
                proof {
                    reveal_strlit("L");
                    assert("L"@ =~= move_chars(Move::L));
                }
                "L"
            },
            Move::LPrime => {
                proof {
                    reveal_strlit("L'");
                    assert("L'"@ =~= move_chars(Move::LPrime));
                }
                "L'"
            },
            Move::L2 => {
                proof {
                    reveal_strlit("L2");
                    assert("L2"@ =~= move_chars(Move::L2));
                }
                "L2"
            },
            Move::F => {
                proof {
                    reveal_strlit("F");
                    assert("F"@ =~= move_chars(Move::F));
                }
                "F"
            },
            Move::FPrime => {
                proof {
                    reveal_strlit("F'");
                    assert("F'"@ =~= move_chars(Move::FPrime));
                }
                "F'"
            },
            Move::F2 => {
                proof {
                    reveal_strlit("F2");
                    assert("F2"@ =~= move_chars(Move::F2));
                }
                "F2"
            },
            Move::B => {
                proof {
                    reveal_strlit("B");
                    assert("B"@ =~= move_chars(Move::B));
                }
                "B"
            },
            Move::BPrime => {
                proof {
                    reveal_strlit("B'");
                    assert("B'"@ =~= move_chars(Move::BPrime));
                }
                "B'"
            },
            Move::B2 => {
                proof {
                    reveal_strlit("B2");
                    assert("B2"@ =~= move_chars(Move::B2));
                }
                "B2"
            },
        }
    }

    /// Parse one notation token: a face letter, optionally followed by `2`
    /// for the half turn or `'` or `-` for the reverse quarter turn. Any
    /// other token yields `None`.
    pub fn from_notation(s: &str) -> (r: Option<Move>)
        ensures
            r == parse_move_chars(s@),
    {
        let n = s.unicode_len();
        if n == 1 {
            Move::face_quarter(s.get_char(0))
        } else if n == 2 {
            let c0 = s.get_char(0);
            let c1 = s.get_char(1);
            if c1 == '\'' || c1 == '-' {
                Move::face_prime(c0)
            } else if c1 == '2' {
                Move::face_half(c0)
            } else {
                None
            }
        } else {
            None
        }
    }

    /// The quarter turn of the face named by `c`, if any.
    pub(crate) fn face_quarter(c: char) -> (r: Option<Move>)
        ensures
            r == parse_face_quarter(c),
    {
        if c == 'U' {
            Some(Move::U)
        } else if c == 'D' {
            Some(Move::D)
        } else if c == 'R' {
            Some(Move::R)
        } else if c == 'L' {
            Some(Move::L)
        } else if c == 'F' {
            Some(Move::F)
        } else if c == 'B' {
            Some(Move::B)
        } else {
            None
        }
    }

    /// The reverse quarter turn of the face named by `c`, if any.
    pub(crate) fn face_prime(c: char) -> (r: Option<Move>)
        ensures
            r == parse_face_prime(c),
    {
        if c == 'U' {
            Some(Move::UPrime)
        } else if c == 'D' {
            Some(Move::DPrime)
        } else if c == 'R' {
            Some(Move::RPrime)
        } else if c == 'L' {
            Some(Move::LPrime)
        } else if c == 'F' {
            Some(Move::FPrime)
        } else if c == 'B' {
            Some(Move::BPrime)
        } else {
            None
        }
    }

    /// The half turn of the face named by `c`, if any.
    pub(crate) fn face_half(c: char) -> (r: Option<Move>)
        ensures
            r == parse_face_half(c),
    {
        if c == 'U' {
            Some(Move::U2)
        } else if c == 'D' {
            Some(Move::D2)
        } else if c == 'R' {
            Some(Move::R2)
        } else if c == 'L' {
            Some(Move::L2)
        } else if c == 'F' {
            Some(Move::F2)
        } else if c == 'B' {
            Some(Move::B2)
        } else {
            None
        }
    }

    /// All eighteen face turns, grouped by face in the order U, D, L, R, F,
    /// B, each face contributing its quarter, half, and reverse-quarter turn.
    pub fn all_moves() -> (r: [Move; 18])
        ensures
            r@ == all_moves_seq(),
    {
        let r = [
            Move::U,
            Move::U2,
            Move::UPrime,
            Move::D,
            Move::D2,
            Move::DPrime,
            Move::L,
            Move::L2,
            Move::LPrime,
            Move::R,
            Move::R2,
            Move::RPrime,
            Move::F,
            Move::F2,
            Move::FPrime,
            Move::B,
            Move::B2,
            Move::BPrime,
        ];
        proof {
            assert(r@ =~= all_moves_seq());
        }
        r
    }
}

/// The canonical notation of a move: the face letter, followed by `2` for a
/// half turn or `'` for a reverse quarter turn.
pub open spec fn move_chars(m: Move) -> Seq<char> {
    match m {
        Move::U => seq!['U'],
        Move::UPrime => seq!['U', '\''],
        Move::U2 => seq!['U', '2'],
        Move::D => seq!['D'],
        Move::DPrime => seq!['D', '\''],
        Move::D2 => seq!['D', '2'],
        Move::R => seq!['R'],
        Move::RPrime => seq!['R', '\''],
        Move::R2 => seq!['R', '2'],
        Move::L => seq!['L'],
        Move::LPrime => seq!['L', '\''],
        Move::L2 => seq!['L', '2'],
        Move::F => seq!['F'],
        Move::FPrime => seq!['F', '\''],
        Move::F2 => seq!['F', '2'],
        Move::B => seq!['B'],
        Move::BPrime => seq!['B', '\''],
        Move::B2 => seq!['B', '2'],
    }
}

/// What a notation token denotes: a face letter alone is the quarter turn,
/// followed by `2` the half turn, followed by `'` or `-` the reverse
/// quarter turn. Any other token denotes no move.
pub open spec fn parse_move_chars(s: Seq<char>) -> Option<Move> {
    if s.len() == 1 {
        parse_face_quarter(s[0])
    } else if s.len() == 2 && (s[1] == '\'' || s[1] == '-') {
        parse_face_prime(s[0])
    } else if s.len() == 2 && s[1] == '2' {
        parse_face_half(s[0])
    } else {
        None
    }
}

/// The quarter turn of the face named by `c`, if any.
pub open spec fn parse_face_quarter(c: char) -> Option<Move> {
    if c == 'U' {
        Some(Move::U)
    } else if c == 'D' {
        Some(Move::D)
    } else if c == 'R' {
        Some(Move::R)
    } else if c == 'L' {
        Some(Move::L)
    } else if c == 'F' {
        Some(Move::F)
    } else if c == 'B' {
        Some(Move::B)
    } else {
        None
    }
}

/// The reverse quarter turn of the face named by `c`, if any.
pub open spec fn parse_face_prime(c: char) -> Option<Move> {
    if c == 'U' {
        Some(Move::UPrime)
    } else if c == 'D' {
        Some(Move::DPrime)
    } else if c == 'R' {
        Some(Move::RPrime)
    } else if c == 'L' {
        Some(Move::LPrime)
    } else if c == 'F' {
        Some(Move::FPrime)
    } else if c == 'B' {
        Some(Move::BPrime)
    } else {
        None
    }
}

/// The half turn of the face named by `c`, if any.
pub open spec fn parse_face_half(c: char) -> Option<Move> {
    if c == 'U' {
        Some(Move::U2)
    } else if c == 'D' {
        Some(Move::D2)
    } else if c == 'R' {
        Some(Move::R2)
    } else if c == 'L' {
        Some(Move::L2)
    } else if c == 'F' {
        Some(Move::F2)
    } else if c == 'B' {
        Some(Move::B2)
    } else {
        None
    }
}

/// Parsing the canonical notation of a move yields that move back.
pub proof fn lemma_move_notation_round_trip(m: Move)
    ensures
        parse_move_chars(move_chars(m)) == Some(m),
{
}

/// The fixed enumeration order returned by [`Move::all_moves`].
pub open spec fn all_moves_seq() -> Seq<Move> {
    seq![
        Move::U,
        Move::U2,
        Move::UPrime,
        Move::D,
        Move::D2,
        Move::DPrime,
        Move::L,
        Move::L2,
        Move::LPrime,
        Move::R,
        Move::R2,
        Move::RPrime,
        Move::F,
        Move::F2,
        Move::FPrime,
        Move::B,
        Move::B2,
        Move::BPrime,
    ]
}

} // verus!
