use cube_core::Move;

#[test]
fn test_move_notation() {
    assert_eq!(Move::U.to_notation(), "U");
    assert_eq!(Move::RPrime.to_notation(), "R'");
    assert_eq!(Move::F2.to_notation(), "F2");
}

#[test]
fn test_from_notation() {
    assert_eq!(Move::from_notation("U"), Some(Move::U));
    assert_eq!(Move::from_notation("R'"), Some(Move::RPrime));
    assert_eq!(Move::from_notation("F2"), Some(Move::F2));
    assert_eq!(Move::from_notation("X"), None);
}

#[test]
fn test_inverse() {
    assert_eq!(Move::U.inverse(), Move::UPrime);
    assert_eq!(Move::RPrime.inverse(), Move::R);
    assert_eq!(Move::F2.inverse(), Move::F2);
}

#[test]
fn test_move_inverse() {
    assert_eq!(Move::R.inverse(), Move::Rp);
    assert_eq!(Move::Rp.inverse(), Move::R);
    assert_eq!(Move::R2.inverse(), Move::R2);
}

#[test]
fn notation_round_trip_all_tokens() {
    let tokens = [
        "U", "U'", "U2", "D", "D'", "D2", "R", "R'", "R2", "L", "L'", "L2", "F", "F'", "F2", "B",
        "B'", "B2",
    ];
    for tok in tokens {
        let m = Move::from_notation(tok).expect("canonical token must parse");
        assert_eq!(m.to_notation(), tok);
    }
    assert_eq!(Move::from_notation("X"), None);
    assert_eq!(Move::from_notation(""), None);
    assert_eq!(Move::from_notation("R2'"), None);
    assert_eq!(Move::from_notation("u"), None);
}

#[test]
fn dash_notation_parses_as_prime() {
    assert_eq!(Move::from_notation("R-"), Some(Move::RPrime));
    assert_eq!(Move::from_notation("U-"), Some(Move::UPrime));
    assert_eq!(Move::from_notation("B-"), Some(Move::BPrime));
}

#[test]
fn all_moves_is_the_full_enumeration() {
    let all = Move::all_moves();
    assert_eq!(all.len(), 18);
    for i in 0..all.len() {
        for j in (i + 1)..all.len() {
            assert_ne!(all[i], all[j]);
        }
    }
    assert_eq!(all[0], Move::U);
    assert_eq!(all[1], Move::U2);
    assert_eq!(all[2], Move::UPrime);
    assert_eq!(all[17], Move::BPrime);
}

#[test]
fn inverse_is_an_involution() {
    for m in Move::all_moves() {
        assert_eq!(m.inverse().inverse(), m);
    }
}
