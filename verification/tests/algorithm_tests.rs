use cube_core::{parse_algorithm, Algorithm, Cube, GroupOp, Move};

#[test]
fn test_algorithm_identity() {
    let algo = Algorithm::identity();
    assert!(algo.is_empty());
}

#[test]
fn test_algorithm_compose() {
    let algo1 = Algorithm::new(vec![Move::R, Move::U]);
    let algo2 = Algorithm::new(vec![Move::RPrime, Move::UPrime]);
    let composed = algo1.compose(&algo2);

    assert_eq!(composed.len(), 4);
    assert_eq!(
        composed.moves(),
        &[Move::R, Move::U, Move::RPrime, Move::UPrime]
    );
}

#[test]
fn group_test_algorithm_inverse() {
    let algo = Algorithm::new(vec![Move::R, Move::U, Move::F2]);
    let inv = algo.inverse();

    assert_eq!(inv.moves(), &[Move::F2, Move::UPrime, Move::RPrime]);
}

#[test]
fn test_algorithm_notation() {
    let algo = Algorithm::new(vec![Move::R, Move::U, Move::RPrime, Move::UPrime]);
    assert_eq!(algo.to_notation(), "R U R' U'");
}

#[test]
fn test_power() {
    let algo = Algorithm::new(vec![Move::R, Move::U]);
    let squared = algo.power(2);

    assert_eq!(squared.len(), 4);
    assert_eq!(squared.moves(), &[Move::R, Move::U, Move::R, Move::U]);
}

#[test]
fn test_parse_algorithm() {
    let algo = parse_algorithm("R U R' U'");
    assert_eq!(algo.len(), 4);
    assert_eq!(algo.to_notation(), "R U R' U'");
}

#[test]
fn power_laws_on_a_sample_algorithm() {
    let a = Algorithm::new(vec![Move::R, Move::U]);
    assert!(a.power(0).is_empty());
    assert_eq!(a.power(1).moves(), a.moves());
    assert_eq!(a.power(-1).moves(), a.inverse().moves());
    assert_eq!(a.power(2).moves(), a.compose(&a).moves());
}

#[test]
fn power_matches_naive_composition() {
    let a = Algorithm::new(vec![Move::R, Move::U, Move::F2]);
    let mut naive = Algorithm::identity();
    for _ in 0..7 {
        naive = naive.compose(&a);
    }
    assert_eq!(a.power(7).moves(), naive.moves());
}

#[test]
fn negative_power_is_power_of_inverse() {
    let a = Algorithm::new(vec![Move::R, Move::U]);
    let inv = a.inverse();
    assert_eq!(a.power(-3).moves(), inv.power(3).moves());
    assert_eq!(a.power(-3).len(), 6);
}

#[test]
fn parse_algorithm_skips_unrecognized_tokens() {
    let algo = parse_algorithm("R xyz U Q2");
    assert_eq!(algo.moves(), &[Move::R, Move::U]);
    assert!(parse_algorithm("").is_empty());
    assert!(parse_algorithm("   ").is_empty());
    let spaced = parse_algorithm("  R   U'  ");
    assert_eq!(spaced.moves(), &[Move::R, Move::UPrime]);
}

#[test]
fn push_appends_one_move() {
    let mut a = Algorithm::empty();
    a.push(Move::F);
    a.push(Move::FPrime);
    assert_eq!(a.len(), 2);
    assert_eq!(a.moves(), &[Move::F, Move::FPrime]);
    assert_eq!(a.to_notation(), "F F'");
}

#[test]
fn compose_with_own_inverse_restores_but_is_not_reduced() {
    // Composing "R U" with its inverse "U' R'" gives a four-move algorithm
    // that solves back to identity without being textually empty.
    let a = parse_algorithm("R U");
    let inv = parse_algorithm("U' R'");
    assert_eq!(a.inverse().moves(), inv.moves());
    let composed = a.compose(&inv);
    assert_eq!(composed.len(), 4);
    assert!(!composed.is_empty());
    let result = composed.apply(&Cube::solved());
    assert!(result.is_solved());
}

#[test]
fn algorithm_apply_matches_move_by_move() {
    let a = parse_algorithm("R U2 F' L D");
    let by_alg = a.apply(&Cube::solved());
    let mut by_moves = Cube::solved();
    for m in a.moves() {
        by_moves.apply_move(*m);
    }
    assert_eq!(by_alg, by_moves);
}
