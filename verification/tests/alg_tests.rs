use cube_core::{
    apply_alg, commutator, conjugate, corner_cycles, edge_cycles, invert_alg, parse_algorithm,
    Cube, Move,
};

#[test]
fn core_integration_test_algorithm_inverse() {
    let mut cube = Cube::identity();
    let alg = vec![Move::R, Move::U, Move::Rp, Move::Up];
    cube = apply_alg(&cube, &alg);
    let inv = invert_alg(&alg);
    cube = apply_alg(&cube, &inv);
    assert!(cube.is_solved());
}

#[test]
fn test_commutator() {
    let a = vec![Move::R, Move::U];
    let b = vec![Move::L, Move::D];
    let comm = commutator(&a, &b);

    // Commutator should have length = len(a) + len(b) + len(a') + len(b')
    assert_eq!(comm.len(), a.len() + b.len() + a.len() + b.len());
}

#[test]
fn test_conjugate() {
    let a = vec![Move::R];
    let b = vec![Move::U];
    let conj = conjugate(&a, &b);

    // Conjugate should have length = len(a) + len(b) + len(a')
    assert_eq!(conj.len(), a.len() + b.len() + a.len());
}

#[test]
fn commutator_of_r_and_u_is_the_sexy_move() {
    let comm = commutator(&[Move::R], &[Move::U]);
    assert_eq!(
        comm,
        vec![Move::R, Move::U, Move::RPrime, Move::UPrime]
    );
    assert_eq!(comm.len(), 4);
    let notation = cube_core::Algorithm::new(comm).to_notation();
    assert_eq!(notation, "R U R' U'");
}

#[test]
fn conjugate_order_is_b_a_b_inverse() {
    let conj = conjugate(&[Move::R], &[Move::U]);
    assert_eq!(conj, vec![Move::U, Move::R, Move::UPrime]);
}

#[test]
fn solved_cube_has_no_cycles() {
    let c = Cube::identity();
    assert!(corner_cycles(&c).is_empty());
    assert!(edge_cycles(&c).is_empty());
}

#[test]
fn single_quarter_turn_is_one_four_cycle_each() {
    let mut c = Cube::identity();
    c.apply_move(Move::R);
    assert_eq!(corner_cycles(&c), vec![vec![1u8, 5, 6, 2]]);
    assert_eq!(edge_cycles(&c), vec![vec![1u8, 5, 9, 6]]);
}

#[test]
fn sexy_move_cycle_structure() {
    // R U R' U' under this slot labeling: two corner swaps with twists, and
    // one edge 3-cycle with no flips.
    let alg = parse_algorithm("R U R' U'");
    let c = alg.apply(&Cube::solved());
    assert_eq!(c.corners(), &[5, 2, 1, 3, 4, 0, 6, 7]);
    assert_eq!(c.corner_orientations(), &[2, 0, 2, 0, 0, 2, 0, 0]);
    assert_eq!(c.edges(), &[1, 5, 2, 3, 4, 0, 6, 7, 8, 9, 10, 11]);
    assert_eq!(c.edge_orientations(), &[0; 12]);
    assert_eq!(corner_cycles(&c), vec![vec![0u8, 5], vec![1u8, 2]]);
    assert_eq!(edge_cycles(&c), vec![vec![0u8, 1, 5]]);
    assert!(c.legality().is_legal);
}

#[test]
fn half_turn_gives_two_swaps_per_layer() {
    let mut c = Cube::identity();
    c.apply_move(Move::U2);
    assert_eq!(corner_cycles(&c), vec![vec![0u8, 2], vec![1u8, 3]]);
    assert_eq!(edge_cycles(&c), vec![vec![0u8, 2], vec![1u8, 3]]);
    assert!(c.is_legal());
}

#[test]
fn sexy_move_has_order_six() {
    let alg = parse_algorithm("R U R' U'");
    let mut c = Cube::solved();
    for i in 1..=6 {
        c = alg.apply(&c);
        if i < 6 {
            assert!(!c.is_solved());
        }
    }
    assert!(c.is_solved());
}

#[test]
fn invert_alg_reverses_and_inverts() {
    let alg = vec![Move::R, Move::U2, Move::FPrime];
    assert_eq!(invert_alg(&alg), vec![Move::F, Move::U2, Move::RPrime]);
}
