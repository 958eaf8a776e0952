use cube_core::{apply_alg, parse_algorithm, Cube, Move};

#[test]
fn test_solved_state() {
    let cube = Cube::solved();
    assert!(cube.is_solved());
}

#[test]
fn test_clone() {
    let cube1 = Cube::solved();
    let cube2 = cube1.clone();
    assert_eq!(cube1, cube2);
}

#[test]
fn test_identity() {
    let cube = Cube::solved();
    assert!(cube.is_solved());
}

#[test]
fn test_cube_solved_state() {
    let cube = Cube::identity();
    assert!(cube.is_solved());
}

#[test]
fn test_apply_move() {
    let mut cube = Cube::identity();
    cube.apply_move(Move::R);
    assert!(!cube.is_solved());
}

#[test]
fn test_legality() {
    let cube = Cube::identity();
    let info = cube.legality();
    assert!(info.is_legal);
}

#[test]
fn solved_legality_report_in_full() {
    let info = Cube::identity().legality();
    assert_eq!(info.corner_parity, 1);
    assert_eq!(info.edge_parity, 1);
    assert_eq!(info.corner_twist_sum_mod3, 0);
    assert_eq!(info.edge_flip_sum_mod2, 0);
    assert!(info.is_legal);
}

#[test]
fn every_move_four_times_restores_any_state() {
    // On the solved state and on a scrambled one, four applications of any
    // single move restore the state bit for bit.
    let scramble = parse_algorithm("R U F2 B' L D2");
    let start = scramble.apply(&Cube::solved());
    for m in Move::all_moves() {
        for base in [Cube::solved(), start] {
            let mut c = base;
            for _ in 0..4 {
                c.apply_move(m);
            }
            assert_eq!(c, base);
        }
    }
}

#[test]
fn every_move_then_its_inverse_restores() {
    let scramble = parse_algorithm("F L' D B2 U R'");
    let start = scramble.apply(&Cube::solved());
    for m in Move::all_moves() {
        let mut c = start;
        c.apply_move(m);
        c.apply_move(m.inverse());
        assert_eq!(c, start);
        let mut d = start;
        d.apply_move(m.inverse());
        d.apply_move(m);
        assert_eq!(d, start);
    }
}

#[test]
fn every_move_preserves_legality() {
    for m in Move::all_moves() {
        let mut c = Cube::identity();
        c.apply_move(m);
        assert!(c.legality().is_legal);
        assert!(c.is_legal());
    }
    // Legality is kept along a longer walk too.
    let mut c = Cube::identity();
    for m in parse_algorithm("R U2 L' D F B2 R' U D2 F' B L2").moves() {
        c.apply_move(*m);
        assert!(c.is_legal());
    }
}

#[test]
fn quarter_turn_flips_both_parities() {
    let mut c = Cube::identity();
    assert_eq!(c.corner_parity(), 0);
    assert_eq!(c.edge_parity(), 0);
    c.apply_move(Move::R);
    assert_eq!(c.corner_parity(), 1);
    assert_eq!(c.edge_parity(), 1);
    let info = c.legality();
    assert_eq!(info.corner_parity, -1);
    assert_eq!(info.edge_parity, -1);
    assert!(info.is_legal);
}

#[test]
fn accessors_expose_the_raw_arrays() {
    let c = Cube::solved();
    assert_eq!(c.corners(), &[0, 1, 2, 3, 4, 5, 6, 7]);
    assert_eq!(c.edges(), &[0, 1, 2, 3, 4, 5, 6, 7, 8, 9, 10, 11]);
    assert_eq!(c.corner_orientations(), &[0; 8]);
    assert_eq!(c.edge_orientations(), &[0; 12]);
}

#[test]
fn single_r_turn_state() {
    let mut c = Cube::identity();
    c.apply_move(Move::R);
    assert_eq!(c.corners(), &[0, 5, 1, 3, 4, 6, 2, 7]);
    assert_eq!(c.corner_orientations(), &[0, 1, 2, 0, 0, 2, 1, 0]);
    assert_eq!(c.edges(), &[0, 5, 2, 3, 4, 9, 1, 7, 8, 6, 10, 11]);
    assert_eq!(c.edge_orientations(), &[0; 12]);
}

#[test]
fn front_turn_flips_cycled_edges() {
    let mut c = Cube::identity();
    c.apply_move(Move::F);
    assert_eq!(c.edge_orientations(), &[1, 0, 0, 0, 1, 1, 0, 0, 1, 0, 0, 0]);
    assert!(c.is_legal());
}

#[test]
fn to_string_renders_both_permutations() {
    let c = Cube::solved();
    assert_eq!(
        c.to_string(),
        "Corners: [0, 1, 2, 3, 4, 5, 6, 7]\nEdges: [0, 1, 2, 3, 4, 5, 6, 7, 8, 9, 10, 11]"
    );
    let after = apply_alg(&c, &[Move::R]);
    assert_eq!(
        after.to_string(),
        "Corners: [0, 5, 1, 3, 4, 6, 2, 7]\nEdges: [0, 5, 2, 3, 4, 9, 1, 7, 8, 6, 10, 11]"
    );
}

#[test]
fn from_parts_accepts_well_formed_states() {
    let c = Cube::from_parts(
        [0, 1, 2, 3, 4, 5, 6, 7],
        [0; 8],
        [0, 1, 2, 3, 4, 5, 6, 7, 8, 9, 10, 11],
        [0; 12],
    )
    .expect("solved parts are well-formed");
    assert!(c.is_solved());
    assert!(c.is_legal());
}

#[test]
fn from_parts_rejects_malformed_states() {
    let identity_edges = [0, 1, 2, 3, 4, 5, 6, 7, 8, 9, 10, 11];
    // A repeated corner piece.
    assert!(Cube::from_parts([0, 0, 2, 3, 4, 5, 6, 7], [0; 8], identity_edges, [0; 12]).is_none());
    // A corner piece id out of range.
    assert!(Cube::from_parts([0, 1, 2, 3, 4, 5, 6, 8], [0; 8], identity_edges, [0; 12]).is_none());
    // A corner twist outside {0,1,2}.
    let mut co = [0u8; 8];
    co[0] = 3;
    assert!(
        Cube::from_parts([0, 1, 2, 3, 4, 5, 6, 7], co, identity_edges, [0; 12]).is_none()
    );
    // An edge flip outside {0,1}.
    let mut eo = [0u8; 12];
    eo[0] = 2;
    assert!(
        Cube::from_parts([0, 1, 2, 3, 4, 5, 6, 7], [0; 8], identity_edges, eo).is_none()
    );
}

#[test]
fn checker_diagnoses_impossible_states() {
    let identity_edges = [0, 1, 2, 3, 4, 5, 6, 7, 8, 9, 10, 11];
    // Two corners swapped with everything else solved: parities disagree.
    let swapped =
        Cube::from_parts([1, 0, 2, 3, 4, 5, 6, 7], [0; 8], identity_edges, [0; 12]).unwrap();
    let info = swapped.legality();
    assert_eq!(info.corner_parity, -1);
    assert_eq!(info.edge_parity, 1);
    assert!(!info.is_legal);
    assert!(!swapped.is_legal());

    // One corner twisted in place: twist sum is 1 mod 3.
    let mut co = [0u8; 8];
    co[0] = 1;
    let twisted =
        Cube::from_parts([0, 1, 2, 3, 4, 5, 6, 7], co, identity_edges, [0; 12]).unwrap();
    let info = twisted.legality();
    assert_eq!(info.corner_twist_sum_mod3, 1);
    assert!(!info.is_legal);

    // One edge flipped in place: flip sum is 1 mod 2.
    let mut eo = [0u8; 12];
    eo[0] = 1;
    let flipped =
        Cube::from_parts([0, 1, 2, 3, 4, 5, 6, 7], [0; 8], identity_edges, eo).unwrap();
    let info = flipped.legality();
    assert_eq!(info.edge_flip_sum_mod2, 1);
    assert!(!info.is_legal);
}

#[test]
fn default_is_solved() {
    let c: Cube = Default::default();
    assert!(c.is_solved());
}
