//! Algebra of the 3x3x3 Rubik's cube: face turns, cube states as
//! permutation/orientation vectors, move sequences with group operations,
//! and the parity/legality invariants that characterize reachable states.

pub mod moves;
pub mod state;
pub mod turns;
pub mod parity;
pub mod legality;
pub mod cycles;
pub mod alg;
pub mod group;
pub mod render;
pub mod laws;

pub use moves::Move;
pub use state::Cube;
pub use legality::LegalityInfo;
pub use cycles::{corner_cycles, edge_cycles};
pub use alg::{apply_alg, commutator, conjugate, invert_alg};
pub use group::{Algorithm, GroupOp, parse_algorithm};
