//! The Poseidon permutation over the scalar field of BN254, with a metered
//! entry point that hashes one 32-byte field element.

pub mod field;
pub mod hasher;
pub mod params;
pub mod precompile;
pub mod traits;

pub use field::Fe;
pub use hasher::Poseidon;
pub use params::Params;
pub use precompile::{run, PoseidonError, PoseidonOutput, HASH_ADDRESS};
pub use traits::{RoundParams, WIDTH};
