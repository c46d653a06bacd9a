//! Verification core of a fixed-denomination privacy pool: commitment
//! hashing, Merkle membership proofs, the spent-nullifier registry and the
//! deposit / withdrawal rules that compose them.

pub mod fees;
pub mod groth16;
pub mod ledger;
pub mod merkle;
pub mod registry;
pub mod state;
