//! Zero-knowledge proofs: generation and verification are reported as
//! unavailable until a real prover and pairing verifier exist.

pub mod generate;
pub mod verify;
