//! Zero-knowledge proof generation is deliberately unavailable: no
//! wallet-accessible prover can establish the required inclusion, finality
//! and pairing guarantees, and the wallet never fabricates witnesses or
//! proofs.

use vstd::prelude::*;

verus! {

/// Why ZK proof generation is unavailable.
pub const ZK_UNAVAILABLE_MESSAGE: &'static str =
    "ZK proof generation is unavailable: this wallet has no supported prover and will not create synthetic witnesses or proofs.";

} // verus!
