//! Zero-knowledge proof verification is deliberately unavailable: the
//! verifier fails closed until a real pairing backend is supplied, and a
//! structural check is never presented as cryptographic verification.

use vstd::prelude::*;

verus! {

/// Why ZK proof verification is unavailable.
pub const ZK_UNAVAILABLE_MESSAGE: &'static str =
    "ZK proof verification is unavailable: no supported pairing verifier is configured, so this wallet accepts no ZK proofs.";

} // verus!
