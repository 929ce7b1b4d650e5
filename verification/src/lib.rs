//! Party Two of a two-party protocol that jointly builds an RSA modulus
//! candidate in Blum form and sieves it by zero-knowledge trial division.
//!
//! The arbitrary-precision modular arithmetic is delegated to the `curv`
//! crate; Paillier key generation and the correct-key proof come from the
//! `paillier` and `zk_paillier` crates.  The sigma-protocol proof systems
//! (discrete log, correct encryption, range, modular reduction, DDH) are
//! consumed through the capability traits in [`proofs`]: the protocol only
//! ever calls `prove` and `verify` on them and never inspects a proof.

pub mod arith;
pub mod bn;
pub mod group;
pub mod cipher;
pub mod proofs;
pub mod keysetup;
pub mod candidate;
pub mod laws;

use vstd::prelude::*;

verus! {

/// Typed failure outcomes of the protocol.  Every error is fatal to the
/// current round and is surfaced to the caller, which decides whether to
/// restart with fresh randomness or to abort the session.
#[derive(Clone, Copy, Debug, PartialEq, Eq, Structural)]
pub enum TwoPartyRSAError {
    /// The counterparty's discrete-log proof for its ElGamal key failed.
    InvalidElGamalKey,
    /// The counterparty's Paillier correct-key proof failed.
    InvalidPaillierKey,
    /// The counterparty's share-encryption or range proof failed.
    CandidateGenerationEncError,
    /// A modular-reduction proof could not be produced or did not verify.
    InvalidModProof,
    /// A rerandomization or partial-decryption proof failed in the last round.
    CandidateGenerationDecError,
}

/// Bit length of the jointly generated RSA modulus candidate.
pub const CANDIDATE_BIT_LENGTH: usize = 1024;

/// Bit length of each party's local Paillier modulus.
pub const PAILLIER_MODULUS: usize = 2048;

} // verus!
