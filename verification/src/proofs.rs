//! Capability interfaces for the externally supplied sigma-protocol proof
//! systems.  The protocol consumes each family through exactly two
//! operations, `prove(witness, statement)` and `verify(proof, statement)`,
//! and never inspects a proof's internals.  No behaviour of an
//! implementation is assumed: the round functions state what holds of
//! their result whatever a `verify` call returned.

use vstd::prelude::*;
use crate::bn::Bn;
use crate::cipher::Ciphertext;
use crate::group::ElGamalGroup;

verus! {

/// Statement of a discrete-log knowledge proof: the prover knows `x` with
/// `g^x == h` in the group.
pub struct DlogStatement {
    pub h: Bn,
}

/// Witness of a discrete-log knowledge proof.
pub struct DlogWitness {
    pub x: Bn,
}

/// Proof of knowledge of a discrete logarithm.
pub trait DlogCap: Sized {
    fn prove(witness: &DlogWitness, gr: &ElGamalGroup) -> Self;

    fn verify(&self, statement: &DlogStatement, gr: &ElGamalGroup) -> bool;
}

/// Statement of a correct-encryption proof: the ciphertext encrypts a
/// plaintext known to the prover under the stated public key.
pub struct HomoEncStatement {
    pub gr: ElGamalGroup,
    pub pk: Bn,
    pub ciphertext: Ciphertext,
}

/// Witness of a correct-encryption proof: the plaintext and randomness.
pub struct HomoEncWitness {
    pub r: Bn,
    pub m: Bn,
}

/// Proof of plaintext and randomness knowledge for an ElGamal ciphertext.
pub trait HomoEncCap: Sized {
    fn prove(witness: &HomoEncWitness, statement: &HomoEncStatement) -> Self;

    fn verify(&self, statement: &HomoEncStatement) -> bool;
}

/// Statement of a bounded-range proof: the plaintext of the ciphertext
/// lies below `2^range_bit_size`.
pub struct RangeStatement {
    pub gr: ElGamalGroup,
    pub pk: Bn,
    pub range_bit_size: usize,
    pub ciphertext: Ciphertext,
    pub sec_param: usize,
    pub kapa: usize,
}

/// Witness of a bounded-range proof.
pub struct RangeWitness {
    pub x: Bn,
    pub r: Bn,
}

/// Proof that an encrypted value lies in a public range.
pub trait RangeCap: Sized {
    fn prove(witness: &RangeWitness, statement: &RangeStatement) -> Self;

    fn verify(&self, statement: &RangeStatement) -> bool;
}

/// Statement of a modular-reduction proof: `c_prime` encrypts the residue
/// modulo `modulus_p` of the value encrypted by `c`, which is itself below
/// `2^upper_bound_bits`.
pub struct ModStatement {
    pub gr: ElGamalGroup,
    pub pk: Bn,
    pub c: Ciphertext,
    pub c_prime: Ciphertext,
    pub modulus_p: Bn,
    pub upper_bound_bits: usize,
}

/// Witness of a modular-reduction proof: both plaintexts and both
/// randomnesses.
pub struct ModWitness {
    pub r_a: Bn,
    pub a: Bn,
    pub r_b: Bn,
    pub b: Bn,
}

/// Proof of a correct modular reduction under encryption.  Producing the
/// proof can fail on a numerically invalid witness.
pub trait ModReduceCap: Sized {
    fn prove(witness: &ModWitness, statement: &ModStatement) -> Option<Self>;

    fn verify(&self, statement: &ModStatement) -> bool;
}

/// Statement of a decisional-Diffie-Hellman proof: the prover knows `x`
/// with `h1 == g1^x` and `h2 == g2^x` in the group.
pub struct DdhStatement {
    pub gr: ElGamalGroup,
    pub g1: Bn,
    pub h1: Bn,
    pub g2: Bn,
    pub h2: Bn,
}

/// Witness of a decisional-Diffie-Hellman proof.
pub struct DdhWitness {
    pub x: Bn,
}

/// Proof that two pairs share one discrete logarithm.
pub trait DdhCap: Sized {
    fn prove(witness: &DdhWitness, statement: &DdhStatement) -> Self;

    fn verify(&self, statement: &DdhStatement) -> bool;
}

} // verus!
