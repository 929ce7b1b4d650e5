//! Exponential ElGamal ciphertexts over the protocol group, and the
//! homomorphic operations the candidate construction uses.  A message `m`
//! encrypted under public key `h` with randomness `r` is the pair
//! `(g^r, g^m * h^r)` modulo `p`.

use vstd::prelude::*;
use vstd::arithmetic::power::pow;
use vstd::arithmetic::div_mod::lemma_mul_mod_noop_general;
use crate::bn::{Bn, bn_mod_mul, bn_mod_pow};
use crate::group::ElGamalGroup;

verus! {

/// An exponential ElGamal ciphertext.
#[derive(Clone, Debug, PartialEq, Eq)]
pub struct Ciphertext {
    pub c1: Bn,
    pub c2: Bn,
}

impl Ciphertext {
    /// A copy with the same component values.
    pub fn dup(&self) -> (r: Ciphertext)
        ensures
            ct_val(r) == ct_val(*self),
    {
        Ciphertext { c1: self.c1.dup(), c2: self.c2.dup() }
    }
}

/// The pair of values of a ciphertext.
pub open spec fn ct_val(c: Ciphertext) -> (int, int) {
    (c.c1@ as int, c.c2@ as int)
}

/// The value pair of the encryption of `m` with randomness `r` under
/// public key `h`.
pub open spec fn enc_val(gr: ElGamalGroup, h: nat, m: nat, r: nat) -> (int, int) {
    (
        pow(gr.g@ as int, r) % (gr.p@ as int),
        (pow(gr.g@ as int, m) * pow(h as int, r)) % (gr.p@ as int),
    )
}

/// `c` is the encryption of `m` with randomness `r` under public key `h`.
pub open spec fn is_encryption(gr: ElGamalGroup, h: nat, c: Ciphertext, m: nat, r: nat) -> bool {
    ct_val(c) == enc_val(gr, h, m, r)
}

/// The componentwise product of two value pairs modulo `p`: the
/// homomorphic sum of the underlying plaintexts.
pub open spec fn summed(a: (int, int), b: (int, int), p: int) -> (int, int) {
    ((a.0 * b.0) % p, (a.1 * b.1) % p)
}

/// Each component raised to `k` modulo `p`: the homomorphic scaling of the
/// underlying plaintext by `k`.
pub open spec fn scaled(a: (int, int), k: nat, p: int) -> (int, int) {
    (pow(a.0, k) % p, pow(a.1, k) % p)
}

/// Encrypts `m` under public key `h` with the supplied randomness `r`.
pub fn encrypt_with_randomness(gr: &ElGamalGroup, h: &Bn, m: &Bn, r: &Bn) -> (c: Ciphertext)
    requires
        gr.valid(),
    ensures
        is_encryption(*gr, h@, c, m@, r@),
{
    let c1 = bn_mod_pow(&gr.g, r, &gr.p);
    let gm = bn_mod_pow(&gr.g, m, &gr.p);
    let hr = bn_mod_pow(h, r, &gr.p);
    let c2 = bn_mod_mul(&gm, &hr, &gr.p);
    proof {
        lemma_mul_mod_noop_general(
            pow(gr.g@ as int, m@),
            pow(h@ as int, r@),
            gr.p@ as int,
        );
    }
    Ciphertext { c1, c2 }
}

/// Homomorphic addition: the componentwise product of two ciphertexts.
pub fn add_ciphertexts(gr: &ElGamalGroup, a: &Ciphertext, b: &Ciphertext) -> (c: Ciphertext)
    requires
        gr.valid(),
    ensures
        ct_val(c) == summed(ct_val(*a), ct_val(*b), gr.p@ as int),
{
    let c1 = bn_mod_mul(&a.c1, &b.c1, &gr.p);
    let c2 = bn_mod_mul(&a.c2, &b.c2, &gr.p);
    Ciphertext { c1, c2 }
}

/// Homomorphic scalar multiplication: each component raised to `k`.
pub fn scale_ciphertext(gr: &ElGamalGroup, a: &Ciphertext, k: &Bn) -> (c: Ciphertext)
    requires
        gr.valid(),
    ensures
        ct_val(c) == scaled(ct_val(*a), k@, gr.p@ as int),
{
    let c1 = bn_mod_pow(&a.c1, k, &gr.p);
    let c2 = bn_mod_pow(&a.c2, k, &gr.p);
    Ciphertext { c1, c2 }
}

} // verus!
