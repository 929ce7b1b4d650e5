//! The fixed, publicly agreed group in which all candidate arithmetic is
//! performed: a prime-order subgroup, given by a modulus `p`, a subgroup
//! order `q` and a generator `g`.

use vstd::prelude::*;
use vstd::arithmetic::power::pow;
use crate::bn::{Bn, bn_eq, bn_lt, bn_mod_mul, bn_mod_pow, bn_mod_sub, bn_sample_below, int_of};

verus! {

/// Public parameters of the ElGamal group.
#[derive(Clone, Debug)]
pub struct ElGamalGroup {
    pub p: Bn,
    pub q: Bn,
    pub g: Bn,
}

impl ElGamalGroup {
    /// Basic shape of usable parameters; everything the executable
    /// protocol needs in order not to fail.
    pub open spec fn valid(&self) -> bool {
        &&& self.p@ >= 2
        &&& self.q@ >= 3
        &&& 2 <= self.g@ < self.p@
    }

    /// The generator's order divides `q`.
    pub open spec fn order_divides_q(&self) -> bool {
        pow(self.g@ as int, self.q@) % (self.p@ as int) == 1
    }

    /// The generator has order exactly `q`.  This is not executably
    /// checkable (it quantifies over all smaller exponents) and appears
    /// only as a hypothesis of laws.
    pub open spec fn order_exactly_q(&self) -> bool {
        &&& self.order_divides_q()
        &&& forall|k: nat| 0 < k < self.q@ ==> pow(self.g@ as int, k) % (self.p@ as int) != 1
    }

    /// The two descriptions name the same group parameters.
    pub open spec fn eqv(&self, other: &ElGamalGroup) -> bool {
        &&& self.p@ == other.p@
        &&& self.q@ == other.q@
        &&& self.g@ == other.g@
    }

    /// A copy naming the same group parameters.
    pub fn dup(&self) -> (r: ElGamalGroup)
        ensures
            r.eqv(self),
    {
        ElGamalGroup { p: self.p.dup(), q: self.q.dup(), g: self.g.dup() }
    }

    /// Checks the basic shape of the parameters and that the generator's
    /// order divides `q`, and returns the group exactly when both hold.
    pub fn new(p: Bn, q: Bn, g: Bn) -> (r: Option<ElGamalGroup>)
        ensures
            r matches Some(gr) ==> {
                &&& gr.valid()
                &&& gr.order_divides_q()
                &&& gr.p == p && gr.q == q && gr.g == g
            },
            (p@ >= 2 && q@ >= 3 && 2 <= g@ < p@ && pow(g@ as int, q@) % (p@ as int) == 1)
                ==> r is Some,
    {
        let two = Bn::from_u8(2);
        let three = Bn::from_u8(3);
        let one = Bn::from_u8(1);
        if bn_lt(&p, &two) || bn_lt(&q, &three) || bn_lt(&g, &two) || !bn_lt(&g, &p) {
            return None;
        }
        let gq = bn_mod_pow(&g, &q, &p);
        if !bn_eq(&gq, &one) {
            return None;
        }
        Some(ElGamalGroup { p, q, g })
    }
}



/// The big-endian bytes of the RFC 7919 ffdhe2048 prime, as the
/// specification-level twin of the executable literal below.
pub open spec fn rfc7919_p_bytes() -> Seq<u8> {
    seq![
        0xFFu8, 0xFFu8, 0xFFu8, 0xFFu8, 0xFFu8, 0xFFu8, 0xFFu8, 0xFFu8, 0xADu8, 0xF8u8, 0x54u8, 0x58u8,
        0xA2u8, 0xBBu8, 0x4Au8, 0x9Au8, 0xAFu8, 0xDCu8, 0x56u8, 0x20u8, 0x27u8, 0x3Du8, 0x3Cu8, 0xF1u8,
        0xD8u8, 0xB9u8, 0xC5u8, 0x83u8, 0xCEu8, 0x2Du8, 0x36u8, 0x95u8, 0xA9u8, 0xE1u8, 0x36u8, 0x41u8,
        0x14u8, 0x64u8, 0x33u8, 0xFBu8, 0xCCu8, 0x93u8, 0x9Du8, 0xCEu8, 0x24u8, 0x9Bu8, 0x3Eu8, 0xF9u8,
        0x7Du8, 0x2Fu8, 0xE3u8, 0x63u8, 0x63u8, 0x0Cu8, 0x75u8, 0xD8u8, 0xF6u8, 0x81u8, 0xB2u8, 0x02u8,
        0xAEu8, 0xC4u8, 0x61u8, 0x7Au8, 0xD3u8, 0xDFu8, 0x1Eu8, 0xD5u8, 0xD5u8, 0xFDu8, 0x65u8, 0x61u8,
        0x24u8, 0x33u8, 0xF5u8, 0x1Fu8, 0x5Fu8, 0x06u8, 0x6Eu8, 0xD0u8, 0x85u8, 0x63u8, 0x65u8, 0x55u8,
        0x3Du8, 0xEDu8, 0x1Au8, 0xF3u8, 0xB5u8, 0x57u8, 0x13u8, 0x5Eu8, 0x7Fu8, 0x57u8, 0xC9u8, 0x35u8,
        0x98u8, 0x4Fu8, 0x0Cu8, 0x70u8, 0xE0u8, 0xE6u8, 0x8Bu8, 0x77u8, 0xE2u8, 0xA6u8, 0x89u8, 0xDAu8,
        0xF3u8, 0xEFu8, 0xE8u8, 0x72u8, 0x1Du8, 0xF1u8, 0x58u8, 0xA1u8, 0x36u8, 0xADu8, 0xE7u8, 0x35u8,
        0x30u8, 0xACu8, 0xCAu8, 0x4Fu8, 0x48u8, 0x3Au8, 0x79u8, 0x7Au8, 0xBCu8, 0x0Au8, 0xB1u8, 0x82u8,
        0xB3u8, 0x24u8, 0xFBu8, 0x61u8, 0xD1u8, 0x08u8, 0xA9u8, 0x4Bu8, 0xB2u8, 0xC8u8, 0xE3u8, 0xFBu8,
        0xB9u8, 0x6Au8, 0xDAu8, 0xB7u8, 0x60u8, 0xD7u8, 0xF4u8, 0x68u8, 0x1Du8, 0x4Fu8, 0x42u8, 0xA3u8,
        0xDEu8, 0x39u8, 0x4Du8, 0xF4u8, 0xAEu8, 0x56u8, 0xEDu8, 0xE7u8, 0x63u8, 0x72u8, 0xBBu8, 0x19u8,
        0x0Bu8, 0x07u8, 0xA7u8, 0xC8u8, 0xEEu8, 0x0Au8, 0x6Du8, 0x70u8, 0x9Eu8, 0x02u8, 0xFCu8, 0xE1u8,
        0xCDu8, 0xF7u8, 0xE2u8, 0xECu8, 0xC0u8, 0x34u8, 0x04u8, 0xCDu8, 0x28u8, 0x34u8, 0x2Fu8, 0x61u8,
        0x91u8, 0x72u8, 0xFEu8, 0x9Cu8, 0xE9u8, 0x85u8, 0x83u8, 0xFFu8, 0x8Eu8, 0x4Fu8, 0x12u8, 0x32u8,
        0xEEu8, 0xF2u8, 0x81u8, 0x83u8, 0xC3u8, 0xFEu8, 0x3Bu8, 0x1Bu8, 0x4Cu8, 0x6Fu8, 0xADu8, 0x73u8,
        0x3Bu8, 0xB5u8, 0xFCu8, 0xBCu8, 0x2Eu8, 0xC2u8, 0x20u8, 0x05u8, 0xC5u8, 0x8Eu8, 0xF1u8, 0x83u8,
        0x7Du8, 0x16u8, 0x83u8, 0xB2u8, 0xC6u8, 0xF3u8, 0x4Au8, 0x26u8, 0xC1u8, 0xB2u8, 0xEFu8, 0xFAu8,
        0x88u8, 0x6Bu8, 0x42u8, 0x38u8, 0x61u8, 0x28u8, 0x5Cu8, 0x97u8, 0xFFu8, 0xFFu8, 0xFFu8, 0xFFu8,
        0xFFu8, 0xFFu8, 0xFFu8, 0xFFu8,
    ]
}

/// One more most-significant byte extends a big-endian prefix value.
proof fn lemma_int_of_extend(s: Seq<u8>, i: int)
    requires
        0 <= i < s.len(),
    ensures
        int_of(s.subrange(0, i + 1)) == int_of(s.subrange(0, i)) * 256 + s[i],
{
    assert(s.subrange(0, i + 1).drop_last() =~= s.subrange(0, i));
    assert(s.subrange(0, i + 1).last() == s[i]);
}

/// A big-endian value has the parity of its last byte.
proof fn lemma_int_of_parity(s: Seq<u8>)
    requires
        s.len() > 0,
    ensures
        int_of(s) % 2 == (s.last() as int) % 2,
{
    vstd::arithmetic::div_mod::lemma_mod_multiples_vanish(
        int_of(s.drop_last()) as int * 128,
        s.last() as int,
        2,
    );
}

/// The fixed, publicly agreed protocol group: the 2048-bit finite-field
/// Diffie-Hellman group of RFC 7919 (ffdhe2048), with generator `2` and
/// prime subgroup order `q = (p-1)/2`.  The halving that derives `q` is
/// verified against [`rfc7919_p_bytes`], and the remaining relation —
/// that the generator\'s order divides `q` — is checked at run time, so
/// `None` can come back only if the transcribed constants fail it.
#[verifier::rlimit(100)]
pub fn rfc7919_ffdhe2048_group() -> (r: Option<ElGamalGroup>)
    ensures
        r matches Some(gr) ==> {
            &&& gr.valid()
            &&& gr.order_divides_q()
            &&& gr.g@ == 2
            &&& gr.p@ == int_of(rfc7919_p_bytes())
            &&& gr.p@ == 2 * gr.q@ + 1
        },
        ({
            let pv = int_of(rfc7919_p_bytes()) as int;
            let qv = (pv - 1) / 2;
            qv >= 3 && pow(2, qv as nat) % pv == 1
        }) ==> r is Some,
{
    let p_bytes: Vec<u8> = vec![
        0xFF, 0xFF, 0xFF, 0xFF, 0xFF, 0xFF, 0xFF, 0xFF, 0xAD, 0xF8, 0x54, 0x58,
        0xA2, 0xBB, 0x4A, 0x9A, 0xAF, 0xDC, 0x56, 0x20, 0x27, 0x3D, 0x3C, 0xF1,
        0xD8, 0xB9, 0xC5, 0x83, 0xCE, 0x2D, 0x36, 0x95, 0xA9, 0xE1, 0x36, 0x41,
        0x14, 0x64, 0x33, 0xFB, 0xCC, 0x93, 0x9D, 0xCE, 0x24, 0x9B, 0x3E, 0xF9,
        0x7D, 0x2F, 0xE3, 0x63, 0x63, 0x0C, 0x75, 0xD8, 0xF6, 0x81, 0xB2, 0x02,
        0xAE, 0xC4, 0x61, 0x7A, 0xD3, 0xDF, 0x1E, 0xD5, 0xD5, 0xFD, 0x65, 0x61,
        0x24, 0x33, 0xF5, 0x1F, 0x5F, 0x06, 0x6E, 0xD0, 0x85, 0x63, 0x65, 0x55,
        0x3D, 0xED, 0x1A, 0xF3, 0xB5, 0x57, 0x13, 0x5E, 0x7F, 0x57, 0xC9, 0x35,
        0x98, 0x4F, 0x0C, 0x70, 0xE0, 0xE6, 0x8B, 0x77, 0xE2, 0xA6, 0x89, 0xDA,
        0xF3, 0xEF, 0xE8, 0x72, 0x1D, 0xF1, 0x58, 0xA1, 0x36, 0xAD, 0xE7, 0x35,
        0x30, 0xAC, 0xCA, 0x4F, 0x48, 0x3A, 0x79, 0x7A, 0xBC, 0x0A, 0xB1, 0x82,
        0xB3, 0x24, 0xFB, 0x61, 0xD1, 0x08, 0xA9, 0x4B, 0xB2, 0xC8, 0xE3, 0xFB,
        0xB9, 0x6A, 0xDA, 0xB7, 0x60, 0xD7, 0xF4, 0x68, 0x1D, 0x4F, 0x42, 0xA3,
        0xDE, 0x39, 0x4D, 0xF4, 0xAE, 0x56, 0xED, 0xE7, 0x63, 0x72, 0xBB, 0x19,
        0x0B, 0x07, 0xA7, 0xC8, 0xEE, 0x0A, 0x6D, 0x70, 0x9E, 0x02, 0xFC, 0xE1,
        0xCD, 0xF7, 0xE2, 0xEC, 0xC0, 0x34, 0x04, 0xCD, 0x28, 0x34, 0x2F, 0x61,
        0x91, 0x72, 0xFE, 0x9C, 0xE9, 0x85, 0x83, 0xFF, 0x8E, 0x4F, 0x12, 0x32,
        0xEE, 0xF2, 0x81, 0x83, 0xC3, 0xFE, 0x3B, 0x1B, 0x4C, 0x6F, 0xAD, 0x73,
        0x3B, 0xB5, 0xFC, 0xBC, 0x2E, 0xC2, 0x20, 0x05, 0xC5, 0x8E, 0xF1, 0x83,
        0x7D, 0x16, 0x83, 0xB2, 0xC6, 0xF3, 0x4A, 0x26, 0xC1, 0xB2, 0xEF, 0xFA,
        0x88, 0x6B, 0x42, 0x38, 0x61, 0x28, 0x5C, 0x97, 0xFF, 0xFF, 0xFF, 0xFF,
        0xFF, 0xFF, 0xFF, 0xFF,
    ];
    proof {
        assert(p_bytes@ =~= rfc7919_p_bytes());
    }
    let ghost pv = int_of(p_bytes@) as int;
    // q = (p - 1) / 2: decrement the (odd) last byte, then shift the
    // whole big-endian string right by one bit
    let mut q_bytes = p_bytes.clone();
    let last = q_bytes.len() - 1;
    let lb = q_bytes[last];
    q_bytes.set(last, lb - 1);
    proof {
        lemma_int_of_parity(p_bytes@);
        assert(q_bytes@.drop_last() =~= p_bytes@.drop_last());
        assert(int_of(q_bytes@) == int_of(q_bytes@.drop_last()) * 256 + (q_bytes@.last() as nat));
        assert(int_of(p_bytes@) == int_of(p_bytes@.drop_last()) * 256 + (p_bytes@.last() as nat));
        assert(int_of(q_bytes@) == pv - 1);
        assert(pv % 2 == 1);
    }
    let ghost dec = q_bytes@;
    let mut carry: u8 = 0;
    let mut i: usize = 0;
    while i < q_bytes.len()
        invariant
            i <= q_bytes@.len(),
            q_bytes@.len() == dec.len(),
            dec.len() == 256,
            carry <= 1,
            forall|j: int| i <= j < 256 ==> q_bytes@[j] == dec[j],
            2 * int_of(q_bytes@.subrange(0, i as int)) + carry == int_of(
                dec.subrange(0, i as int),
            ),
        decreases q_bytes@.len() - i,
    {
        let b = q_bytes[i];
        let nb = (b >> 1) | if carry == 1 { 0x80u8 } else { 0u8 };
        let new_carry = b & 1;
        let ghost prev = q_bytes@;
        q_bytes.set(i, nb);
        proof {
            assert((b >> 1) == b / 2 && (b & 1) == b % 2 && ((b >> 1) | 0x80u8) == (b >> 1)
                + 0x80 && ((b >> 1) | 0u8) == (b >> 1)) by (bit_vector);
            assert(b == 2 * (b / 2) + (b % 2));
            assert(nb == b / 2 + 128 * (carry as int));
            assert(q_bytes@.subrange(0, i as int) =~= prev.subrange(0, i as int));
            lemma_int_of_extend(q_bytes@, i as int);
            lemma_int_of_extend(dec, i as int);
            assert(q_bytes@[i as int] == nb && dec[i as int] == b);
            let sp = int_of(prev.subrange(0, i as int)) as int;
            assert(int_of(q_bytes@.subrange(0, i + 1)) == sp * 256 + nb);
            assert(int_of(dec.subrange(0, i + 1)) == int_of(dec.subrange(0, i as int)) * 256
                + b);
            assert(2 * (sp * 256 + nb) + (b % 2) == 256 * (2 * sp + carry) + b);
            assert(2 * int_of(q_bytes@.subrange(0, i + 1)) + new_carry == int_of(
                dec.subrange(0, i + 1),
            ));
        }
        carry = new_carry;
        i = i + 1;
    }
    proof {
        assert(q_bytes@.subrange(0, 256) =~= q_bytes@);
        assert(dec.subrange(0, 256) =~= dec);
        assert(2 * int_of(q_bytes@) + carry == pv - 1);
        assert(carry == 0);
        assert(2 * int_of(q_bytes@) == pv - 1);
        vstd::arithmetic::div_mod::lemma_div_by_multiple(int_of(q_bytes@) as int, 2);
        assert((pv - 1) / 2 == int_of(q_bytes@));
    }
    let p = Bn::from_bytes(p_bytes);
    let q = Bn::from_bytes(q_bytes);
    let one = Bn::from_u8(1);
    let two = Bn::from_u8(2);
    if bn_lt(&p, &two) || !bn_lt(&q, &p) {
        return None;
    }
    let twice_q = bn_mod_mul(&q, &two, &p);
    let p_minus_one = bn_mod_sub(&p, &one, &p);
    if !bn_eq(&twice_q, &p_minus_one) {
        return None;
    }
    proof {
        vstd::arithmetic::div_mod::lemma_small_mod((p@ - 1) as nat, p@);
    }
    ElGamalGroup::new(p, q, Bn::from_u8(2))
}

/// A locally generated ElGamal keypair: the secret exponent and the public
/// key `g^x mod p`.
pub struct ElGamalKeyPair {
    pub h: Bn,
    pub x: Bn,
}

impl ElGamalKeyPair {
    /// The public key is the generator raised to the secret exponent.
    pub open spec fn wf(&self, gr: ElGamalGroup) -> bool {
        &&& self.h@ == pow(gr.g@ as int, self.x@) % (gr.p@ as int)
        &&& self.x@ < gr.q@
    }

    /// Samples a fresh keypair over the given group.
    pub fn generate(gr: &ElGamalGroup) -> (r: ElGamalKeyPair)
        requires
            gr.valid(),
        ensures
            r.wf(*gr),
    {
        let x = bn_sample_below(&gr.q);
        let h = bn_mod_pow(&gr.g, &x, &gr.p);
        ElGamalKeyPair { h, x }
    }
}

/// The joint public key under which all candidate arithmetic is performed:
/// the group product of the two parties' public keys.
pub open spec fn joint_key_of(gr: ElGamalGroup, h_a: nat, h_b: nat) -> int {
    (h_a as int * h_b as int) % (gr.p@ as int)
}

/// Combines the two parties' public keys into the joint key.
pub fn combine_public_keys(gr: &ElGamalGroup, h_a: &Bn, h_b: &Bn) -> (r: Bn)
    requires
        gr.valid(),
    ensures
        r@ == joint_key_of(*gr, h_a@, h_b@),
{
    bn_mod_mul(h_a, h_b, &gr.p)
}

} // verus!
