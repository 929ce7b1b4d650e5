//! Candidate share generation and the zero-knowledge trial-division
//! sieve, as performed by Party Two.
//!
//! Each party encrypts a private half-length share under the joint key;
//! the two ciphertexts are combined into a Blum-form candidate pair
//! encrypting `4*share0 + 3` and `4*share1`.  For a trial divisor the
//! parties exchange encrypted modular reductions of their shares, combine
//! and rerandomize them, and jointly decrypt only whether the result is
//! the identity — that is, whether the divisor divides the candidate.

use vstd::prelude::*;
use vstd::arithmetic::power::pow;
use vstd::arithmetic::power2::pow2;
use crate::bn::{Bn, bn_eq, bn_mod, bn_mod_inv, bn_mod_mul, bn_mod_pow, bn_mod_sub, bn_sample,
    bn_sample_below};
use crate::cipher::{Ciphertext, add_ciphertexts, ct_val, enc_val, encrypt_with_randomness,
    is_encryption, scale_ciphertext, scaled, summed};
use crate::keysetup::PartyTwoKeySetup;
use crate::proofs::{DdhCap, DdhStatement, DdhWitness, HomoEncCap, HomoEncStatement,
    HomoEncWitness, ModReduceCap, ModStatement, ModWitness, RangeCap, RangeStatement,
    RangeWitness};
use crate::{TwoPartyRSAError, CANDIDATE_BIT_LENGTH};

verus! {

/// Security parameter handed to the range proof.
pub const RANGE_SEC_PARAM: usize = 120;

/// Soundness repetition parameter handed to the range proof.
pub const RANGE_KAPA: usize = 100;

/// Party Two's role in candidate generation and trial division.
pub struct PartyTwoCandidateGeneration {}

/// Party Two's private candidate witness: the half-length share and the
/// randomness its encryption used.  It lives for one candidate attempt.
pub struct PartyTwoCandidateWitness {
    pub p_1: Bn,
    pub r_1: Bn,
}

/// The Blum-form candidate ciphertext pair: `c0` encrypts
/// `4*share0 + 3`, `c1` encrypts `4*share1`, both under the joint key.
pub struct CiphertextPair {
    pub c0: Ciphertext,
    pub c1: Ciphertext,
}

/// Party Two's first candidate message: the encrypted share with its
/// correct-encryption and range proofs.
pub struct PartyTwoCandidateGenerationFirstMsg<E, B> {
    pub c_i: Ciphertext,
    pub pi_enc: E,
    pub pi_bound: B,
}

/// Party One's first candidate message, as Party Two receives it.
pub struct PartyOneCandidateGenerationFirstMsg<E, B> {
    pub c_i: Ciphertext,
    pub pi_enc: E,
    pub pi_bound: B,
}

/// Party Two's second candidate message: the encrypted reduction of its
/// share modulo the trial divisor, with the modular-reduction proof.
pub struct PartyTwoCandidateGenerationSecondMsg<M> {
    pub pi_mod: M,
    pub c_1_alpha: Ciphertext,
}

/// Party One's second candidate message, as Party Two receives it.
pub struct PartyOneCandidateGenerationSecondMsg<M> {
    pub pi_mod: M,
    pub c_0_alpha: Ciphertext,
}

/// Party Two's third candidate message: the rerandomized combined
/// ciphertexts, the partial decryptions, and the proofs tying them to
/// the agreed inputs.
pub struct PartyTwoCandidateGenerationThirdMsg<DD> {
    pub proof_alpha: DD,
    pub proof_alpha_tilde: DD,
    pub c_alpha_random: Ciphertext,
    pub c_alpha_tilde_random: Ciphertext,
    pub partial_dec_c_alpha: Bn,
    pub partial_dec_c_alpha_tilde: Bn,
    pub ddh_proof_alpha: DD,
    pub ddh_proof_alpha_tilde: DD,
}

/// Party One's third candidate message, as Party Two receives it.
pub struct PartyOneCandidateGenerationThirdMsg<DD> {
    pub proof_alpha: DD,
    pub proof_alpha_tilde: DD,
    pub c_alpha_random: Ciphertext,
    pub c_alpha_tilde_random: Ciphertext,
    pub partial_dec_c_alpha: Bn,
    pub partial_dec_c_alpha_tilde: Bn,
    pub ddh_proof_alpha: DD,
    pub ddh_proof_alpha_tilde: DD,
}

/// Plaintext of the deterministic offset ciphertext subtracted on the
/// `alpha_tilde` channel: the negation of `alpha` in the exponent group.
pub open spec fn tilde_offset_m(q: nat, alpha: nat) -> nat {
    (((q - alpha % q) % (q as int)) as nat)
}

/// Randomness of the deterministic offset ciphertext: the negation of
/// the agreed public randomness `2` in the exponent group.
pub open spec fn tilde_offset_r(q: nat) -> nat {
    (((q - 2) % (q as int)) as nat)
}

/// Which error, if any, the share-verification gate reports: a failed
/// correct-encryption or range proof rejects the counterparty's share.
pub open spec fn share_verification_gate(enc_ok: bool, bound_ok: bool) -> Option<
    TwoPartyRSAError,
> {
    if enc_ok && bound_ok {
        None
    } else {
        Some(TwoPartyRSAError::CandidateGenerationEncError)
    }
}

/// The executable share-verification gate; its result is exactly
/// [`share_verification_gate`] of the two proof outcomes.
pub fn decide_share_verification(enc_ok: bool, bound_ok: bool) -> (r: Option<TwoPartyRSAError>)
    ensures
        r == share_verification_gate(enc_ok, bound_ok),
{
    if enc_ok && bound_ok {
        None
    } else {
        Some(TwoPartyRSAError::CandidateGenerationEncError)
    }
}

/// Which error, if any, the modular-reduction gate reports.
pub open spec fn mod_verification_gate(mod_ok: bool) -> Option<TwoPartyRSAError> {
    if mod_ok {
        None
    } else {
        Some(TwoPartyRSAError::InvalidModProof)
    }
}

/// The executable modular-reduction gate; its result is exactly
/// [`mod_verification_gate`] of the proof outcome.
pub fn decide_mod_verification(mod_ok: bool) -> (r: Option<TwoPartyRSAError>)
    ensures
        r == mod_verification_gate(mod_ok),
{
    if mod_ok {
        None
    } else {
        Some(TwoPartyRSAError::InvalidModProof)
    }
}

/// Which error, if any, the conclusion gate reports: every
/// rerandomization and partial-decryption proof of the counterparty must
/// verify before the final decryption is combined.
pub open spec fn conclude_gate(ok1: bool, ok2: bool, ok3: bool, ok4: bool) -> Option<
    TwoPartyRSAError,
> {
    if ok1 && ok2 && ok3 && ok4 {
        None
    } else {
        Some(TwoPartyRSAError::CandidateGenerationDecError)
    }
}

/// The executable conclusion gate; its result is exactly
/// [`conclude_gate`] of the four proof outcomes.
pub fn decide_conclude(ok1: bool, ok2: bool, ok3: bool, ok4: bool) -> (r: Option<
    TwoPartyRSAError,
>)
    ensures
        r == conclude_gate(ok1, ok2, ok3, ok4),
{
    if ok1 && ok2 && ok3 && ok4 {
        None
    } else {
        Some(TwoPartyRSAError::CandidateGenerationDecError)
    }
}

/// `c` encrypts `m_val` under the joint key with some randomness drawn
/// below the group order.
pub open spec fn encrypts_with_fresh_randomness(
    gr: crate::group::ElGamalGroup,
    jh: nat,
    c: Ciphertext,
    m_val: nat,
) -> bool {
    exists|rr: nat| rr < gr.q@ && #[trigger] is_encryption(gr, jh, c, m_val, rr)
}

/// `c_rand` is `c_base` with both components raised to one secret
/// exponent drawn below the group order: a rerandomization of `c_base`.
pub open spec fn rerandomization_of(c_rand: Ciphertext, c_base: Ciphertext, p: int, q: nat) -> bool {
    exists|k: nat| k < q && ct_val(c_rand) == #[trigger] scaled(ct_val(c_base), k, p)
}

/// The rerandomized ciphertext decrypts to the group identity: its
/// second component is congruent to the product of the local partial
/// decryption of its first component and the counterparty's disclosed
/// partial decryption.
pub open spec fn channel_is_identity(
    c_rand: Ciphertext,
    partial_remote: nat,
    x_local: nat,
    p: int,
) -> bool {
    (c_rand.c2@ as int) % p == ((pow(c_rand.c1@ as int, x_local) % p) * (partial_remote as int))
        % p
}

/// The statement a share-encryption proof is made or verified against:
/// the joint key and the claimed share ciphertext.
pub fn share_encryption_statement(keys: &PartyTwoKeySetup, c: &Ciphertext) -> (s: HomoEncStatement)
    ensures
        s.gr.eqv(&keys.group),
        s.pk@ == keys.joint_elgamal_pubkey@,
        ct_val(s.ciphertext) == ct_val(*c),
{
    HomoEncStatement {
        gr: keys.group.dup(),
        pk: keys.joint_elgamal_pubkey.dup(),
        ciphertext: c.dup(),
    }
}

/// The statement a share range proof is made or verified against.  Its
/// bound is `2^(CANDIDATE_BIT_LENGTH/2)` — deliberately looser than the
/// `CANDIDATE_BIT_LENGTH/2 - 2`-bit sampling bound: the chosen proof
/// system admits a bounded slack, intentionally accepted.
pub fn share_range_statement(keys: &PartyTwoKeySetup, c: &Ciphertext) -> (s: RangeStatement)
    ensures
        s.gr.eqv(&keys.group),
        s.pk@ == keys.joint_elgamal_pubkey@,
        ct_val(s.ciphertext) == ct_val(*c),
        s.range_bit_size == CANDIDATE_BIT_LENGTH / 2,
        s.sec_param == RANGE_SEC_PARAM,
        s.kapa == RANGE_KAPA,
{
    RangeStatement {
        gr: keys.group.dup(),
        pk: keys.joint_elgamal_pubkey.dup(),
        range_bit_size: CANDIDATE_BIT_LENGTH / 2,
        ciphertext: c.dup(),
        sec_param: RANGE_SEC_PARAM,
        kapa: RANGE_KAPA,
    }
}

/// The statement a modular-reduction proof is made or verified against:
/// `base` is one half of the candidate pair, `reduced` the re-encrypted
/// residue modulo `alpha`, and the declared plaintext bound is
/// `2^(CANDIDATE_BIT_LENGTH/2)`, matching the scaled representation.
pub fn reduction_statement(
    keys: &PartyTwoKeySetup,
    base: &Ciphertext,
    reduced: &Ciphertext,
    alpha: &Bn,
) -> (s: ModStatement)
    ensures
        s.gr.eqv(&keys.group),
        s.pk@ == keys.joint_elgamal_pubkey@,
        ct_val(s.c) == ct_val(*base),
        ct_val(s.c_prime) == ct_val(*reduced),
        s.modulus_p@ == alpha@,
        s.upper_bound_bits == CANDIDATE_BIT_LENGTH / 2,
{
    ModStatement {
        gr: keys.group.dup(),
        pk: keys.joint_elgamal_pubkey.dup(),
        c: base.dup(),
        c_prime: reduced.dup(),
        modulus_p: alpha.dup(),
        upper_bound_bits: CANDIDATE_BIT_LENGTH / 2,
    }
}

/// The statement a rerandomization proof is made or verified against:
/// both components of `randomized` are the matching components of
/// `base` raised to one secret exponent.
pub fn rerandomization_statement(
    keys: &PartyTwoKeySetup,
    base: &Ciphertext,
    randomized: &Ciphertext,
) -> (s: DdhStatement)
    ensures
        s.gr.eqv(&keys.group),
        s.g1@ == base.c1@,
        s.h1@ == randomized.c1@,
        s.g2@ == base.c2@,
        s.h2@ == randomized.c2@,
{
    DdhStatement {
        gr: keys.group.dup(),
        g1: base.c1.dup(),
        h1: randomized.c1.dup(),
        g2: base.c2.dup(),
        h2: randomized.c2.dup(),
    }
}

/// The statement this party\'s own partial decryption is proved against:
/// the disclosed value is `c1` raised to the secret exponent behind the
/// local public key.
pub fn local_partial_decryption_statement(
    keys: &PartyTwoKeySetup,
    c1: &Bn,
    partial: &Bn,
) -> (s: DdhStatement)
    ensures
        s.gr.eqv(&keys.group),
        s.g1@ == keys.group.g@,
        s.h1@ == keys.local_elgamal_pubkey@,
        s.g2@ == c1@,
        s.h2@ == partial@,
{
    DdhStatement {
        gr: keys.group.dup(),
        g1: keys.group.g.dup(),
        h1: keys.local_elgamal_pubkey.dup(),
        g2: c1.dup(),
        h2: partial.dup(),
    }
}

/// The statement the counterparty\'s partial decryption is verified
/// against: it was the counterparty that decrypted, so the claimed
/// exponent is the one behind the remote public key.
pub fn remote_partial_decryption_statement(
    keys: &PartyTwoKeySetup,
    c1: &Bn,
    partial: &Bn,
) -> (s: DdhStatement)
    ensures
        s.gr.eqv(&keys.group),
        s.g1@ == keys.group.g@,
        s.h1@ == keys.remote_elgamal_pubkey@,
        s.g2@ == c1@,
        s.h2@ == partial@,
{
    DdhStatement {
        gr: keys.group.dup(),
        g1: keys.group.g.dup(),
        h1: keys.remote_elgamal_pubkey.dup(),
        g2: c1.dup(),
        h2: partial.dup(),
    }
}

impl PartyTwoCandidateGeneration {
    /// Encrypts the given share under the joint key with the given
    /// randomness and produces the first-round message with its
    /// correct-encryption and range proofs, together with the witness
    /// that later rounds of this attempt consume.
    pub fn first_message_from_share<E: HomoEncCap, B: RangeCap>(
        keys: &PartyTwoKeySetup,
        p_i: &Bn,
        r_i: &Bn,
    ) -> (r: (PartyTwoCandidateWitness, PartyTwoCandidateGenerationFirstMsg<E, B>))
        requires
            keys.wf(),
        ensures
            r.0.p_1@ == p_i@,
            r.0.r_1@ == r_i@,
            is_encryption(keys.group, keys.joint_elgamal_pubkey@, r.1.c_i, p_i@, r_i@),
    {
        let c_i = encrypt_with_randomness(&keys.group, &keys.joint_elgamal_pubkey, p_i, r_i);
        let enc_witness = HomoEncWitness { r: r_i.dup(), m: p_i.dup() };
        let enc_statement = share_encryption_statement(keys, &c_i);
        let bound_witness = RangeWitness { x: p_i.dup(), r: r_i.dup() };
        let bound_statement = share_range_statement(keys, &c_i);
        let enc_proof = E::prove(&enc_witness, &enc_statement);
        let bound_proof = B::prove(&bound_witness, &bound_statement);
        (
            PartyTwoCandidateWitness { p_1: p_i.dup(), r_1: r_i.dup() },
            PartyTwoCandidateGenerationFirstMsg { c_i, pi_enc: enc_proof, pi_bound: bound_proof },
        )
    }

    /// Samples a fresh half-length share and blinding randomness and
    /// produces the first-round message for it.
    pub fn generate_shares_of_candidate<E: HomoEncCap, B: RangeCap>(
        keys: &PartyTwoKeySetup,
    ) -> (r: (PartyTwoCandidateWitness, PartyTwoCandidateGenerationFirstMsg<E, B>))
        requires
            keys.wf(),
        ensures
            r.0.p_1@ < pow2((CANDIDATE_BIT_LENGTH / 2 - 2) as nat),
            r.0.r_1@ < keys.group.q@,
            is_encryption(keys.group, keys.joint_elgamal_pubkey@, r.1.c_i, r.0.p_1@, r.0.r_1@),
    {
        let share_bit_size: usize = CANDIDATE_BIT_LENGTH / 2 - 2;
        let p_i = bn_sample(share_bit_size);
        let r_i = bn_sample_below(&keys.group.q);
        Self::first_message_from_share::<E, B>(keys, &p_i, &r_i)
    }

    /// Verifies the counterparty's correct-encryption and range proofs
    /// for its encrypted share and, on success, combines the two
    /// first-round ciphertexts into the Blum-form candidate pair: the
    /// counterparty's ciphertext scaled by `4` plus a deterministic
    /// encryption of `3` with zero randomness, and the local ciphertext
    /// scaled by `4`.
    pub fn verify_party_one_first_message_and_normalize_ciphertexts<E: HomoEncCap, B: RangeCap>(
        keys: &PartyTwoKeySetup,
        party_one_first_message: &PartyOneCandidateGenerationFirstMsg<E, B>,
        party_two_first_message: &PartyTwoCandidateGenerationFirstMsg<E, B>,
    ) -> (r: Result<CiphertextPair, TwoPartyRSAError>)
        requires
            keys.wf(),
        ensures
            r matches Ok(pair) ==> {
                &&& ct_val(pair.c0) == summed(
                    scaled(ct_val(party_one_first_message.c_i), 4, keys.group.p@ as int),
                    enc_val(keys.group, keys.joint_elgamal_pubkey@, 3, 0),
                    keys.group.p@ as int,
                )
                &&& ct_val(pair.c1) == scaled(
                    ct_val(party_two_first_message.c_i),
                    4,
                    keys.group.p@ as int,
                )
            },
            r matches Err(e) ==> e == TwoPartyRSAError::CandidateGenerationEncError,
    {
        let enc_statement = share_encryption_statement(keys, &party_one_first_message.c_i);
        let bound_statement = share_range_statement(keys, &party_one_first_message.c_i);
        let enc_ok = party_one_first_message.pi_enc.verify(&enc_statement);
        let bound_ok = party_one_first_message.pi_bound.verify(&bound_statement);
        match decide_share_verification(enc_ok, bound_ok) {
            Some(e) => Err(e),
            None => {
                let four = Bn::from_u8(4);
                let three = Bn::from_u8(3);
                let zero = Bn::from_u8(0);
                let c_party_one_mul_4 = scale_ciphertext(
                    &keys.group,
                    &party_one_first_message.c_i,
                    &four,
                );
                let c_party_two_mul_4 = scale_ciphertext(
                    &keys.group,
                    &party_two_first_message.c_i,
                    &four,
                );
                let enc_three = encrypt_with_randomness(
                    &keys.group,
                    &keys.joint_elgamal_pubkey,
                    &three,
                    &zero,
                );
                let c0 = add_ciphertexts(&keys.group, &c_party_one_mul_4, &enc_three);
                Ok(CiphertextPair { c0, c1: c_party_two_mul_4 })
            },
        }
    }

    /// Rescales the witness by `4` to match the scaling of the candidate
    /// pair, reduces the share modulo the trial divisor `alpha`,
    /// re-encrypts the reduced value under fresh randomness and proves
    /// the reduction correct.  Fails only if the proof system rejects
    /// the (honestly computed) witness.
    pub fn trial_division_prepare_c_alpha<M: ModReduceCap>(
        alpha: &Bn,
        keys: &PartyTwoKeySetup,
        c: &CiphertextPair,
        w: &PartyTwoCandidateWitness,
    ) -> (r: Result<PartyTwoCandidateGenerationSecondMsg<M>, TwoPartyRSAError>)
        requires
            keys.wf(),
            alpha@ >= 1,
        ensures
            r matches Ok(m) ==> encrypts_with_fresh_randomness(
                keys.group,
                keys.joint_elgamal_pubkey@,
                m.c_1_alpha,
                ((w.p_1@ * 4) % keys.group.q@) % alpha@,
            ),
            r matches Err(e) ==> e == TwoPartyRSAError::InvalidModProof,
    {
        let four = Bn::from_u8(4);
        let p_1 = bn_mod_mul(&w.p_1, &four, &keys.group.q);
        let r_1 = bn_mod_mul(&w.r_1, &four, &keys.group.q);

        let p_1_mod_alpha = bn_mod(&p_1, alpha);
        let r_1_alpha = bn_sample_below(&keys.group.q);
        let c_1_alpha = encrypt_with_randomness(
            &keys.group,
            &keys.joint_elgamal_pubkey,
            &p_1_mod_alpha,
            &r_1_alpha,
        );

        let mod_statement = reduction_statement(keys, &c.c1, &c_1_alpha, alpha);
        let mod_witness = ModWitness { r_a: r_1, a: p_1, r_b: r_1_alpha.dup(), b: p_1_mod_alpha };

        match M::prove(&mod_witness, &mod_statement) {
            Some(pi) => {
                let msg = PartyTwoCandidateGenerationSecondMsg { pi_mod: pi, c_1_alpha };
                proof {
                    assert(encrypts_with_fresh_randomness(
                        keys.group,
                        keys.joint_elgamal_pubkey@,
                        msg.c_1_alpha,
                        ((w.p_1@ * 4) % keys.group.q@) % alpha@,
                    )) by {
                        assert(r_1_alpha@ < keys.group.q@ && is_encryption(
                            keys.group,
                            keys.joint_elgamal_pubkey@,
                            msg.c_1_alpha,
                            ((w.p_1@ * 4) % keys.group.q@) % alpha@,
                            r_1_alpha@,
                        ));
                    }
                }
                Ok(msg)
            },
            None => Err(TwoPartyRSAError::InvalidModProof),
        }
    }

    /// Verifies the counterparty's modular-reduction proof against its
    /// half of the candidate pair and, on success, homomorphically sums
    /// the two reduced ciphertexts into `c_alpha`, subtracts the
    /// deterministic encryption of `alpha` to obtain `c_alpha_tilde`,
    /// rerandomizes both under fresh secret exponents with proofs, and
    /// partially decrypts both rerandomized ciphertexts with proofs.
    #[verifier::rlimit(100)]
    pub fn verify_party_one_second_message_and_partial_decrypt<M: ModReduceCap, DD: DdhCap>(
        party_one_second_message: &PartyOneCandidateGenerationSecondMsg<M>,
        party_two_second_message: &PartyTwoCandidateGenerationSecondMsg<M>,
        alpha: &Bn,
        keys: &PartyTwoKeySetup,
        c: &CiphertextPair,
    ) -> (r: Result<
        (PartyTwoCandidateGenerationThirdMsg<DD>, Ciphertext, Ciphertext),
        TwoPartyRSAError,
    >)
        requires
            keys.wf(),
            alpha@ >= 1,
        ensures
            r matches Ok(out) ==> {
                &&& ct_val(out.1) == summed(
                    ct_val(party_one_second_message.c_0_alpha),
                    ct_val(party_two_second_message.c_1_alpha),
                    keys.group.p@ as int,
                )
                &&& ct_val(out.2) == summed(
                    ct_val(out.1),
                    enc_val(
                        keys.group,
                        keys.joint_elgamal_pubkey@,
                        tilde_offset_m(keys.group.q@, alpha@),
                        tilde_offset_r(keys.group.q@),
                    ),
                    keys.group.p@ as int,
                )
                &&& rerandomization_of(
                    out.0.c_alpha_random,
                    out.1,
                    keys.group.p@ as int,
                    keys.group.q@,
                )
                &&& rerandomization_of(
                    out.0.c_alpha_tilde_random,
                    out.2,
                    keys.group.p@ as int,
                    keys.group.q@,
                )
                &&& out.0.partial_dec_c_alpha@ == pow(
                    out.0.c_alpha_random.c1@ as int,
                    keys.private.sk_x@,
                ) % (keys.group.p@ as int)
                &&& out.0.partial_dec_c_alpha_tilde@ == pow(
                    out.0.c_alpha_tilde_random.c1@ as int,
                    keys.private.sk_x@,
                ) % (keys.group.p@ as int)
            },
            r matches Err(e) ==> e == TwoPartyRSAError::InvalidModProof,
    {
        let mod_statement = reduction_statement(
            keys,
            &c.c0,
            &party_one_second_message.c_0_alpha,
            alpha,
        );
        let mod_ok = party_one_second_message.pi_mod.verify(&mod_statement);
        match decide_mod_verification(mod_ok) {
            Some(e) => Err(e),
            None => {
                let c_alpha = add_ciphertexts(
                    &keys.group,
                    &party_one_second_message.c_0_alpha,
                    &party_two_second_message.c_1_alpha,
                );
                // The offset encryption of `alpha` is deterministic: its
                // randomness is the agreed public constant 2, and both it
                // and the plaintext enter negated in the exponent group.
                let two = Bn::from_u8(2);
                let alpha_mod_q = bn_mod(alpha, &keys.group.q);
                let minus_alpha = bn_mod_sub(&keys.group.q, &alpha_mod_q, &keys.group.q);
                let minus_two = bn_mod_sub(&keys.group.q, &two, &keys.group.q);
                let enc_minus_alpha = encrypt_with_randomness(
                    &keys.group,
                    &keys.joint_elgamal_pubkey,
                    &minus_alpha,
                    &minus_two,
                );
                let c_alpha_tilde = add_ciphertexts(&keys.group, &c_alpha, &enc_minus_alpha);

                let r_alpha = bn_sample_below(&keys.group.q);
                let r_alpha_tilde = bn_sample_below(&keys.group.q);
                let c_alpha_random = scale_ciphertext(&keys.group, &c_alpha, &r_alpha);
                let c_alpha_tilde_random = scale_ciphertext(
                    &keys.group,
                    &c_alpha_tilde,
                    &r_alpha_tilde,
                );

                let ddh_statement_alpha = rerandomization_statement(
                    keys,
                    &c_alpha,
                    &c_alpha_random,
                );
                let ddh_witness_alpha = DdhWitness { x: r_alpha.dup() };
                let ddh_proof_alpha = DD::prove(&ddh_witness_alpha, &ddh_statement_alpha);
                let ddh_statement_alpha_tilde = rerandomization_statement(
                    keys,
                    &c_alpha_tilde,
                    &c_alpha_tilde_random,
                );
                let ddh_witness_alpha_tilde = DdhWitness { x: r_alpha_tilde.dup() };
                let ddh_proof_alpha_tilde = DD::prove(
                    &ddh_witness_alpha_tilde,
                    &ddh_statement_alpha_tilde,
                );

                let dec_key_alpha = bn_mod_pow(
                    &c_alpha_random.c1,
                    &keys.private.sk_x,
                    &keys.group.p,
                );
                let dec_key_alpha_tilde = bn_mod_pow(
                    &c_alpha_tilde_random.c1,
                    &keys.private.sk_x,
                    &keys.group.p,
                );

                let statement_alpha = local_partial_decryption_statement(
                    keys,
                    &c_alpha_random.c1,
                    &dec_key_alpha,
                );
                let witness_alpha = DdhWitness { x: keys.private.sk_x.dup() };
                let statement_alpha_tilde = local_partial_decryption_statement(
                    keys,
                    &c_alpha_tilde_random.c1,
                    &dec_key_alpha_tilde,
                );
                let proof_alpha = DD::prove(&witness_alpha, &statement_alpha);
                let proof_alpha_tilde = DD::prove(&witness_alpha, &statement_alpha_tilde);

                proof {
                    assert(rerandomization_of(
                        c_alpha_random,
                        c_alpha,
                        keys.group.p@ as int,
                        keys.group.q@,
                    )) by {
                        assert(r_alpha@ < keys.group.q@ && ct_val(c_alpha_random) == scaled(
                            ct_val(c_alpha),
                            r_alpha@,
                            keys.group.p@ as int,
                        ));
                    }
                    assert(rerandomization_of(
                        c_alpha_tilde_random,
                        c_alpha_tilde,
                        keys.group.p@ as int,
                        keys.group.q@,
                    )) by {
                        assert(r_alpha_tilde@ < keys.group.q@ && ct_val(c_alpha_tilde_random)
                            == scaled(
                            ct_val(c_alpha_tilde),
                            r_alpha_tilde@,
                            keys.group.p@ as int,
                        ));
                    }
                }
                Ok(
                    (
                        PartyTwoCandidateGenerationThirdMsg {
                            proof_alpha,
                            proof_alpha_tilde,
                            c_alpha_random,
                            c_alpha_tilde_random,
                            partial_dec_c_alpha: dec_key_alpha,
                            partial_dec_c_alpha_tilde: dec_key_alpha_tilde,
                            ddh_proof_alpha,
                            ddh_proof_alpha_tilde,
                        },
                        c_alpha,
                        c_alpha_tilde,
                    ),
                )
            },
        }
    }

    /// Verifies the counterparty's rerandomization and
    /// partial-decryption proofs and, on success, combines the local
    /// partial decryption with the disclosed one to fully decrypt each
    /// rerandomized channel.  Returns `false` when either channel
    /// decrypts to the group identity — the candidate is divisible by
    /// the trial divisor or degenerately equal to it — and `true` when
    /// the candidate survives the divisor.  Nothing beyond this boolean
    /// is reconstructed.
    ///
    /// Success is not quite equivalent to the four proofs verifying:
    /// even after every gate passes, a combined decryption key with no
    /// inverse modulo `p` — impossible for an honestly built message
    /// over a prime-order group — is rejected with the same error
    /// rather than left to abort the computation.
    pub fn verify_party_one_third_message_full_decrypt_and_conclude_division<DD: DdhCap>(
        c_alpha: &Ciphertext,
        c_alpha_tilde: &Ciphertext,
        party_one_third_message: &PartyOneCandidateGenerationThirdMsg<DD>,
        keys: &PartyTwoKeySetup,
    ) -> (r: Result<bool, TwoPartyRSAError>)
        requires
            keys.wf(),
        ensures
            r matches Ok(b) ==> b == !(channel_is_identity(
                party_one_third_message.c_alpha_random,
                party_one_third_message.partial_dec_c_alpha@,
                keys.private.sk_x@,
                keys.group.p@ as int,
            ) || channel_is_identity(
                party_one_third_message.c_alpha_tilde_random,
                party_one_third_message.partial_dec_c_alpha_tilde@,
                keys.private.sk_x@,
                keys.group.p@ as int,
            )),
            r matches Err(e) ==> e == TwoPartyRSAError::CandidateGenerationDecError,
    {
        let statement_alpha_ddh = rerandomization_statement(
            keys,
            c_alpha,
            &party_one_third_message.c_alpha_random,
        );
        let statement_alpha_tilde_ddh = rerandomization_statement(
            keys,
            c_alpha_tilde,
            &party_one_third_message.c_alpha_tilde_random,
        );
        let ok1 = party_one_third_message.ddh_proof_alpha.verify(&statement_alpha_ddh);
        let ok2 = party_one_third_message.ddh_proof_alpha_tilde.verify(
            &statement_alpha_tilde_ddh,
        );

        let statement_alpha = remote_partial_decryption_statement(
            keys,
            &party_one_third_message.c_alpha_random.c1,
            &party_one_third_message.partial_dec_c_alpha,
        );
        let statement_alpha_tilde = remote_partial_decryption_statement(
            keys,
            &party_one_third_message.c_alpha_tilde_random.c1,
            &party_one_third_message.partial_dec_c_alpha_tilde,
        );
        let ok3 = party_one_third_message.proof_alpha.verify(&statement_alpha);
        let ok4 = party_one_third_message.proof_alpha_tilde.verify(&statement_alpha_tilde);

        match decide_conclude(ok1, ok2, ok3, ok4) {
            Some(e) => Err(e),
            None => {
                let one = Bn::from_u8(1);
                let dec_key_alpha = bn_mod_pow(
                    &party_one_third_message.c_alpha_random.c1,
                    &keys.private.sk_x,
                    &keys.group.p,
                );
                let dec_key_alpha_tilde = bn_mod_pow(
                    &party_one_third_message.c_alpha_tilde_random.c1,
                    &keys.private.sk_x,
                    &keys.group.p,
                );
                let dec_key_alpha_full = bn_mod_mul(
                    &dec_key_alpha,
                    &party_one_third_message.partial_dec_c_alpha,
                    &keys.group.p,
                );
                let dec_key_alpha_tilde_full = bn_mod_mul(
                    &dec_key_alpha_tilde,
                    &party_one_third_message.partial_dec_c_alpha_tilde,
                    &keys.group.p,
                );
                let inv_alpha = match bn_mod_inv(&dec_key_alpha_full, &keys.group.p) {
                    Some(i) => i,
                    None => {
                        return Err(TwoPartyRSAError::CandidateGenerationDecError);
                    },
                };
                let inv_alpha_tilde = match bn_mod_inv(&dec_key_alpha_tilde_full, &keys.group.p) {
                    Some(i) => i,
                    None => {
                        return Err(TwoPartyRSAError::CandidateGenerationDecError);
                    },
                };
                let test1 = bn_mod_mul(
                    &party_one_third_message.c_alpha_random.c2,
                    &inv_alpha,
                    &keys.group.p,
                );
                let test2 = bn_mod_mul(
                    &party_one_third_message.c_alpha_tilde_random.c2,
                    &inv_alpha_tilde,
                    &keys.group.p,
                );
                let t1 = bn_eq(&test1, &one);
                let t2 = bn_eq(&test2, &one);
                proof {
                    let p = keys.group.p@ as int;
                    vstd::arithmetic::div_mod::lemma_mod_bound(
                        (dec_key_alpha@ * party_one_third_message.partial_dec_c_alpha@) as int,
                        p,
                    );
                    vstd::arithmetic::div_mod::lemma_mod_bound(
                        (dec_key_alpha_tilde@
                            * party_one_third_message.partial_dec_c_alpha_tilde@) as int,
                        p,
                    );
                    crate::arith::lemma_mod_inv_cancel(
                        party_one_third_message.c_alpha_random.c2@ as int,
                        inv_alpha@ as int,
                        dec_key_alpha_full@ as int,
                        p,
                    );
                    crate::arith::lemma_mod_inv_cancel(
                        party_one_third_message.c_alpha_tilde_random.c2@ as int,
                        inv_alpha_tilde@ as int,
                        dec_key_alpha_tilde_full@ as int,
                        p,
                    );
                }
                if t1 || t2 {
                    Ok(false)
                } else {
                    Ok(true)
                }
            },
        }
    }
}

} // verus!
