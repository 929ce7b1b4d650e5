//! Key setup: each party generates a local ElGamal keypair and a local
//! Paillier keypair, proves their well-formedness, and the two ElGamal
//! public keys are combined into the joint key under which all candidate
//! arithmetic is performed.

use vstd::prelude::*;
use vstd::arithmetic::power::pow;
use crate::bn::Bn;
use crate::group::{ElGamalGroup, ElGamalKeyPair, combine_public_keys, joint_key_of};
use crate::proofs::{DlogCap, DlogStatement, DlogWitness};
use crate::{TwoPartyRSAError, PAILLIER_MODULUS};
use kzen_paillier::{EncryptionKey, DecryptionKey, Paillier, KeyGeneration};
use zk_paillier::zkproofs::{NiCorrectKeyProof, SALT_STRING};

verus! {

#[verifier::external_type_specification]
#[verifier::external_body]
pub struct ExEncryptionKey(EncryptionKey);

#[verifier::external_type_specification]
#[verifier::external_body]
pub struct ExDecryptionKey(DecryptionKey);

#[verifier::external_type_specification]
#[verifier::external_body]
pub struct ExNiCorrectKeyProof(NiCorrectKeyProof);

/// Relies on paillier's `Paillier::keypair_with_modulus_size` followed by
/// `Keypair::keys`: a fresh keypair at the given modulus bit length.
#[verifier::external_body]
fn paillier_keygen(bit_length: usize) -> (r: (EncryptionKey, DecryptionKey))
    requires
        bit_length >= 128,
{
    Paillier::keypair_with_modulus_size(bit_length).keys()
}

/// Relies on zk_paillier's `NiCorrectKeyProof::proof` with the default
/// salt: a correct-key proof for the given decryption key.
#[verifier::external_body]
fn correct_key_prove(dk: &DecryptionKey) -> (r: NiCorrectKeyProof)
{
    NiCorrectKeyProof::proof(dk, None)
}

/// Relies on zk_paillier's `NiCorrectKeyProof::verify` with the default
/// salt: whether the proof shows the encryption key well-formed.  A
/// message whose proof does not carry exactly the protocol's eleven
/// ring elements, or whose modulus is not positive, is never a valid
/// proof and is rejected outright: the outside `verify` would abort on
/// such values (it indexes the first eleven elements and reduces
/// modulo `ek.n`) instead of returning an outcome.
#[verifier::external_body]
fn correct_key_verify(proof: &NiCorrectKeyProof, ek: &EncryptionKey) -> (r: bool)
{
    if proof.sigma_vec.len() != 11 || ek.n <= curv::BigInt::from(0u32) {
        return false;
    }
    proof.verify(ek, SALT_STRING).is_ok()
}

/// Relies on paillier's derived `Clone` for `EncryptionKey`: the copy
/// equals the original.
#[verifier::external_body]
fn clone_encryption_key(ek: &EncryptionKey) -> (r: EncryptionKey)
    ensures
        r == *ek,
{
    ek.clone()
}

/// Party Two's private key-setup material: the local Paillier decryption
/// key and the local ElGamal secret exponent.  It is never placed in any
/// outbound message and no verification logic reads it.
pub struct PartyTwoPrivate {
    pub dk: DecryptionKey,
    pub sk_x: Bn,
}

/// Party Two's first (and only) key-setup message: the local public keys
/// with their well-formedness proofs.
pub struct KeySetupFirstMsg<D> {
    pub ek: EncryptionKey,
    pub pk: Bn,
    pub correct_key_proof: NiCorrectKeyProof,
    pub dlog_proof: D,
}

/// Party One's key-setup message, as Party Two receives it.
pub struct PartyOneKeySetupFirstMsg<D> {
    pub ek: EncryptionKey,
    pub pk: Bn,
    pub correct_key_proof: NiCorrectKeyProof,
    pub dlog_proof: D,
}

/// The finalized key bundle of Party Two.
pub struct PartyTwoKeySetup {
    pub local_paillier_pubkey: EncryptionKey,
    pub local_elgamal_pubkey: Bn,
    pub remote_paillier_pubkey: EncryptionKey,
    pub remote_elgamal_pubkey: Bn,
    pub joint_elgamal_pubkey: Bn,
    pub group: ElGamalGroup,
    pub private: PartyTwoPrivate,
}

impl PartyTwoKeySetup {
    /// The joint key is the group product of the two local public keys,
    /// and the local public key matches the private exponent.
    pub open spec fn wf(&self) -> bool {
        &&& self.group.valid()
        &&& self.joint_elgamal_pubkey@ == joint_key_of(
            self.group,
            self.local_elgamal_pubkey@,
            self.remote_elgamal_pubkey@,
        )
        &&& self.local_elgamal_pubkey@ == pow(self.group.g@ as int, self.private.sk_x@) % (
        self.group.p@ as int)
        &&& self.private.sk_x@ < self.group.q@
    }
}

/// Which error, if any, the key-setup verification gate reports for the
/// given proof outcomes: a failed discrete-log proof aborts with an
/// invalid ElGamal key, then a failed correct-key proof aborts with an
/// invalid Paillier key; otherwise the round succeeds.
pub open spec fn key_setup_gate(dlog_ok: bool, correct_key_ok: bool) -> Option<TwoPartyRSAError> {
    if !dlog_ok {
        Some(TwoPartyRSAError::InvalidElGamalKey)
    } else if !correct_key_ok {
        Some(TwoPartyRSAError::InvalidPaillierKey)
    } else {
        None
    }
}

/// The executable key-setup gate; its result is exactly
/// [`key_setup_gate`] of the two verification outcomes.
pub fn decide_key_setup(dlog_ok: bool, correct_key_ok: bool) -> (r: Option<TwoPartyRSAError>)
    ensures
        r == key_setup_gate(dlog_ok, correct_key_ok),
{
    if !dlog_ok {
        Some(TwoPartyRSAError::InvalidElGamalKey)
    } else if !correct_key_ok {
        Some(TwoPartyRSAError::InvalidPaillierKey)
    } else {
        None
    }
}

/// The statement the counterparty's discrete-log proof is verified
/// against: its claimed ElGamal public key.
pub fn counterparty_dlog_statement<D>(
    party_one_first_message: &PartyOneKeySetupFirstMsg<D>,
) -> (s: DlogStatement)
    ensures
        s.h@ == party_one_first_message.pk@,
{
    DlogStatement { h: party_one_first_message.pk.dup() }
}

impl PartyTwoKeySetup {
    /// Samples the local ElGamal and Paillier keypairs over the agreed
    /// group, the Paillier keypair at the fixed [`PAILLIER_MODULUS`] bit
    /// length, and produces the outbound message with both
    /// well-formedness proofs.  The returned private material must be
    /// retained and never transmitted.
    pub fn gen_local_keys_and_first_message_to_party_one<D: DlogCap>(
        gr: &ElGamalGroup,
    ) -> (r: (KeySetupFirstMsg<D>, PartyTwoPrivate))
        requires
            gr.valid(),
        ensures
            r.0.pk@ == pow(gr.g@ as int, r.1.sk_x@) % (gr.p@ as int),
            r.1.sk_x@ < gr.q@,
    {
        Self::gen_local_keys_with_modulus_size::<D>(gr, PAILLIER_MODULUS)
    }

    /// As [`Self::gen_local_keys_and_first_message_to_party_one`], with
    /// the Paillier modulus bit length chosen by the caller (a test
    /// harness may agree on a shorter one).
    pub fn gen_local_keys_with_modulus_size<D: DlogCap>(
        gr: &ElGamalGroup,
        paillier_bits: usize,
    ) -> (r: (KeySetupFirstMsg<D>, PartyTwoPrivate))
        requires
            gr.valid(),
            paillier_bits >= 128,
        ensures
            r.0.pk@ == pow(gr.g@ as int, r.1.sk_x@) % (gr.p@ as int),
            r.1.sk_x@ < gr.q@,
    {
        let keypair = ElGamalKeyPair::generate(gr);
        let witness = DlogWitness { x: keypair.x };
        let dlog_proof = D::prove(&witness, gr);

        let (ek_new, dk_new) = paillier_keygen(paillier_bits);
        let correct_key_proof = correct_key_prove(&dk_new);

        let party_two_private = PartyTwoPrivate { dk: dk_new, sk_x: witness.x };
        (
            KeySetupFirstMsg {
                ek: ek_new,
                pk: keypair.h,
                correct_key_proof,
                dlog_proof,
            },
            party_two_private,
        )
    }

    /// Verifies the counterparty's discrete-log and correct-key proofs
    /// and, on success, derives the joint ElGamal public key and returns
    /// the finalized bundle.  On failure the typed error says which proof
    /// failed and the attempt must be aborted; no partial bundle exists.
    pub fn verify_party_one_first_message_and_output_party_two_keys<D: DlogCap>(
        gr: &ElGamalGroup,
        party_one_first_message: &PartyOneKeySetupFirstMsg<D>,
        party_two_first_message: &KeySetupFirstMsg<D>,
        party_two_private: PartyTwoPrivate,
    ) -> (r: Result<PartyTwoKeySetup, TwoPartyRSAError>)
        requires
            gr.valid(),
            party_two_first_message.pk@ == pow(gr.g@ as int, party_two_private.sk_x@) % (
            gr.p@ as int),
            party_two_private.sk_x@ < gr.q@,
        ensures
            r matches Ok(keys) ==> {
                &&& keys.wf()
                &&& keys.group.eqv(gr)
                &&& keys.local_elgamal_pubkey@ == party_two_first_message.pk@
                &&& keys.remote_elgamal_pubkey@ == party_one_first_message.pk@
                &&& keys.local_paillier_pubkey == party_two_first_message.ek
                &&& keys.remote_paillier_pubkey == party_one_first_message.ek
                &&& keys.private == party_two_private
                &&& keys.joint_elgamal_pubkey@ == joint_key_of(
                    *gr,
                    party_two_first_message.pk@,
                    party_one_first_message.pk@,
                )
            },
            r matches Err(e) ==> e == TwoPartyRSAError::InvalidElGamalKey || e
                == TwoPartyRSAError::InvalidPaillierKey,
    {
        let dlog_statement = counterparty_dlog_statement(party_one_first_message);
        let dlog_ok = party_one_first_message.dlog_proof.verify(&dlog_statement, gr);
        let correct_key_ok = correct_key_verify(
            &party_one_first_message.correct_key_proof,
            &party_one_first_message.ek,
        );
        match decide_key_setup(dlog_ok, correct_key_ok) {
            Some(e) => Err(e),
            None => Ok(
                PartyTwoKeySetup {
                    local_paillier_pubkey: clone_encryption_key(&party_two_first_message.ek),
                    local_elgamal_pubkey: party_two_first_message.pk.dup(),
                    remote_paillier_pubkey: clone_encryption_key(&party_one_first_message.ek),
                    remote_elgamal_pubkey: party_one_first_message.pk.dup(),
                    joint_elgamal_pubkey: combine_public_keys(
                        gr,
                        &party_two_first_message.pk,
                        &party_one_first_message.pk,
                    ),
                    group: gr.dup(),
                    private: party_two_private,
                },
            ),
        }
    }
}

} // verus!
