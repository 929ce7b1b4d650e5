//! End-to-end tests of Party Two's protocol role: an honest run of key
//! setup, candidate generation and trial division against a simulated
//! Party One, tamper tests for every verification gate, and the concrete
//! divisibility scenarios.

use two_party_rsa::bn::Bn;
use two_party_rsa::cipher::{encrypt_with_randomness, Ciphertext};
use two_party_rsa::group::{combine_public_keys, ElGamalGroup, ElGamalKeyPair};
use two_party_rsa::keysetup::{PartyOneKeySetupFirstMsg, PartyTwoKeySetup};
use two_party_rsa::candidate::{
    PartyOneCandidateGenerationFirstMsg, PartyOneCandidateGenerationSecondMsg,
    PartyOneCandidateGenerationThirdMsg, PartyTwoCandidateGeneration,
};
use two_party_rsa::proofs::{
    DdhCap, DdhStatement, DdhWitness, DlogCap, DlogStatement, DlogWitness, HomoEncCap,
    HomoEncStatement, HomoEncWitness, ModReduceCap, ModStatement, ModWitness, RangeCap,
    RangeStatement, RangeWitness,
};
use two_party_rsa::TwoPartyRSAError;

use curv::arithmetic::{Converter, Modulo};
use kzen_paillier::{KeyGeneration, Paillier};
use zk_paillier::zkproofs::NiCorrectKeyProof;

// ---- small-number helpers over the byte representation ----

fn bn(x: u64) -> Bn {
    let mut v: Vec<u8> = x.to_be_bytes().to_vec();
    while v.len() > 1 && v[0] == 0 {
        v.remove(0);
    }
    if v == [0] {
        v = vec![];
    }
    Bn::from_bytes(v)
}

fn val(b: &Bn) -> u64 {
    b.bytes.iter().fold(0u64, |a, &x| a * 256 + x as u64)
}

fn pow_mod(b: u64, mut e: u64, m: u64) -> u64 {
    let mm = m as u128;
    let mut base = (b % m) as u128;
    let mut r: u128 = 1;
    while e > 0 {
        if e & 1 == 1 {
            r = r * base % mm;
        }
        base = base * base % mm;
        e >>= 1;
    }
    r as u64
}

fn mul_mod(a: u64, b: u64, m: u64) -> u64 {
    ((a as u128 * b as u128) % m as u128) as u64
}

fn inv_mod(a: u64, p: u64) -> u64 {
    // p is prime in all tests
    pow_mod(a, p - 2, p)
}

/// The test group: p = 107 = 2*53 + 1, generator 4 of prime order 53.
fn test_group() -> ElGamalGroup {
    ElGamalGroup::new(bn(107), bn(53), bn(4)).expect("valid test group")
}

const P: u64 = 107;
const Q: u64 = 53;
const G: u64 = 4;

// ---- toy proof systems implementing the capability traits ----
//
// Each toy proof simply carries the witness; `verify` recomputes the
// claimed relation over the small test group.  Sound and complete for
// tests, which is all the protocol engine consumes.

struct ToyDlog {
    x: Bn,
}

impl DlogCap for ToyDlog {
    fn prove(witness: &DlogWitness, _gr: &ElGamalGroup) -> Self {
        ToyDlog { x: witness.x.clone() }
    }

    fn verify(&self, statement: &DlogStatement, gr: &ElGamalGroup) -> bool {
        curv::BigInt::mod_pow(&big(&gr.g), &big(&self.x), &big(&gr.p)) == big(&statement.h)
    }
}

struct ToyHomoEnc {
    m: Bn,
    r: Bn,
}

fn big(b: &Bn) -> curv::BigInt {
    curv::BigInt::from_bytes(&b.bytes)
}

fn big_enc_matches(gr: &ElGamalGroup, pk: &Bn, c: &Ciphertext, m: &Bn, r: &Bn) -> bool {
    let p = big(&gr.p);
    let g = big(&gr.g);
    let c1 = curv::BigInt::mod_pow(&g, &big(r), &p);
    let c2 = curv::BigInt::mod_mul(
        &curv::BigInt::mod_pow(&g, &big(m), &p),
        &curv::BigInt::mod_pow(&big(pk), &big(r), &p),
        &p,
    );
    c1 == big(&c.c1) && c2 == big(&c.c2)
}

fn enc_matches(gr: &ElGamalGroup, pk: &Bn, c: &Ciphertext, m: u64, r: u64) -> bool {
    big_enc_matches(gr, pk, c, &bn(m), &bn(r))
}

impl HomoEncCap for ToyHomoEnc {
    fn prove(witness: &HomoEncWitness, _statement: &HomoEncStatement) -> Self {
        ToyHomoEnc { m: witness.m.clone(), r: witness.r.clone() }
    }

    fn verify(&self, statement: &HomoEncStatement) -> bool {
        big_enc_matches(&statement.gr, &statement.pk, &statement.ciphertext, &self.m, &self.r)
    }
}

struct ToyRange {
    x: Bn,
    r: Bn,
}

impl RangeCap for ToyRange {
    fn prove(witness: &RangeWitness, _statement: &RangeStatement) -> Self {
        ToyRange { x: witness.x.clone(), r: witness.r.clone() }
    }

    fn verify(&self, statement: &RangeStatement) -> bool {
        let in_range = if statement.range_bit_size >= 64 {
            true
        } else {
            val(&self.x) < 1u64 << statement.range_bit_size
        };
        in_range && big_enc_matches(
            &statement.gr,
            &statement.pk,
            &statement.ciphertext,
            &self.x,
            &self.r,
        )
    }
}

struct ToyMod {
    a: Bn,
    r_a: Bn,
    b: Bn,
    r_b: Bn,
}

impl ModReduceCap for ToyMod {
    fn prove(witness: &ModWitness, _statement: &ModStatement) -> Option<Self> {
        Some(ToyMod {
            a: witness.a.clone(),
            r_a: witness.r_a.clone(),
            b: witness.b.clone(),
            r_b: witness.r_b.clone(),
        })
    }

    fn verify(&self, statement: &ModStatement) -> bool {
        big_enc_matches(&statement.gr, &statement.pk, &statement.c, &self.a, &self.r_a)
            && big_enc_matches(
                &statement.gr,
                &statement.pk,
                &statement.c_prime,
                &self.b,
                &self.r_b,
            )
            && big(&self.b) == big(&self.a).modulus(&big(&statement.modulus_p))
    }
}

struct ToyDdh {
    x: Bn,
}

impl DdhCap for ToyDdh {
    fn prove(witness: &DdhWitness, _statement: &DdhStatement) -> Self {
        ToyDdh { x: witness.x.clone() }
    }

    fn verify(&self, statement: &DdhStatement) -> bool {
        let p = big(&statement.gr.p);
        let x = big(&self.x);
        curv::BigInt::mod_pow(&big(&statement.g1), &x, &p) == big(&statement.h1)
            && curv::BigInt::mod_pow(&big(&statement.g2), &x, &p) == big(&statement.h2)
    }
}

// ---- a simulated Party One ----

struct PartyOne {
    x: u64,
    h: u64,
    share: u64,
    r_share: u64,
}

const PAILLIER_TEST_BITS: usize = 512;

fn party_one_key_message(gr: &ElGamalGroup) -> (PartyOne, PartyOneKeySetupFirstMsg<ToyDlog>) {
    let kp = ElGamalKeyPair::generate(gr);
    let (ek, dk) = Paillier::keypair_with_modulus_size(PAILLIER_TEST_BITS).keys();
    let correct_key_proof = NiCorrectKeyProof::proof(&dk, None);
    let one = PartyOne { x: val(&kp.x), h: val(&kp.h), share: 0, r_share: 0 };
    let msg = PartyOneKeySetupFirstMsg {
        ek,
        pk: kp.h.clone(),
        correct_key_proof,
        dlog_proof: ToyDlog { x: kp.x },
    };
    (one, msg)
}

/// Runs key setup for both roles and returns Party Two's bundle plus the
/// simulated Party One.
fn run_key_setup() -> (PartyTwoKeySetup, PartyOne) {
    let gr = test_group();
    let (msg2, priv2) = PartyTwoKeySetup::gen_local_keys_with_modulus_size::<ToyDlog>(
        &gr,
        PAILLIER_TEST_BITS,
    );
    let (one, msg1) = party_one_key_message(&gr);
    let keys = PartyTwoKeySetup::verify_party_one_first_message_and_output_party_two_keys(
        &gr, &msg1, &msg2, priv2,
    )
    .expect("honest key setup succeeds");
    (keys, one)
}

fn party_one_first_message(
    keys: &PartyTwoKeySetup,
    one: &mut PartyOne,
    share: u64,
    r_share: u64,
) -> PartyOneCandidateGenerationFirstMsg<ToyHomoEnc, ToyRange> {
    one.share = share;
    one.r_share = r_share;
    let c_i = encrypt_with_randomness(
        &keys.group,
        &keys.joint_elgamal_pubkey,
        &bn(share),
        &bn(r_share),
    );
    PartyOneCandidateGenerationFirstMsg {
        c_i,
        pi_enc: ToyHomoEnc { m: bn(share), r: bn(r_share) },
        pi_bound: ToyRange { x: bn(share), r: bn(r_share) },
    }
}

fn party_one_second_message(
    keys: &PartyTwoKeySetup,
    one: &PartyOne,
    alpha: u64,
    r_fresh: u64,
) -> PartyOneCandidateGenerationSecondMsg<ToyMod> {
    // Party One's half of the pair encrypts 4*share + 3 under 4*r_share.
    let a = (4 * one.share + 3) % Q;
    let r_a = (4 * one.r_share) % Q;
    let b = a % alpha;
    let c_0_alpha = encrypt_with_randomness(
        &keys.group,
        &keys.joint_elgamal_pubkey,
        &bn(b),
        &bn(r_fresh),
    );
    PartyOneCandidateGenerationSecondMsg {
        pi_mod: ToyMod { a: bn(a), r_a: bn(r_a), b: bn(b), r_b: bn(r_fresh) },
        c_0_alpha,
    }
}

fn scale_u64(c: &Ciphertext, k: u64) -> Ciphertext {
    Ciphertext {
        c1: bn(pow_mod(val(&c.c1), k, P)),
        c2: bn(pow_mod(val(&c.c2), k, P)),
    }
}

fn party_one_third_message(
    keys: &PartyTwoKeySetup,
    one: &PartyOne,
    c_alpha: &Ciphertext,
    c_alpha_tilde: &Ciphertext,
    rr_alpha: u64,
    rr_tilde: u64,
) -> PartyOneCandidateGenerationThirdMsg<ToyDdh> {
    let _ = keys;
    let c_alpha_random = scale_u64(c_alpha, rr_alpha);
    let c_alpha_tilde_random = scale_u64(c_alpha_tilde, rr_tilde);
    let partial_alpha = pow_mod(val(&c_alpha_random.c1), one.x, P);
    let partial_tilde = pow_mod(val(&c_alpha_tilde_random.c1), one.x, P);
    PartyOneCandidateGenerationThirdMsg {
        proof_alpha: ToyDdh { x: bn(one.x) },
        proof_alpha_tilde: ToyDdh { x: bn(one.x) },
        c_alpha_random,
        c_alpha_tilde_random,
        partial_dec_c_alpha: bn(partial_alpha),
        partial_dec_c_alpha_tilde: bn(partial_tilde),
        ddh_proof_alpha: ToyDdh { x: bn(rr_alpha) },
        ddh_proof_alpha_tilde: ToyDdh { x: bn(rr_tilde) },
    }
}

/// Decrypts an exponential ElGamal ciphertext with the full secret
/// exponent and recovers the small plaintext by brute force.
fn decrypt(c: &Ciphertext, x_total: u64) -> u64 {
    let key = pow_mod(val(&c.c1), x_total, P);
    let target = mul_mod(val(&c.c2), inv_mod(key, P), P);
    for m in 0..Q {
        if pow_mod(G, m, P) == target {
            return m;
        }
    }
    panic!("plaintext not found");
}

/// Runs one full honest trial-division round for `alpha` over shares
/// `share0`, `share1` and returns the survival verdict.
fn run_trial_division(share0: u64, share1: u64, alpha: u64) -> Result<bool, TwoPartyRSAError> {
    let (keys, mut one) = run_key_setup();
    let (w2, msg2) = PartyTwoCandidateGeneration::first_message_from_share::<ToyHomoEnc, ToyRange>(
        &keys,
        &bn(share1),
        &bn(5),
    );
    let msg1 = party_one_first_message(&keys, &mut one, share0, 11);
    let pair = PartyTwoCandidateGeneration::verify_party_one_first_message_and_normalize_ciphertexts(
        &keys, &msg1, &msg2,
    )?;
    let second2 =
        PartyTwoCandidateGeneration::trial_division_prepare_c_alpha::<ToyMod>(
            &bn(alpha),
            &keys,
            &pair,
            &w2,
        )?;
    let second1 = party_one_second_message(&keys, &one, alpha, 9);
    let (_, c_alpha, c_alpha_tilde) =
        PartyTwoCandidateGeneration::verify_party_one_second_message_and_partial_decrypt::<
            ToyMod,
            ToyDdh,
        >(&second1, &second2, &bn(alpha), &keys, &pair)?;
    let third1 = party_one_third_message(&keys, &one, &c_alpha, &c_alpha_tilde, 13, 17);
    PartyTwoCandidateGeneration::verify_party_one_third_message_full_decrypt_and_conclude_division(
        &c_alpha,
        &c_alpha_tilde,
        &third1,
        &keys,
    )
}

fn flip_bit(b: &Bn) -> Bn {
    let mut v = b.bytes.clone();
    if v.is_empty() {
        v.push(1);
    } else {
        let last = v.len() - 1;
        v[last] ^= 1;
    }
    Bn::from_bytes(v)
}

// ---- joint-key commutativity ----

#[test]
fn joint_key_is_commutative() {
    let gr = test_group();
    let a = ElGamalKeyPair::generate(&gr);
    let b = ElGamalKeyPair::generate(&gr);
    let ab = combine_public_keys(&gr, &a.h, &b.h);
    let ba = combine_public_keys(&gr, &b.h, &a.h);
    assert_eq!(ab, ba);
}

// ---- completeness of the honest run ----

#[test]
fn honest_key_setup_succeeds() {
    let (keys, one) = run_key_setup();
    let expected_joint = mul_mod(val(&keys.local_elgamal_pubkey), one.h, P);
    assert_eq!(val(&keys.joint_elgamal_pubkey), expected_joint);
    assert_eq!(val(&keys.remote_elgamal_pubkey), one.h);
}

#[test]
fn honest_run_returns_no_error() {
    assert_eq!(run_trial_division(5, 7, 5), Ok(true));
}

// ---- scaling invariant ----

#[test]
fn normalized_pair_decrypts_to_blum_form() {
    let (keys, mut one) = run_key_setup();
    let (_w2, msg2) =
        PartyTwoCandidateGeneration::first_message_from_share::<ToyHomoEnc, ToyRange>(
            &keys,
            &bn(7),
            &bn(5),
        );
    let msg1 = party_one_first_message(&keys, &mut one, 5, 11);
    let pair = PartyTwoCandidateGeneration::verify_party_one_first_message_and_normalize_ciphertexts(
        &keys, &msg1, &msg2,
    )
    .expect("honest share proofs verify");
    let x_total = one.x + val(&keys.private.sk_x);
    let m0 = decrypt(&pair.c0, x_total);
    let m1 = decrypt(&pair.c1, x_total);
    assert_eq!(m0, 4 * 5 + 3);
    assert_eq!(m1, 4 * 7);
    let n = m0 + m1;
    assert_eq!(n, 4 * (5 + 7) + 3);
    assert_eq!(n % 4, 3);
}

// ---- divisibility correctness ----

#[test]
fn trial_division_rejects_dividing_alpha() {
    // N = 4*(5+7)+3 = 51 and 51 % 3 == 0: the candidate must be rejected.
    assert_eq!(run_trial_division(5, 7, 3), Ok(false));
}

#[test]
fn trial_division_accepts_coprime_alpha() {
    // 51 % 5 == 1 and 51 != 5: the candidate survives.
    assert_eq!(run_trial_division(5, 7, 5), Ok(true));
}

// ---- degenerate-equal case ----

#[test]
fn trial_division_rejects_alpha_equal_to_candidate() {
    // N = 51 == alpha: the tilde channel decrypts to the identity.
    assert_eq!(run_trial_division(5, 7, 51), Ok(false));
}

// ---- tamper tests ----

#[test]
fn tampered_dlog_proof_is_invalid_elgamal_key() {
    let gr = test_group();
    let (msg2, priv2) = PartyTwoKeySetup::gen_local_keys_with_modulus_size::<ToyDlog>(
        &gr,
        PAILLIER_TEST_BITS,
    );
    let (_one, mut msg1) = party_one_key_message(&gr);
    msg1.dlog_proof = ToyDlog { x: flip_bit(&msg1.dlog_proof.x) };
    let r = PartyTwoKeySetup::verify_party_one_first_message_and_output_party_two_keys(
        &gr, &msg1, &msg2, priv2,
    );
    assert!(matches!(r, Err(TwoPartyRSAError::InvalidElGamalKey)));
}

#[test]
fn tampered_correct_key_proof_is_invalid_paillier_key() {
    let gr = test_group();
    let (msg2, priv2) = PartyTwoKeySetup::gen_local_keys_with_modulus_size::<ToyDlog>(
        &gr,
        PAILLIER_TEST_BITS,
    );
    let (_one, mut msg1) = party_one_key_message(&gr);
    let mut bytes = msg1.correct_key_proof.sigma_vec[0].to_bytes();
    let last = bytes.len() - 1;
    bytes[last] ^= 1;
    msg1.correct_key_proof.sigma_vec[0] = curv::BigInt::from_bytes(&bytes);
    let r = PartyTwoKeySetup::verify_party_one_first_message_and_output_party_two_keys(
        &gr, &msg1, &msg2, priv2,
    );
    assert!(matches!(r, Err(TwoPartyRSAError::InvalidPaillierKey)));
}

#[test]
fn malformed_key_message_is_invalid_paillier_key() {
    // a truncated proof vector and a zero modulus are never valid; the
    // round must answer with the typed error, not abort
    let gr = test_group();
    let (msg2, priv2) = PartyTwoKeySetup::gen_local_keys_with_modulus_size::<ToyDlog>(
        &gr,
        PAILLIER_TEST_BITS,
    );
    let (_one, mut msg1) = party_one_key_message(&gr);
    msg1.correct_key_proof.sigma_vec.truncate(3);
    msg1.ek = kzen_paillier::EncryptionKey {
        n: curv::BigInt::from(0),
        nn: curv::BigInt::from(0),
    };
    let r = PartyTwoKeySetup::verify_party_one_first_message_and_output_party_two_keys(
        &gr, &msg1, &msg2, priv2,
    );
    assert!(matches!(r, Err(TwoPartyRSAError::InvalidPaillierKey)));
}

#[test]
fn tampered_share_ciphertext_is_enc_error() {
    let (keys, mut one) = run_key_setup();
    let (_w2, msg2) =
        PartyTwoCandidateGeneration::first_message_from_share::<ToyHomoEnc, ToyRange>(
            &keys,
            &bn(7),
            &bn(5),
        );
    let mut msg1 = party_one_first_message(&keys, &mut one, 5, 11);
    msg1.c_i = Ciphertext { c1: flip_bit(&msg1.c_i.c1), c2: msg1.c_i.c2.clone() };
    let r = PartyTwoCandidateGeneration::verify_party_one_first_message_and_normalize_ciphertexts(
        &keys, &msg1, &msg2,
    );
    assert!(matches!(r, Err(TwoPartyRSAError::CandidateGenerationEncError)));
}

#[test]
fn tampered_range_proof_is_enc_error() {
    let (keys, mut one) = run_key_setup();
    let (_w2, msg2) =
        PartyTwoCandidateGeneration::first_message_from_share::<ToyHomoEnc, ToyRange>(
            &keys,
            &bn(7),
            &bn(5),
        );
    let mut msg1 = party_one_first_message(&keys, &mut one, 5, 11);
    msg1.pi_bound = ToyRange { x: flip_bit(&msg1.pi_bound.x), r: msg1.pi_bound.r.clone() };
    let r = PartyTwoCandidateGeneration::verify_party_one_first_message_and_normalize_ciphertexts(
        &keys, &msg1, &msg2,
    );
    assert!(matches!(r, Err(TwoPartyRSAError::CandidateGenerationEncError)));
}

#[test]
fn tampered_reduction_ciphertext_is_invalid_mod_proof() {
    let (keys, mut one) = run_key_setup();
    let (w2, msg2) = PartyTwoCandidateGeneration::first_message_from_share::<ToyHomoEnc, ToyRange>(
        &keys,
        &bn(7),
        &bn(5),
    );
    let msg1 = party_one_first_message(&keys, &mut one, 5, 11);
    let pair = PartyTwoCandidateGeneration::verify_party_one_first_message_and_normalize_ciphertexts(
        &keys, &msg1, &msg2,
    )
    .expect("honest share proofs verify");
    let second2 = PartyTwoCandidateGeneration::trial_division_prepare_c_alpha::<ToyMod>(
        &bn(5),
        &keys,
        &pair,
        &w2,
    )
    .expect("honest reduction proof");
    let mut second1 = party_one_second_message(&keys, &one, 5, 9);
    second1.c_0_alpha =
        Ciphertext { c1: second1.c_0_alpha.c1.clone(), c2: flip_bit(&second1.c_0_alpha.c2) };
    let r = PartyTwoCandidateGeneration::verify_party_one_second_message_and_partial_decrypt::<
        ToyMod,
        ToyDdh,
    >(&second1, &second2, &bn(5), &keys, &pair);
    assert!(matches!(r, Err(TwoPartyRSAError::InvalidModProof)));
}

#[test]
fn tampered_rerandomization_is_dec_error() {
    let (keys, mut one) = run_key_setup();
    let (w2, msg2) = PartyTwoCandidateGeneration::first_message_from_share::<ToyHomoEnc, ToyRange>(
        &keys,
        &bn(7),
        &bn(5),
    );
    let msg1 = party_one_first_message(&keys, &mut one, 5, 11);
    let pair = PartyTwoCandidateGeneration::verify_party_one_first_message_and_normalize_ciphertexts(
        &keys, &msg1, &msg2,
    )
    .expect("honest share proofs verify");
    let second2 = PartyTwoCandidateGeneration::trial_division_prepare_c_alpha::<ToyMod>(
        &bn(5),
        &keys,
        &pair,
        &w2,
    )
    .expect("honest reduction proof");
    let second1 = party_one_second_message(&keys, &one, 5, 9);
    let (_, c_alpha, c_alpha_tilde) =
        PartyTwoCandidateGeneration::verify_party_one_second_message_and_partial_decrypt::<
            ToyMod,
            ToyDdh,
        >(&second1, &second2, &bn(5), &keys, &pair)
        .expect("honest mod proof");
    let mut third1 = party_one_third_message(&keys, &one, &c_alpha, &c_alpha_tilde, 13, 17);
    third1.c_alpha_random = Ciphertext {
        c1: flip_bit(&third1.c_alpha_random.c1),
        c2: third1.c_alpha_random.c2.clone(),
    };
    let r =
        PartyTwoCandidateGeneration::verify_party_one_third_message_full_decrypt_and_conclude_division(
            &c_alpha,
            &c_alpha_tilde,
            &third1,
            &keys,
        );
    assert!(matches!(r, Err(TwoPartyRSAError::CandidateGenerationDecError)));

    // a tampered partial decryption fails the same gate
    let mut third2 = party_one_third_message(&keys, &one, &c_alpha, &c_alpha_tilde, 13, 17);
    third2.partial_dec_c_alpha_tilde = flip_bit(&third2.partial_dec_c_alpha_tilde);
    let r2 =
        PartyTwoCandidateGeneration::verify_party_one_third_message_full_decrypt_and_conclude_division(
            &c_alpha,
            &c_alpha_tilde,
            &third2,
            &keys,
        );
    assert!(matches!(r2, Err(TwoPartyRSAError::CandidateGenerationDecError)));
}

/// A reduction proof system that rejects every witness.
struct NoMod;

impl ModReduceCap for NoMod {
    fn prove(_witness: &ModWitness, _statement: &ModStatement) -> Option<Self> {
        None
    }

    fn verify(&self, _statement: &ModStatement) -> bool {
        true
    }
}

#[test]
fn failing_reduction_prover_is_invalid_mod_proof() {
    // a proof system that rejects the witness surfaces the typed error
    let (keys, mut one) = run_key_setup();
    let (w2, msg2) = PartyTwoCandidateGeneration::first_message_from_share::<ToyHomoEnc, ToyRange>(
        &keys,
        &bn(7),
        &bn(5),
    );
    let msg1 = party_one_first_message(&keys, &mut one, 5, 11);
    let pair = PartyTwoCandidateGeneration::verify_party_one_first_message_and_normalize_ciphertexts(
        &keys, &msg1, &msg2,
    )
    .expect("honest share proofs verify");
    let r = PartyTwoCandidateGeneration::trial_division_prepare_c_alpha::<NoMod>(
        &bn(5),
        &keys,
        &pair,
        &w2,
    );
    assert!(matches!(r, Err(TwoPartyRSAError::InvalidModProof)));
}

// ---- idempotent restart ----

#[test]
fn fresh_attempt_succeeds_after_abort() {
    let (keys, mut one) = run_key_setup();
    // first attempt: tampered share message aborts candidate generation
    let (_w2, msg2) =
        PartyTwoCandidateGeneration::first_message_from_share::<ToyHomoEnc, ToyRange>(
            &keys,
            &bn(7),
            &bn(5),
        );
    let mut bad_msg1 = party_one_first_message(&keys, &mut one, 5, 11);
    bad_msg1.c_i = Ciphertext { c1: flip_bit(&bad_msg1.c_i.c1), c2: bad_msg1.c_i.c2.clone() };
    let aborted =
        PartyTwoCandidateGeneration::verify_party_one_first_message_and_normalize_ciphertexts(
            &keys, &bad_msg1, &msg2,
        );
    assert!(aborted.is_err());
    // a fresh attempt with fresh witnesses is unaffected by the abort:
    // N = 4*(6+9)+3 = 63 survives 11 and is divisible by 7
    assert_eq!(run_trial_division(6, 9, 11), Ok(true));
    assert_eq!(run_trial_division(6, 9, 7), Ok(false));
}

// ---- witness sanity for the library's own sampling entry point ----

#[test]
fn generated_share_message_matches_witness() {
    let (keys, _one) = run_key_setup();
    let (w, msg) =
        PartyTwoCandidateGeneration::generate_shares_of_candidate::<ToyHomoEnc, ToyRange>(&keys);
    assert!(val(&w.r_1) < Q);
    // the emitted ciphertext is exactly the encryption of the witness;
    // the generator has order Q, so its huge exponent reduces modulo Q
    let p1_mod_q = w.p_1.bytes.iter().fold(0u64, |a, &x| (a * 256 + x as u64) % Q);
    let h = val(&keys.joint_elgamal_pubkey);
    assert_eq!(val(&msg.c_i.c1), pow_mod(G, val(&w.r_1), P));
    assert_eq!(
        val(&msg.c_i.c2),
        mul_mod(pow_mod(G, p1_mod_q, P), pow_mod(h, val(&w.r_1), P), P)
    );
}

// ---- the fixed, publicly agreed group ----

#[test]
fn rfc7919_group_is_valid() {
    let gr = two_party_rsa::group::rfc7919_ffdhe2048_group()
        .expect("the ffdhe2048 constants satisfy every checked relation");
    assert_eq!(gr.p.bytes.len(), 256);
    assert_eq!(gr.p.bytes[0], 0xFF);
    assert_eq!(gr.p.bytes[255], 0xFF);
    assert_eq!(gr.q.bytes[0], 0x7F);
    assert_eq!(gr.g, bn(2));
}

#[test]
fn key_setup_over_fixed_group_and_modulus_succeeds() {
    // the entry point with no parameters beyond the group: Paillier keys
    // at the fixed PAILLIER_MODULUS length, over the RFC 7919 group
    let gr = two_party_rsa::group::rfc7919_ffdhe2048_group().expect("valid fixed group");
    let (msg2, priv2) =
        PartyTwoKeySetup::gen_local_keys_and_first_message_to_party_one::<ToyDlog>(&gr);
    let kp1 = ElGamalKeyPair::generate(&gr);
    let (ek1, dk1) = Paillier::keypair_with_modulus_size(PAILLIER_TEST_BITS).keys();
    let msg1 = PartyOneKeySetupFirstMsg {
        ek: ek1,
        pk: kp1.h.clone(),
        correct_key_proof: NiCorrectKeyProof::proof(&dk1, None),
        dlog_proof: ToyDlog { x: kp1.x },
    };
    let keys = PartyTwoKeySetup::verify_party_one_first_message_and_output_party_two_keys(
        &gr, &msg1, &msg2, priv2,
    )
    .expect("honest key setup over the fixed group succeeds");
    let expected_joint =
        curv::BigInt::mod_mul(&big(&msg2.pk), &big(&kp1.h), &big(&gr.p));
    assert_eq!(big(&keys.joint_elgamal_pubkey), expected_joint);
}
