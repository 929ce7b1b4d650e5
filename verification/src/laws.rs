//! The protocol laws: joint-key commutativity, the Blum-form scaling
//! invariant of the normalized candidate pair, the decryption semantics
//! of a rerandomized channel, the degenerate divisor-equals-candidate
//! case, and that an honest run passes every verification gate.

use vstd::prelude::*;
use vstd::arithmetic::power::{pow, lemma_pow0, lemma_pow_adds, lemma_pow_multiplies};
use vstd::arithmetic::div_mod::{
    lemma_mod_bound, lemma_small_mod, lemma_mul_mod_noop_general, lemma_mod_multiples_vanish,
};
use vstd::arithmetic::mul::{lemma_mul_is_associative, lemma_mul_is_commutative};
use crate::arith::{lemma_pow_mod_compose, lemma_pow_mod_order, lemma_pow_of_mul_mod};
use crate::cipher::{Ciphertext, ct_val, enc_val, is_encryption, scaled, summed};
use crate::group::{ElGamalGroup, joint_key_of};
use crate::candidate::{channel_is_identity, conclude_gate, mod_verification_gate,
    share_verification_gate, tilde_offset_m};
use crate::keysetup::key_setup_gate;

verus! {

/// Joint-key commutativity: the joint ElGamal key the two roles derive
/// is the same whichever order the two local public keys are combined
/// in.
pub proof fn lemma_joint_key_commutative(gr: ElGamalGroup, h_a: nat, h_b: nat)
    ensures
        joint_key_of(gr, h_a, h_b) == joint_key_of(gr, h_b, h_a),
{
    lemma_mul_is_commutative(h_a as int, h_b as int);
}

/// Completeness of the verification gates: when every proof of an
/// honest counterparty verifies, no round gate reports an error.
pub proof fn lemma_honest_run_passes_gates()
    ensures
        key_setup_gate(true, true) is None,
        share_verification_gate(true, true) is None,
        mod_verification_gate(true) is None,
        conclude_gate(true, true, true, true) is None,
{
}

/// The scaling invariant of the normalized candidate pair.  When the two
/// first-round ciphertexts honestly encrypt the shares `m0` and `m1`,
/// the pair built by the normalization step encrypts `4*m0 + 3` and
/// `4*m1`: the candidate plaintext is `4*(m0+m1) + 3`, which is always
/// congruent to `3 modulo 4` (Blum form).
pub proof fn lemma_scaling_invariant(
    gr: ElGamalGroup,
    jh: nat,
    c_a: Ciphertext,
    c_b: Ciphertext,
    pair0: Ciphertext,
    pair1: Ciphertext,
    m0: nat,
    r0: nat,
    m1: nat,
    r1: nat,
)
    requires
        gr.valid(),
        is_encryption(gr, jh, c_a, m0, r0),
        is_encryption(gr, jh, c_b, m1, r1),
        ct_val(pair0) == summed(
            scaled(ct_val(c_a), 4, gr.p@ as int),
            enc_val(gr, jh, 3, 0),
            gr.p@ as int,
        ),
        ct_val(pair1) == scaled(ct_val(c_b), 4, gr.p@ as int),
    ensures
        is_encryption(gr, jh, pair0, 4 * m0 + 3, 4 * r0),
        is_encryption(gr, jh, pair1, 4 * m1, 4 * r1),
        (4 * (m0 + m1) + 3) % 4 == 3,
{
    let p = gr.p@ as int;
    let g = gr.g@ as int;
    let h = jh as int;
    lemma_scaled_encryption(gr, jh, c_b, pair1, m1, r1);
    // the scaled first component of c_a
    let s1 = pow(pow(g, r0) % p, 4) % p;
    let s2 = pow((pow(g, m0) * pow(h, r0)) % p, 4) % p;
    lemma_pow_mod_compose(g, r0, 4, p);
    assert(s1 == pow(g, r0 * 4) % p);
    lemma_pow_of_mul_mod(pow(g, m0), pow(h, r0), 4, p);
    lemma_pow_multiplies(g, m0, 4);
    lemma_pow_multiplies(h, r0, 4);
    lemma_mul_mod_noop_general(pow(g, m0 * 4), pow(h, r0 * 4), p);
    assert(s2 == (pow(g, m0 * 4) * pow(h, r0 * 4)) % p);
    // the constant encryption of 3 with zero randomness
    lemma_pow0(g);
    lemma_pow0(h);
    lemma_small_mod(1, gr.p@);
    assert(enc_val(gr, jh, 3, 0).0 == 1);
    assert(enc_val(gr, jh, 3, 0).1 == pow(g, 3) % p);
    // first component of pair0: (s1 * 1) % p == pow(g, 4*r0) % p
    lemma_mod_bound(pow(g, r0 * 4), p);
    lemma_small_mod((pow(g, r0 * 4) % p) as nat, gr.p@);
    assert(pair0.c1@ == (s1 * 1) % p);
    assert(pair0.c1@ == pow(g, (4 * r0) as nat) % p) by {
        assert(r0 * 4 == 4 * r0);
    }
    // second component: ((g^(4 m0) h^(4 r0)) % p * (g^3 % p)) % p
    assert(pair0.c2@ == (s2 * (pow(g, 3) % p)) % p);
    lemma_mul_mod_noop_general(pow(g, m0 * 4) * pow(h, r0 * 4), pow(g, 3), p);
    assert(pair0.c2@ == ((pow(g, m0 * 4) * pow(h, r0 * 4)) * pow(g, 3)) % p);
    lemma_pow_adds(g, m0 * 4, 3);
    assert(pow(g, m0 * 4 + 3) == pow(g, m0 * 4) * pow(g, 3));
    lemma_mul_is_associative(pow(g, m0 * 4), pow(h, r0 * 4), pow(g, 3));
    lemma_mul_is_commutative(pow(h, r0 * 4), pow(g, 3));
    lemma_mul_is_associative(pow(g, m0 * 4), pow(g, 3), pow(h, r0 * 4));
    assert((pow(g, m0 * 4) * pow(h, r0 * 4)) * pow(g, 3) == pow(g, m0 * 4 + 3) * pow(h, r0 * 4));
    assert(pair0.c2@ == (pow(g, (4 * m0 + 3) as nat) * pow(h, (4 * r0) as nat)) % p) by {
        assert(m0 * 4 + 3 == 4 * m0 + 3);
        assert(r0 * 4 == 4 * r0);
    }
    // Blum form
    lemma_mod_multiples_vanish((m0 + m1) as int, 3, 4);
    lemma_small_mod(3, 4);
}

/// A ciphertext scaled by `4` encrypts four times its plaintext under
/// four times its randomness.
pub proof fn lemma_scaled_encryption(
    gr: ElGamalGroup,
    jh: nat,
    c: Ciphertext,
    c4: Ciphertext,
    m: nat,
    r: nat,
)
    requires
        gr.valid(),
        is_encryption(gr, jh, c, m, r),
        ct_val(c4) == scaled(ct_val(c), 4, gr.p@ as int),
    ensures
        is_encryption(gr, jh, c4, 4 * m, 4 * r),
{
    let p = gr.p@ as int;
    let g = gr.g@ as int;
    let h = jh as int;
    lemma_pow_mod_compose(g, r, 4, p);
    assert(c4.c1@ == pow(g, r * 4) % p);
    assert(c4.c1@ == pow(g, (4 * r) as nat) % p) by {
        assert(r * 4 == 4 * r);
    }
    lemma_pow_of_mul_mod(pow(g, m), pow(h, r), 4, p);
    lemma_pow_multiplies(g, m, 4);
    lemma_pow_multiplies(h, r, 4);
    lemma_mul_mod_noop_general(pow(g, m * 4), pow(h, r * 4), p);
    assert(c4.c2@ == (pow(g, m * 4) * pow(h, r * 4)) % p);
    assert(c4.c2@ == (pow(g, (4 * m) as nat) * pow(h, (4 * r) as nat)) % p) by {
        assert(m * 4 == 4 * m);
        assert(r * 4 == 4 * r);
    }
}

/// The homomorphic sum of two encryptions encrypts the sum of the
/// plaintexts under the sum of the randomnesses.
pub proof fn lemma_summed_encryption(
    gr: ElGamalGroup,
    jh: nat,
    a: Ciphertext,
    b: Ciphertext,
    s: Ciphertext,
    m_a: nat,
    r_a: nat,
    m_b: nat,
    r_b: nat,
)
    requires
        gr.valid(),
        is_encryption(gr, jh, a, m_a, r_a),
        is_encryption(gr, jh, b, m_b, r_b),
        ct_val(s) == summed(ct_val(a), ct_val(b), gr.p@ as int),
    ensures
        is_encryption(gr, jh, s, m_a + m_b, r_a + r_b),
{
    let p = gr.p@ as int;
    let g = gr.g@ as int;
    let h = jh as int;
    lemma_mul_mod_noop_general(pow(g, r_a), pow(g, r_b), p);
    lemma_pow_adds(g, r_a, r_b);
    assert(s.c1@ == pow(g, r_a + r_b) % p);
    lemma_mul_mod_noop_general(pow(g, m_a) * pow(h, r_a), pow(g, m_b) * pow(h, r_b), p);
    assert(s.c2@ == ((pow(g, m_a) * pow(h, r_a)) * (pow(g, m_b) * pow(h, r_b))) % p);
    lemma_pow_adds(g, m_a, m_b);
    lemma_pow_adds(h, r_a, r_b);
    assert((pow(g, m_a) * pow(h, r_a)) * (pow(g, m_b) * pow(h, r_b)) == (pow(g, m_a) * pow(
        g,
        m_b,
    )) * (pow(h, r_a) * pow(h, r_b))) by (nonlinear_arith);
    assert(s.c2@ == (pow(g, m_a + m_b) * pow(h, r_a + r_b)) % p);
}

/// Decryption semantics of one rerandomized channel.  For an honest
/// channel — the combined ciphertext `c` encrypts `m` under the joint
/// key `jh` of the two local keys, `cr` is its rerandomization by `rr`,
/// and the counterparty disclosed the true partial decryption of `cr` —
/// the identity test of the conclusion round succeeds exactly when the
/// generator raised to `m * rr` is the identity.  The combined
/// decryption key of such a channel always has an inverse modulo `p`,
/// so the conclusion round\'s defensive rejection of a non-invertible
/// key can never fire on honest messages.
#[verifier::rlimit(100)]
pub proof fn lemma_trial_decrypt_channel(
    gr: ElGamalGroup,
    h0: nat,
    x0: nat,
    h1: nat,
    x1: nat,
    jh: nat,
    c: Ciphertext,
    m: nat,
    re: nat,
    cr: Ciphertext,
    rr: nat,
    k_remote: nat,
)
    requires
        gr.valid(),
        gr.order_divides_q(),
        h0 == pow(gr.g@ as int, x0) % (gr.p@ as int),
        h1 == pow(gr.g@ as int, x1) % (gr.p@ as int),
        jh == joint_key_of(gr, h0, h1),
        is_encryption(gr, jh, c, m, re),
        ct_val(cr) == scaled(ct_val(c), rr, gr.p@ as int),
        k_remote == pow(cr.c1@ as int, x0) % (gr.p@ as int),
    ensures
        channel_is_identity(cr, k_remote, x1, gr.p@ as int) <==> pow(
            gr.g@ as int,
            (m * rr) as nat,
        ) % (gr.p@ as int) == 1,
        exists|iv: int|
            #[trigger] ((((pow(cr.c1@ as int, x1) % (gr.p@ as int)) * (k_remote as int)) % (
            gr.p@ as int) * iv) % (gr.p@ as int)) == 1,
{
    let p = gr.p@ as int;
    let q = gr.q@;
    let g = gr.g@ as int;
    let bigx = (x0 + x1) as nat;
    // the joint key is a power of the generator
    lemma_mul_mod_noop_general(pow(g, x0), pow(g, x1), p);
    lemma_pow_adds(g, x0, x1);
    assert(jh == pow(g, bigx) % p);
    // first components
    assert(c.c1@ == pow(g, re) % p);
    lemma_pow_mod_compose(g, re, rr, p);
    assert(cr.c1@ == pow(g, re * rr) % p);
    // second component of c collapses to one power of g
    lemma_pow_mod_compose(g, bigx, re, p);
    assert(pow(jh as int, re) % p == pow(g, bigx * re) % p);
    lemma_mul_mod_noop_general(pow(g, m), pow(jh as int, re), p);
    lemma_mul_mod_noop_general(pow(g, m), pow(g, bigx * re), p);
    lemma_pow_adds(g, m, bigx * re);
    assert(c.c2@ == pow(g, m + bigx * re) % p);
    // rerandomized second component
    lemma_pow_mod_compose(g, (m + bigx * re) as nat, rr, p);
    assert(cr.c2@ == pow(g, (m + bigx * re) * rr) % p);
    assert((m + bigx * re) * rr == m * rr + re * rr * bigx) by (nonlinear_arith);
    let e = (re * rr * bigx) as nat;
    assert(cr.c2@ == pow(g, (m * rr + e) as nat) % p);
    // the combined decryption key is the same power of g
    lemma_pow_mod_compose(g, (re * rr) as nat, x1, p);
    lemma_pow_mod_compose(g, (re * rr) as nat, x0, p);
    assert(pow(cr.c1@ as int, x1) % p == pow(g, (re * rr * x1) as nat) % p);
    assert(k_remote == pow(g, (re * rr * x0) as nat) % p);
    let k = ((pow(cr.c1@ as int, x1) % p) * (k_remote as int)) % p;
    lemma_mul_mod_noop_general(pow(g, (re * rr * x1) as nat), pow(g, (re * rr * x0) as nat), p);
    lemma_pow_adds(g, (re * rr * x1) as nat, (re * rr * x0) as nat);
    assert(re * rr * x1 + re * rr * x0 == re * rr * bigx) by (nonlinear_arith)
        requires bigx == x0 + x1,
    ;
    assert(k == pow(g, e) % p);
    // split the rerandomized second component into plaintext and key parts
    let a = pow(g, (m * rr) as nat) % p;
    lemma_pow_adds(g, (m * rr) as nat, e);
    lemma_mul_mod_noop_general(pow(g, (m * rr) as nat), pow(g, e), p);
    assert(cr.c2@ == (pow(g, (m * rr) as nat) * pow(g, e)) % p);
    lemma_mul_mod_noop_general(pow(g, (m * rr) as nat) % p, pow(g, e), p);
    assert(cr.c2@ == (a * (pow(g, e) % p)) % p) by {
        lemma_mul_mod_noop_general(pow(g, (m * rr) as nat), pow(g, e) % p, p);
        lemma_mul_mod_noop_general(a, pow(g, e) % p, p);
    }
    assert(cr.c2@ == (a * k) % p);
    lemma_mod_bound(pow(g, (m * rr) as nat), p);
    lemma_mod_bound(pow(g, e), p);
    lemma_small_mod(cr.c2@, gr.p@);
    // the identity test compares (a * k) % p with k
    assert(channel_is_identity(cr, k_remote, x1, p) <==> (a * k) % p == k);
    // reduce the key exponent by the group order and build its inverse
    lemma_pow_mod_order(g, q, e, p);
    let e1 = (e % q) as nat;
    assert(k == pow(g, e1) % p);
    let i = if e1 == 0 { 1int } else { pow(g, (q - e1) as nat) % p };
    assert((k * i) % p == 1) by {
        if e1 == 0 {
            lemma_pow0(g);
            lemma_small_mod(1, gr.p@);
            assert(k == 1int % p);
        } else {
            lemma_mul_mod_noop_general(pow(g, e1), pow(g, (q - e1) as nat), p);
            lemma_pow_adds(g, e1, (q - e1) as nat);
            assert(e1 + (q - e1) == q);
        }
    }
    if a == 1 {
        lemma_small_mod((k as int) as nat, gr.p@);
        assert((a * k) % p == k);
    }
    if (a * k) % p == k {
        lemma_mul_mod_noop_general((a * k) % p, i, p);
        lemma_mul_mod_noop_general(a * k, i, p);
        assert(((a * k) * i) % p == (k * i) % p);
        assert((a * k) * i == a * (k * i)) by (nonlinear_arith);
        lemma_mul_mod_noop_general(a, k * i, p);
        assert((a * (k * i)) % p == ((a % p) * ((k * i) % p)) % p);
        lemma_small_mod(a as nat, gr.p@);
        assert(a % p == a);
        assert(((a % p) * 1) % p == a % p);
        assert(a == 1);
    }
}

/// With a generator of order exactly `q`, the identity test of a channel
/// holds exactly when the rerandomized plaintext vanishes modulo `q`.
pub proof fn lemma_channel_identity_iff_zero(gr: ElGamalGroup, m: nat, rr: nat)
    requires
        gr.valid(),
        gr.order_exactly_q(),
    ensures
        (pow(gr.g@ as int, (m * rr) as nat) % (gr.p@ as int) == 1) <==> ((m * rr) % gr.q@ == 0),
{
    let p = gr.p@ as int;
    let q = gr.q@;
    let g = gr.g@ as int;
    lemma_pow_mod_order(g, q, (m * rr) as nat, p);
    let e1 = ((m * rr) % q) as nat;
    if e1 == 0 {
        lemma_pow0(g);
        lemma_small_mod(1, gr.p@);
    } else {
        assert(0 < e1 < q);
        assert(pow(g, e1) % p != 1);
    }
}

/// The degenerate-equal case: when the combined reduced plaintext `s`
/// equals the trial divisor `alpha` itself, the plaintext of the
/// `alpha_tilde` channel vanishes modulo the group order, so by
/// [`lemma_trial_decrypt_channel`] that channel decrypts to the identity
/// and the conclusion round reports the candidate not coprime.
pub proof fn lemma_degenerate_equal_divisor(gr: ElGamalGroup, alpha: nat, s: nat, rr: nat)
    requires
        gr.valid(),
        gr.order_divides_q(),
        alpha >= 1,
        s == alpha,
    ensures
        pow(gr.g@ as int, (((s + tilde_offset_m(gr.q@, alpha)) * rr)) as nat) % (gr.p@ as int)
            == 1,
{
    let p = gr.p@ as int;
    let q = gr.q@;
    let g = gr.g@ as int;
    let t = alpha % q;
    let tm = tilde_offset_m(q, alpha);
    vstd::arithmetic::div_mod::lemma_fundamental_div_mod(alpha as int, q as int);
    if t == 0 {
        lemma_small_mod(0, q);
        assert((q as int) % (q as int) == 0) by {
            lemma_mod_multiples_vanish(1, 0, q as int);
        }
        assert(tm == 0);
        assert((s + tm) == alpha);
        assert((alpha as int) % (q as int) == 0) by {
            lemma_mod_multiples_vanish(alpha as int / q as int, 0, q as int);
        }
    } else {
        lemma_small_mod((q - t) as nat, q);
        assert(tm == q - t);
        assert((s + tm) == alpha + q - t);
        vstd::arithmetic::mul::lemma_mul_is_distributive_add(
            q as int,
            alpha as int / q as int,
            1,
        );
        assert((s + tm) as int == (q as int) * (alpha as int / q as int + 1));
        lemma_mod_multiples_vanish(alpha as int / q as int + 1, 0, q as int);
        assert((s + tm) % q == 0);
    }
    assert((s + tm) % q == 0);
    let d = (s + tm) as int / q as int;
    vstd::arithmetic::div_mod::lemma_fundamental_div_mod((s + tm) as int, q as int);
    assert((s + tm) as int == q * d);
    assert(((s + tm) * rr) as int == q * (d * rr)) by (nonlinear_arith)
        requires (s + tm) as int == q * d,
    ;
    lemma_mod_multiples_vanish(d * rr, 0, q as int);
    lemma_small_mod(0, q);
    assert(((s + tm) * rr) % q == 0);
    let e = ((s + tm) * rr) as nat;
    lemma_pow_mod_order(g, q, e, p);
    assert(pow(g, e) % p == pow(g, (e % q) as nat) % p);
    lemma_pow0(g);
    lemma_small_mod(1, gr.p@);
}

/// The degenerate-equal case, end to end: in an honest tilde channel
/// whose combined reduced plaintext `s` equals the trial divisor
/// `alpha`, the identity test succeeds, so the conclusion round (whose
/// result is the negation of the two identity tests) reports the
/// candidate not coprime.
pub proof fn lemma_degenerate_equal_case(
    gr: ElGamalGroup,
    h0: nat,
    x0: nat,
    h1: nat,
    x1: nat,
    jh: nat,
    alpha: nat,
    s: nat,
    c: Ciphertext,
    re: nat,
    cr: Ciphertext,
    rr: nat,
    k_remote: nat,
)
    requires
        gr.valid(),
        gr.order_divides_q(),
        alpha >= 1,
        s == alpha,
        h0 == pow(gr.g@ as int, x0) % (gr.p@ as int),
        h1 == pow(gr.g@ as int, x1) % (gr.p@ as int),
        jh == joint_key_of(gr, h0, h1),
        is_encryption(gr, jh, c, s + tilde_offset_m(gr.q@, alpha), re),
        ct_val(cr) == scaled(ct_val(c), rr, gr.p@ as int),
        k_remote == pow(cr.c1@ as int, x0) % (gr.p@ as int),
    ensures
        channel_is_identity(cr, k_remote, x1, gr.p@ as int),
{
    lemma_degenerate_equal_divisor(gr, alpha, s, rr);
    lemma_trial_decrypt_channel(
        gr,
        h0,
        x0,
        h1,
        x1,
        jh,
        c,
        s + tilde_offset_m(gr.q@, alpha),
        re,
        cr,
        rr,
        k_remote,
    );
}

/// Completeness of a surviving channel: in an honest channel over a
/// generator of order exactly `q`, when the rerandomized plaintext does
/// not vanish modulo `q`, the identity test fails — the channel reports
/// the candidate coprime to the divisor.
pub proof fn lemma_honest_channel_not_identity(
    gr: ElGamalGroup,
    h0: nat,
    x0: nat,
    h1: nat,
    x1: nat,
    jh: nat,
    c: Ciphertext,
    m: nat,
    re: nat,
    cr: Ciphertext,
    rr: nat,
    k_remote: nat,
)
    requires
        gr.valid(),
        gr.order_exactly_q(),
        h0 == pow(gr.g@ as int, x0) % (gr.p@ as int),
        h1 == pow(gr.g@ as int, x1) % (gr.p@ as int),
        jh == joint_key_of(gr, h0, h1),
        is_encryption(gr, jh, c, m, re),
        ct_val(cr) == scaled(ct_val(c), rr, gr.p@ as int),
        k_remote == pow(cr.c1@ as int, x0) % (gr.p@ as int),
        (m * rr) % gr.q@ != 0,
    ensures
        !channel_is_identity(cr, k_remote, x1, gr.p@ as int),
{
    lemma_trial_decrypt_channel(gr, h0, x0, h1, x1, jh, c, m, re, cr, rr, k_remote);
    lemma_channel_identity_iff_zero(gr, m, rr);
}

/// The sum of the two parties\' reduced plaintexts is the residue of the
/// candidate, up to one extra copy of the divisor: when `alpha` divides
/// `a + b`, the sum of the residues is either `0` (caught by the `alpha`
/// channel) or exactly `alpha` (caught by the `alpha_tilde` channel).
pub proof fn lemma_reduced_share_sum(a: nat, b: nat, alpha: nat)
    requires
        alpha >= 1,
        (a + b) % alpha == 0,
    ensures
        a % alpha + b % alpha == 0 || a % alpha + b % alpha == alpha,
{
    let s = (a % alpha + b % alpha) as int;
    vstd::arithmetic::div_mod::lemma_add_mod_noop(a as int, b as int, alpha as int);
    assert(s % (alpha as int) == 0);
    lemma_mod_bound(a as int, alpha as int);
    lemma_mod_bound(b as int, alpha as int);
    vstd::arithmetic::div_mod::lemma_fundamental_div_mod(s, alpha as int);
    let d = s / (alpha as int);
    assert(s == (alpha as int) * d);
    assert(0 <= d && d < 2) by (nonlinear_arith)
        requires
            alpha >= 1,
            s == (alpha as int) * d,
            0 <= s < 2 * alpha,
    ;
    if d == 0 {
        assert(s == 0) by (nonlinear_arith)
            requires
                s == (alpha as int) * d,
                d == 0,
        ;
    } else {
        assert(s == alpha) by (nonlinear_arith)
            requires
                s == (alpha as int) * d,
                d == 1,
        ;
    }
}

/// A channel whose plaintext is zero — `alpha` divides the candidate
/// with no carry into the residue sum — always decrypts to the
/// identity, whatever the rerandomization exponent.
pub proof fn lemma_zero_plaintext_channel_identity(
    gr: ElGamalGroup,
    h0: nat,
    x0: nat,
    h1: nat,
    x1: nat,
    jh: nat,
    c: Ciphertext,
    re: nat,
    cr: Ciphertext,
    rr: nat,
    k_remote: nat,
)
    requires
        gr.valid(),
        gr.order_divides_q(),
        h0 == pow(gr.g@ as int, x0) % (gr.p@ as int),
        h1 == pow(gr.g@ as int, x1) % (gr.p@ as int),
        jh == joint_key_of(gr, h0, h1),
        is_encryption(gr, jh, c, 0, re),
        ct_val(cr) == scaled(ct_val(c), rr, gr.p@ as int),
        k_remote == pow(cr.c1@ as int, x0) % (gr.p@ as int),
    ensures
        channel_is_identity(cr, k_remote, x1, gr.p@ as int),
{
    lemma_trial_decrypt_channel(gr, h0, x0, h1, x1, jh, c, 0, re, cr, rr, k_remote);
    assert((0 * rr) as nat == 0);
    lemma_pow0(gr.g@ as int);
    lemma_small_mod(1, gr.p@);
}

} // verus!
