//! Modular-arithmetic lemmas shared by the ciphertext algebra and the
//! protocol laws.

use vstd::prelude::*;
use vstd::arithmetic::power::{
    pow, lemma1_pow, lemma_pow_adds, lemma_pow_multiplies, lemma_pow_distributes,
    lemma_pow_mod_noop,
};
use vstd::arithmetic::div_mod::{
    lemma_mod_bound, lemma_small_mod, lemma_mul_mod_noop_general, lemma_fundamental_div_mod,
};
use vstd::arithmetic::mul::{lemma_mul_is_associative, lemma_mul_is_commutative};

verus! {

/// Raising a reduced power to a power composes in the exponent:
/// `(b^e1 mod p)^e2 mod p == b^(e1*e2) mod p`.
pub proof fn lemma_pow_mod_compose(b: int, e1: nat, e2: nat, p: int)
    requires
        p >= 1,
    ensures
        pow(pow(b, e1) % p, e2) % p == pow(b, e1 * e2) % p,
{
    lemma_pow_mod_noop(pow(b, e1), e2, p);
    lemma_pow_multiplies(b, e1, e2);
}

/// A reduced product raised to a power splits into the product of the
/// reduced powers of its factors.
pub proof fn lemma_pow_of_mul_mod(a: int, b: int, e: nat, p: int)
    requires
        p >= 1,
    ensures
        pow((a * b) % p, e) % p == ((pow(a, e) % p) * (pow(b, e) % p)) % p,
{
    lemma_pow_mod_noop(a * b, e, p);
    lemma_pow_distributes(a, b, e);
    lemma_mul_mod_noop_general(pow(a, e), pow(b, e), p);
}

/// When the generator's `q`-th power is the identity, exponents can be
/// reduced modulo `q`.
pub proof fn lemma_pow_mod_order(g: int, q: nat, e: nat, p: int)
    requires
        p >= 2,
        q >= 1,
        pow(g, q) % p == 1,
    ensures
        pow(g, e) % p == pow(g, (e % q) as nat) % p,
{
    let d = (e / q) as nat;
    let r = (e % q) as nat;
    lemma_fundamental_div_mod(e as int, q as int);
    assert(e == q * d + r);
    lemma_pow_adds(g, (q * d) as nat, r);
    lemma_pow_multiplies(g, q, d);
    lemma_mul_mod_noop_general(pow(pow(g, q), d), pow(g, r), p);
    lemma_pow_mod_noop(pow(g, q), d, p);
    lemma1_pow(d);
    lemma_small_mod(1, p as nat);
    lemma_mod_bound(pow(g, r), p);
    lemma_small_mod((pow(g, r) % p) as nat, p as nat);
}

/// Multiplying by a value with a modular inverse can be cancelled: with
/// `(k * i) % p == 1` and `k` reduced, `(a * i) % p == 1` holds exactly
/// when `a` is congruent to `k`.
pub proof fn lemma_mod_inv_cancel(a: int, i: int, k: int, p: int)
    requires
        p >= 2,
        0 <= a,
        0 <= k < p,
        (k * i) % p == 1,
    ensures
        ((a * i) % p == 1) <==> (a % p == k),
{
    if a % p == k {
        lemma_mul_mod_noop_general(a, i, p);
        assert((a * i) % p == ((a % p) * i) % p);
        assert((a * i) % p == 1);
    }
    if (a * i) % p == 1 {
        lemma_small_mod(k as nat, p as nat);
        lemma_mul_mod_noop_general(a * i, k, p);
        assert(((a * i) * k) % p == (1 * k) % p);
        lemma_mul_is_associative(a, i, k);
        lemma_mul_is_commutative(i, k);
        lemma_mul_mod_noop_general(a, i * k, p);
        assert((a * (i * k)) % p == ((a % p) * ((i * k) % p)) % p);
        assert((i * k) % p == 1);
        lemma_mod_bound(a, p);
        lemma_small_mod((a % p) as nat, p as nat);
        assert(a % p == k);
    }
}

} // verus!
