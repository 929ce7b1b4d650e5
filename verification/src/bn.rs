//! Non-negative big integers as big-endian byte strings, with their modular
//! arithmetic delegated to the `curv` crate through trusted wrappers.

use vstd::prelude::*;
use vstd::arithmetic::power::pow;
use vstd::arithmetic::power2::pow2;
use curv::arithmetic::{BigInt, Converter, Modulo, Samplable};

verus! {

/// The value of a big-endian byte string.
pub open spec fn int_of(s: Seq<u8>) -> nat
    decreases s.len(),
{
    if s.len() == 0 {
        0
    } else {
        int_of(s.drop_last()) * 256 + (s.last() as nat)
    }
}

/// An arbitrary-precision non-negative integer, held as big-endian bytes.
/// Its mathematical value is the view `@`.
#[derive(Clone, Debug, PartialEq, Eq, Hash)]
pub struct Bn {
    pub bytes: Vec<u8>,
}

impl View for Bn {
    type V = nat;

    open spec fn view(&self) -> nat {
        int_of(self.bytes@)
    }
}

impl Bn {
    /// Builds the integer with the given big-endian byte representation.
    pub fn from_bytes(bytes: Vec<u8>) -> (r: Bn)
        ensures
            r@ == int_of(bytes@),
    {
        Bn { bytes }
    }

    /// The big-endian bytes of this integer.
    pub fn to_bytes(&self) -> (r: Vec<u8>)
        ensures
            int_of(r@) == self@,
    {
        self.bytes.clone()
    }

    /// Builds a one-byte integer.
    pub fn from_u8(x: u8) -> (r: Bn)
        ensures
            r@ == x,
    {
        let mut v: Vec<u8> = Vec::new();
        v.push(x);
        proof {
            assert(v@.drop_last() =~= Seq::<u8>::empty());
            assert(int_of(v@.drop_last()) == 0);
            assert(int_of(v@) == int_of(v@.drop_last()) * 256 + (v@.last() as nat));
        }
        Bn { bytes: v }
    }

    /// A copy with the same value.
    pub fn dup(&self) -> (r: Bn)
        ensures
            r@ == self@,
            r.bytes@ == self.bytes@,
    {
        Bn { bytes: self.bytes.clone() }
    }
}

/// Relies on curv's `BigInt` equality: two numbers are equal exactly when
/// their values are.
#[verifier::external_body]
pub(crate) fn bn_eq(a: &Bn, b: &Bn) -> (r: bool)
    ensures
        r == (a@ == b@),
{
    BigInt::from_bytes(&a.bytes) == BigInt::from_bytes(&b.bytes)
}

/// Relies on curv's `BigInt` ordering.
#[verifier::external_body]
pub(crate) fn bn_lt(a: &Bn, b: &Bn) -> (r: bool)
    ensures
        r == (a@ < b@),
{
    BigInt::from_bytes(&a.bytes) < BigInt::from_bytes(&b.bytes)
}

/// Relies on curv's `Modulo::mod_mul`: the product reduced modulo `m`.
#[verifier::external_body]
pub(crate) fn bn_mod_mul(a: &Bn, b: &Bn, m: &Bn) -> (r: Bn)
    requires
        m@ >= 1,
    ensures
        r@ == (a@ * b@) % m@,
{
    let x = BigInt::from_bytes(&a.bytes);
    let y = BigInt::from_bytes(&b.bytes);
    let mm = BigInt::from_bytes(&m.bytes);
    Bn { bytes: BigInt::mod_mul(&x, &y, &mm).to_bytes() }
}

/// Relies on curv's `Modulo::mod_pow`: `a` raised to the (non-negative)
/// exponent `e`, reduced modulo `m`.
#[verifier::external_body]
pub(crate) fn bn_mod_pow(a: &Bn, e: &Bn, m: &Bn) -> (r: Bn)
    requires
        m@ >= 1,
    ensures
        r@ == pow(a@ as int, e@) % (m@ as int),
{
    let x = BigInt::from_bytes(&a.bytes);
    let y = BigInt::from_bytes(&e.bytes);
    let mm = BigInt::from_bytes(&m.bytes);
    Bn { bytes: BigInt::mod_pow(&x, &y, &mm).to_bytes() }
}

/// Relies on curv's `Modulo::mod_sub`: the difference reduced modulo `m`,
/// brought into `[0, m)`.
#[verifier::external_body]
pub(crate) fn bn_mod_sub(a: &Bn, b: &Bn, m: &Bn) -> (r: Bn)
    requires
        m@ >= 1,
    ensures
        r@ == (a@ as int - b@ as int) % (m@ as int),
{
    let x = BigInt::from_bytes(&a.bytes);
    let y = BigInt::from_bytes(&b.bytes);
    let mm = BigInt::from_bytes(&m.bytes);
    Bn { bytes: BigInt::mod_sub(&x, &y, &mm).to_bytes() }
}

/// Relies on curv's `Modulo::modulus`: the non-negative remainder.
#[verifier::external_body]
pub(crate) fn bn_mod(a: &Bn, m: &Bn) -> (r: Bn)
    requires
        m@ >= 1,
    ensures
        r@ == a@ % m@,
{
    let x = BigInt::from_bytes(&a.bytes);
    let mm = BigInt::from_bytes(&m.bytes);
    Bn { bytes: x.modulus(&mm).to_bytes() }
}

/// Relies on curv's `Modulo::mod_inv`: on success the result is a modular
/// inverse of `a`; `None` comes back exactly when `a` and `m` are not
/// coprime, in which case no inverse exists at all.
#[verifier::external_body]
pub(crate) fn bn_mod_inv(a: &Bn, m: &Bn) -> (r: Option<Bn>)
    requires
        m@ >= 2,
    ensures
        r matches Some(i) ==> (a@ * i@) % m@ == 1,
        r is None ==> forall|i: int| #[trigger] ((a@ as int * i) % (m@ as int)) != 1,
{
    let x = BigInt::from_bytes(&a.bytes);
    let mm = BigInt::from_bytes(&m.bytes);
    BigInt::mod_inv(&x, &mm).map(|i| Bn { bytes: i.to_bytes() })
}

/// Relies on curv's `Samplable::sample`: a uniform number of at most
/// `bit_size` bits.
#[verifier::external_body]
pub(crate) fn bn_sample(bit_size: usize) -> (r: Bn)
    ensures
        r@ < pow2(bit_size as nat),
{
    Bn { bytes: BigInt::sample(bit_size).to_bytes() }
}

/// Relies on curv's `Samplable::sample_below`: a uniform number in
/// `[0, upper)`; `upper` must be positive.
#[verifier::external_body]
pub(crate) fn bn_sample_below(upper: &Bn) -> (r: Bn)
    requires
        upper@ >= 1,
    ensures
        r@ < upper@,
{
    let u = BigInt::from_bytes(&upper.bytes);
    Bn { bytes: BigInt::sample_below(&u).to_bytes() }
}

} // verus!
