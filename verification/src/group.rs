//! Trusted interface to the ristretto255 group as implemented by
//! `fastcrypto`.
//!
//! Group elements and scalars are opaque to the verifier, so every contract
//! speaks of their canonical byte encodings. The results of the group
//! operations are uninterpreted functions over those encodings; the clauses
//! stated beside them are the algebraic identities of a commutative group of
//! prime order that the protocol proofs rest on.

use vstd::prelude::*;

use fastcrypto::groups::ristretto255::{RistrettoPoint, RistrettoScalar};
use fastcrypto::groups::{FiatShamirChallenge, GroupElement, Scalar};
use rand::rngs::ThreadRng;

verus! {

#[verifier::external_type_specification]
#[verifier::external_body]
pub struct ExRistrettoPoint(RistrettoPoint);

#[verifier::external_type_specification]
#[verifier::external_body]
pub struct ExRistrettoScalar(RistrettoScalar);

#[verifier::external_type_specification]
#[verifier::external_body]
pub struct ExThreadRng(ThreadRng);

#[verifier::external_type_specification]
#[verifier::external_body]
pub struct ExFastCryptoError(fastcrypto::error::FastCryptoError);

/// Canonical byte encoding of a group element. Two encodings are equal
/// exactly when the elements are equal in the group.
pub uninterp spec fn pt_bytes(p: RistrettoPoint) -> Seq<u8>;

/// Canonical byte encoding of a scalar.
pub uninterp spec fn sc_bytes(s: RistrettoScalar) -> Seq<u8>;

/// Encoding of the product of the fixed group generator with the scalar
/// encoded by `s`.
pub uninterp spec fn gmul_e(s: Seq<u8>) -> Seq<u8>;

/// Encoding of the product of the group element encoded by `p` with the
/// scalar encoded by `s`.
pub uninterp spec fn mul_e(p: Seq<u8>, s: Seq<u8>) -> Seq<u8>;

/// Encoding of the sum of the group elements encoded by `p` and `q`.
pub uninterp spec fn add_e(p: Seq<u8>, q: Seq<u8>) -> Seq<u8>;

/// Encoding of the sum of the scalars encoded by `a` and `b`.
pub uninterp spec fn sc_add_e(a: Seq<u8>, b: Seq<u8>) -> Seq<u8>;

/// Encoding of the product of the scalars encoded by `a` and `b`.
pub uninterp spec fn sc_mul_e(a: Seq<u8>, b: Seq<u8>) -> Seq<u8>;

/// Encoding of the scalar obtained by reducing a digest to a Fiat-Shamir
/// challenge.
pub uninterp spec fn fs_scalar_e(digest: Seq<u8>) -> Seq<u8>;

/// `pk_e` encodes the public element matching the secret scalar encoded by
/// `sk_e`, that is, generator times secret.
pub open spec fn is_public_of(pk_e: Seq<u8>, sk_e: Seq<u8>) -> bool {
    pk_e == gmul_e(sk_e)
}

/// `p_e` encodes the Diffie-Hellman share of the element encoded by `base_e`
/// under the secret scalar encoded by `sk_e`, that is, base times secret.
pub open spec fn is_dh_share(p_e: Seq<u8>, base_e: Seq<u8>, sk_e: Seq<u8>) -> bool {
    p_e == mul_e(base_e, sk_e)
}

/// Relies on the derived `Clone` of fastcrypto's `RistrettoPoint`, which
/// copies the value.
pub assume_specification[ <RistrettoPoint as Clone>::clone ](p: &RistrettoPoint) -> (r:
    RistrettoPoint)
    ensures
        r == *p,
;

/// Relies on the derived `Clone` of fastcrypto's `RistrettoScalar`, which
/// copies the value.
pub assume_specification[ <RistrettoScalar as Clone>::clone ](s: &RistrettoScalar) -> (r:
    RistrettoScalar)
    ensures
        r == *s,
;

/// Samples a uniformly random scalar. Relies on `Scalar::rand` of
/// fastcrypto's `RistrettoScalar`; nothing is promised of the outcome.
#[verifier::external_body]
pub(crate) fn scalar_rand(rng: &mut ThreadRng) -> RistrettoScalar {
    RistrettoScalar::rand(rng)
}

/// Adds two scalars. Relies on the `Add` impl of fastcrypto's
/// `RistrettoScalar` (addition modulo the prime group order). The further
/// clauses are the exponent laws of the group: the generator, and any
/// element, raised to a sum of scalars is the sum of the two powers.
#[verifier::external_body]
pub(crate) fn scalar_add(a: &RistrettoScalar, b: &RistrettoScalar) -> (z: RistrettoScalar)
    ensures
        sc_bytes(z) == sc_add_e(sc_bytes(*a), sc_bytes(*b)),
        gmul_e(sc_bytes(z)) == add_e(gmul_e(sc_bytes(*a)), gmul_e(sc_bytes(*b))),
        forall|p: Seq<u8>|
            #[trigger] mul_e(p, sc_bytes(z)) == add_e(mul_e(p, sc_bytes(*a)), mul_e(p, sc_bytes(*b))),
{
    *a + *b
}

/// Multiplies two scalars. Relies on the `Mul` impl of fastcrypto's
/// `RistrettoScalar` (multiplication modulo the prime group order). The
/// further clauses are the exponent laws: raising the generator, or any
/// element, to the product `a * b` equals raising it to `b` and then to `a`.
#[verifier::external_body]
pub(crate) fn scalar_mul(a: &RistrettoScalar, b: &RistrettoScalar) -> (w: RistrettoScalar)
    ensures
        sc_bytes(w) == sc_mul_e(sc_bytes(*a), sc_bytes(*b)),
        gmul_e(sc_bytes(w)) == mul_e(gmul_e(sc_bytes(*b)), sc_bytes(*a)),
        forall|p: Seq<u8>|
            #[trigger] mul_e(p, sc_bytes(w)) == mul_e(mul_e(p, sc_bytes(*b)), sc_bytes(*a)),
{
    *a * *b
}

/// Multiplies the fixed group generator by a scalar. Relies on
/// `GroupElement::generator` and the `Mul` impl of fastcrypto's
/// `RistrettoPoint`.
#[verifier::external_body]
pub(crate) fn generator_mul(s: &RistrettoScalar) -> (p: RistrettoPoint)
    ensures
        pt_bytes(p) == gmul_e(sc_bytes(*s)),
{
    RistrettoPoint::generator() * *s
}

/// Multiplies a group element by a scalar. Relies on the `Mul` impl of
/// fastcrypto's `RistrettoPoint`. The second clause is the Diffie-Hellman
/// exchange law of the commutative group: if the base is the generator
/// raised to `t`, the result is the generator raised to `s` and then to `t`.
#[verifier::external_body]
pub(crate) fn point_mul(p: &RistrettoPoint, s: &RistrettoScalar) -> (q: RistrettoPoint)
    ensures
        pt_bytes(q) == mul_e(pt_bytes(*p), sc_bytes(*s)),
        forall|t: Seq<u8>| pt_bytes(*p) == #[trigger] gmul_e(t)
            ==> pt_bytes(q) == mul_e(gmul_e(sc_bytes(*s)), t),
{
    *p * *s
}

/// Adds two group elements. Relies on the `Add` impl of fastcrypto's
/// `RistrettoPoint`.
#[verifier::external_body]
pub(crate) fn point_add(p: &RistrettoPoint, q: &RistrettoPoint) -> (r: RistrettoPoint)
    ensures
        pt_bytes(r) == add_e(pt_bytes(*p), pt_bytes(*q)),
{
    *p + *q
}

/// Canonical serialization of a group element. Relies on `bcs::to_bytes`
/// and the point's serde impl, which writes the canonical 32-byte compressed
/// encoding; serializing a point never fails.
#[verifier::external_body]
pub(crate) fn point_to_bytes(p: &RistrettoPoint) -> (out: Vec<u8>)
    ensures
        out@ == pt_bytes(*p),
{
    bcs::to_bytes(p).expect("serializing a group element never fails")
}

/// Reduces a byte string to a scalar challenge. Relies on
/// `FiatShamirChallenge::fiat_shamir_reduction_to_group_element` of
/// fastcrypto's `RistrettoScalar`, which hashes its input and accepts any
/// length.
#[verifier::external_body]
pub(crate) fn fiat_shamir_scalar(digest: &[u8]) -> (c: RistrettoScalar)
    ensures
        sc_bytes(c) == fs_scalar_e(digest@),
{
    RistrettoScalar::fiat_shamir_reduction_to_group_element(digest)
}

} // verus!
