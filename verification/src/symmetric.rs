//! The symmetric layer of the hybrid scheme: HKDF-SHA3-256 key derivation
//! (empty salt, 32-byte output) and AES-256 in counter mode under a fixed
//! all-zero nonce, as implemented by `fastcrypto`.
//!
//! Counter mode xors the data with a keystream that depends only on the key
//! and the nonce, so one operation both encrypts and decrypts, decryption
//! never fails, and nothing is authenticated. The fixed zero nonce is safe
//! only while no derived key is ever reused for two different messages,
//! which the callers guarantee by deriving every key from a pair of a
//! Diffie-Hellman share and an info value that never repeats.

use vstd::prelude::*;

use crate::group::{pt_bytes, point_to_bytes};
use fastcrypto::aes::{Aes256Ctr, AesKey, Cipher, InitializationVector};
use fastcrypto::groups::ristretto255::RistrettoPoint;
use fastcrypto::hmac::{hkdf_sha3_256, HkdfIkm};
use fastcrypto::traits::ToFromBytes;
use typenum::consts::{U16, U32};

verus! {

/// Length in bytes of the derived symmetric key.
pub const AES_KEY_LENGTH: usize = 32;

/// Result of HKDF-SHA3-256 with the given input keying material and info,
/// an empty salt and a 32-byte output.
pub uninterp spec fn hkdf_e(ikm: Seq<u8>, info: Seq<u8>) -> Seq<u8>;

/// The AES-256 counter-mode keystream under the all-zero nonce, cut to the
/// given length, as a function of the key.
pub uninterp spec fn keystream_e(key: Seq<u8>, len: nat) -> Seq<u8>;

/// Byte-wise xor; the result has the length of `a`.
pub open spec fn xor_bytes(a: Seq<u8>, b: Seq<u8>) -> Seq<u8> {
    Seq::new(a.len(), |i: int| a[i] ^ b[i])
}

/// Big-endian bytes of a 64-bit integer.
pub open spec fn u64_be_bytes(v: u64) -> Seq<u8> {
    seq![
        (v >> 56) as u8,
        (v >> 48) as u8,
        (v >> 40) as u8,
        (v >> 32) as u8,
        (v >> 24) as u8,
        (v >> 16) as u8,
        (v >> 8) as u8,
        v as u8,
    ]
}

/// The symmetric key derived for a partial-decryption element encoding and
/// an info value: HKDF over the element's serialization with the info's
/// big-endian bytes as context.
pub open spec fn sym_key_e(partial_e: Seq<u8>, info: u64) -> Seq<u8> {
    hkdf_e(partial_e, u64_be_bytes(info))
}

/// One pass of the keystream cipher under the derived key: applied to a
/// message it is the ciphertext, applied to that ciphertext it is the
/// message again.
pub open spec fn sym_apply_e(partial_e: Seq<u8>, data: Seq<u8>, info: u64) -> Seq<u8> {
    xor_bytes(data, keystream_e(sym_key_e(partial_e, info), data.len()))
}

/// The keystream cipher is an involution: applying it twice under the same
/// element encoding and info returns the original bytes.
pub proof fn lemma_sym_apply_involution(partial_e: Seq<u8>, data: Seq<u8>, info: u64)
    ensures
        sym_apply_e(partial_e, sym_apply_e(partial_e, data, info), info) == data,
{
    let ks = keystream_e(sym_key_e(partial_e, info), data.len());
    let once = xor_bytes(data, ks);
    let twice = xor_bytes(once, keystream_e(sym_key_e(partial_e, info), once.len()));
    assert forall|i: int| 0 <= i < data.len() implies twice[i] == data[i] by {
        let x: u8 = data[i];
        let y: u8 = ks[i];
        assert(((x ^ y) ^ y) == x) by (bit_vector);
    }
    assert(twice =~= data);
}

/// Derives a 32-byte symmetric key. Relies on fastcrypto's `hkdf_sha3_256`
/// with an empty salt, and on `HkdfIkm::from_bytes`, which accepts keying
/// material of any length; neither fails for a 32-byte output.
#[verifier::external_body]
fn hkdf_derive(ikm: &Vec<u8>, info: &Vec<u8>) -> (key: Vec<u8>)
    ensures
        key@ == hkdf_e(ikm@, info@),
        key@.len() == AES_KEY_LENGTH,
{
    hkdf_sha3_256(
        &HkdfIkm::from_bytes(ikm).expect("keying material of any length is accepted"),
        &[],
        info,
        AES_KEY_LENGTH,
    )
    .expect("a 32-byte output never exceeds the hkdf bound")
}

/// Applies AES-256 in counter mode under the all-zero nonce. Relies on
/// fastcrypto's `Aes256Ctr`, whose `encrypt` xors the data with the
/// keystream determined by key and nonce, and on the fixed-width
/// constructors `AesKey::from_bytes` and `InitializationVector::from_bytes`.
#[verifier::external_body]
fn aes256_ctr_apply(key: &Vec<u8>, data: &[u8]) -> (out: Vec<u8>)
    requires
        key@.len() == AES_KEY_LENGTH,
    ensures
        out@ == xor_bytes(data@, keystream_e(key@, data@.len())),
{
    let cipher = Aes256Ctr::new(AesKey::<U32>::from_bytes(key).expect("the key is 32 bytes"));
    let nonce = InitializationVector::<U16>::from_bytes(&[0u8; 16]).expect("the nonce is 16 bytes");
    cipher.encrypt(&nonce, data)
}

/// Big-endian bytes of a 64-bit integer.
pub(crate) fn u64_to_be_bytes(v: u64) -> (out: Vec<u8>)
    ensures
        out@ == u64_be_bytes(v),
{
    let mut out: Vec<u8> = Vec::new();
    out.push(#[verifier::truncate] ((v >> 56) as u8));
    out.push(#[verifier::truncate] ((v >> 48) as u8));
    out.push(#[verifier::truncate] ((v >> 40) as u8));
    out.push(#[verifier::truncate] ((v >> 32) as u8));
    out.push(#[verifier::truncate] ((v >> 24) as u8));
    out.push(#[verifier::truncate] ((v >> 16) as u8));
    out.push(#[verifier::truncate] ((v >> 8) as u8));
    out.push(#[verifier::truncate] (v as u8));
    proof {
        assert(out@ =~= u64_be_bytes(v));
    }
    out
}

/// Encrypts or decrypts `data` under the key derived from the given group
/// element and info value.
pub(crate) fn sym_apply(partial: &RistrettoPoint, data: &[u8], info: u64) -> (out: Vec<u8>)
    ensures
        out@ == sym_apply_e(pt_bytes(*partial), data@, info),
{
    let ikm = point_to_bytes(partial);
    let info_bytes = u64_to_be_bytes(info);
    let key = hkdf_derive(&ikm, &info_bytes);
    aes256_ctr_apply(&key, data)
}

} // verus!
