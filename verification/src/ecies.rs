//! ECIES-style hybrid encryption over ristretto255.
//!
//! A private key is a scalar `x`, the public key the group element `x * G`.
//! Encrypting a message for `x * G` samples an ephemeral scalar `r` and
//! returns `(r * G, cipher(key = kdf(r * x * G), message))`. The batched
//! variant shares one ephemeral scalar across all recipients and carries one
//! discrete-log proof bound to the serialized ciphertext list; the recovery
//! package lets a key holder publish a verifiable partial decryption
//! `R * x` without revealing `x`.
//!
//! The scheme is not chosen-ciphertext secure: ciphertexts are malleable and
//! decryption is never authenticated, so a tampered ciphertext decrypts
//! silently to wrong bytes. Integrity must come from the proof checks.

use vstd::prelude::*;

use crate::group::{
    gmul_e, generator_mul, is_dh_share, is_public_of, mul_e, point_mul, pt_bytes, sc_bytes,
    scalar_rand,
};
use crate::nizk::{ddh_nizk_valid, dl_nizk_valid, DLNizk, DdhTupleNizk, DdhTupleNizkView, DLNizkView};
use crate::random_oracle::{push_all, RandomOracle};
use crate::symmetric::{lemma_sym_apply_involution, sym_apply, sym_apply_e};
use crate::Error;
use fastcrypto::groups::ristretto255::{RistrettoPoint, RistrettoScalar};
use rand::rngs::ThreadRng;
use zeroize::Zeroize;

verus! {

/// The mathematical content of an `Encryption`: the encodings of the
/// ephemeral element and the ciphertext, and the info value fed to the key
/// derivation.
pub struct EncryptionView {
    pub eph: Seq<u8>,
    pub data: Seq<u8>,
    pub info: u64,
}

/// What decrypting from a partial-decryption element encoding returns.
pub open spec fn spec_decrypt_from_partial(partial_e: Seq<u8>, e: EncryptionView) -> Seq<u8> {
    sym_apply_e(partial_e, e.data, e.info)
}

/// What decrypting with the secret scalar encoded by `sk_e` returns: the
/// partial key is the ephemeral element times the secret.
pub open spec fn spec_decrypt(e: EncryptionView, sk_e: Seq<u8>) -> Seq<u8> {
    sym_apply_e(mul_e(e.eph, sk_e), e.data, e.info)
}

/// What the deterministic derivation returns for a message, the encodings of
/// the ephemeral element and the shared element, and an info value.
pub open spec fn spec_deterministic_encrypt(
    m: Seq<u8>,
    r_g_e: Seq<u8>,
    r_x_g_e: Seq<u8>,
    info: u64,
) -> EncryptionView {
    EncryptionView { eph: r_g_e, data: sym_apply_e(r_x_g_e, m, info), info }
}

/// `e` is an encryption of `m` addressed to the key encoded by `pk_e`: every
/// secret scalar behind `pk_e` decrypts `e` to `m`.
pub open spec fn encryption_of(e: EncryptionView, pk_e: Seq<u8>, m: Seq<u8>) -> bool {
    forall|x: Seq<u8>| is_public_of(pk_e, x) ==> spec_decrypt(e, x) == m
}

/// A private key: a secret scalar, wiped from memory when released.
#[derive(Clone)]
pub struct PrivateKey {
    s: RistrettoScalar,
}

impl Drop for PrivateKey {
    /// Wipes the secret scalar on every release path. Relies on the
    /// `Zeroize` impl of fastcrypto's `RistrettoScalar`.
    #[verifier::external_body]
    fn drop(&mut self)
        opens_invariants none
        no_unwind
    {
        self.s.zeroize();
    }
}

impl View for PrivateKey {
    type V = Seq<u8>;

    closed spec fn view(&self) -> Seq<u8> {
        sc_bytes(self.s)
    }
}

/// A public key: the group element obtained from the generator and the
/// secret scalar.
#[derive(Clone, Debug)]
pub struct PublicKey {
    p: RistrettoPoint,
}

impl View for PublicKey {
    type V = Seq<u8>;

    closed spec fn view(&self) -> Seq<u8> {
        pt_bytes(self.p)
    }
}

/// A single-recipient hybrid ciphertext: the ephemeral element `r * G`, the
/// ciphertext bytes, and the info value fed to the key derivation.
#[derive(Clone, Debug)]
pub struct Encryption {
    ephemeral_key: RistrettoPoint,
    data: Vec<u8>,
    hkdf_info: usize,
}

impl View for Encryption {
    type V = EncryptionView;

    closed spec fn view(&self) -> EncryptionView {
        EncryptionView {
            eph: pt_bytes(self.ephemeral_key),
            data: self.data@,
            info: self.hkdf_info as u64,
        }
    }
}

/// A verifiable partial decryption: the element `R * x` together with a
/// proof that it was derived from the claimed public key.
#[derive(Clone, Debug)]
pub struct RecoveryPackage {
    ephemeral_key: RistrettoPoint,
    proof: DdhTupleNizk,
}

/// The encodings of a recovery package's partial key and proof.
pub struct RecoveryPackageView {
    pub partial: Seq<u8>,
    pub proof: DdhTupleNizkView,
}

impl View for RecoveryPackage {
    type V = RecoveryPackageView;

    closed spec fn view(&self) -> RecoveryPackageView {
        RecoveryPackageView { partial: pt_bytes(self.ephemeral_key), proof: self.proof@ }
    }
}

impl RecoveryPackage {
    /// The partial-decryption element `ephemeral * x`.
    pub fn partial_key(&self) -> (p: &RistrettoPoint)
        ensures
            pt_bytes(*p) == self@.partial,
    {
        &self.ephemeral_key
    }

    /// The Diffie-Hellman tuple proof.
    pub fn tuple_proof(&self) -> (pf: &DdhTupleNizk)
        ensures
            pf@ == self@.proof,
    {
        &self.proof
    }

    /// Rebuilds a package from its parts, as a deserializer does.
    pub fn from_parts(ephemeral_key: RistrettoPoint, proof: DdhTupleNizk) -> (pkg: RecoveryPackage)
        ensures
            pkg@ == (RecoveryPackageView { partial: pt_bytes(ephemeral_key), proof: proof@ }),
    {
        RecoveryPackage { ephemeral_key, proof }
    }
}

impl PrivateKey {
    /// Samples a fresh private key from the given randomness source.
    pub fn new(rng: &mut ThreadRng) -> PrivateKey {
        PrivateKey { s: scalar_rand(rng) }
    }

    /// Wraps an explicit scalar.
    pub fn from(sc: RistrettoScalar) -> (sk: PrivateKey)
        ensures
            sk@ == sc_bytes(sc),
    {
        PrivateKey { s: sc }
    }

    /// Decrypts a ciphertext: computes the partial key `ephemeral * x` and
    /// rederives the symmetric key from it. Decryption never fails; a
    /// ciphertext not addressed to this key yields wrong bytes, not an
    /// error.
    pub fn decrypt(&self, enc: &Encryption) -> (m: Vec<u8>)
        ensures
            m@ == spec_decrypt(enc@, self@),
    {
        enc.decrypt(&self.s)
    }

    /// Builds a verifiable partial decryption of `enc`: the element
    /// `ephemeral * x` and a proof that `(G, ephemeral, x * G, ephemeral * x)`
    /// is a Diffie-Hellman tuple, bound to the given oracle. The caller must
    /// supply an oracle whose prefix is unique to this package.
    pub fn create_recovery_package(
        &self,
        enc: &Encryption,
        random_oracle: &RandomOracle,
        rng: &mut ThreadRng,
    ) -> (pkg: RecoveryPackage)
        ensures
            is_dh_share(pkg@.partial, enc@.eph, self@),
            ddh_nizk_valid(random_oracle@, enc@.eph, gmul_e(self@), pkg@.partial, pkg@.proof),
    {
        let partial = point_mul(&enc.ephemeral_key, &self.s);
        let pk = generator_mul(&self.s);
        let proof = DdhTupleNizk::create(
            &self.s,
            &enc.ephemeral_key,
            &pk,
            &partial,
            random_oracle,
            rng,
        );
        RecoveryPackage { ephemeral_key: partial, proof }
    }

    /// The underlying scalar.
    pub fn as_element(&self) -> (s: &RistrettoScalar)
        ensures
            sc_bytes(*s) == self@,
    {
        &self.s
    }
}

impl PublicKey {
    /// The public key matching a private key: generator times secret.
    pub fn from_private_key(sk: &PrivateKey) -> (pk: PublicKey)
        ensures
            is_public_of(pk@, sk@),
    {
        PublicKey { p: generator_mul(&sk.s) }
    }

    /// Encrypts a message for this key under a fresh ephemeral scalar, with
    /// info value zero.
    pub fn encrypt(&self, msg: &[u8], rng: &mut ThreadRng) -> (enc: Encryption)
        ensures
            encryption_of(enc@, self@, msg@),
            enc@.data.len() == msg@.len(),
            enc@.info == 0,
    {
        Encryption::encrypt(&self.p, msg, rng)
    }

    /// The deterministic derivation under a caller-supplied ephemeral
    /// element `r_g` and shared element `r_x_g`. Callers must never reuse a
    /// pair of shared element and info value for two different messages:
    /// the keystream nonce is fixed, so a repeated pair is a two-time pad.
    pub fn deterministic_encrypt(
        msg: &[u8],
        r_g: &RistrettoPoint,
        r_x_g: &RistrettoPoint,
        info: usize,
    ) -> (enc: Encryption)
        ensures
            enc@ == spec_deterministic_encrypt(msg@, pt_bytes(*r_g), pt_bytes(*r_x_g), info as u64),
    {
        Encryption::deterministic_encrypt(msg, r_g, r_x_g, info)
    }

    /// Verifies a recovery package against this key and a ciphertext, and on
    /// success decrypts through the package's partial key. Fails with a
    /// verification error, never a crash, when the proof does not check.
    pub fn decrypt_with_recovery_package(
        &self,
        pkg: &RecoveryPackage,
        random_oracle: &RandomOracle,
        enc: &Encryption,
    ) -> (res: Result<Vec<u8>, Error>)
        ensures
            res is Ok <==> ddh_nizk_valid(random_oracle@, enc@.eph, self@, pkg@.partial, pkg@.proof),
            res is Ok ==> res.unwrap()@ == spec_decrypt_from_partial(pkg@.partial, enc@),
            res is Err ==> res == Err::<Vec<u8>, Error>(Error::InvalidProof),
    {
        match pkg.proof.verify(&enc.ephemeral_key, &self.p, &pkg.ephemeral_key, random_oracle) {
            Ok(()) => Ok(enc.decrypt_from_partial_decryption(&pkg.ephemeral_key)),
            Err(e) => Err(e),
        }
    }

    /// The underlying group element.
    pub fn as_element(&self) -> (p: &RistrettoPoint)
        ensures
            pt_bytes(*p) == self@,
    {
        &self.p
    }
}

impl Encryption {
    /// The deterministic derivation; see `PublicKey::deterministic_encrypt`.
    pub(crate) fn deterministic_encrypt(
        msg: &[u8],
        r_g: &RistrettoPoint,
        r_x_g: &RistrettoPoint,
        hkdf_info: usize,
    ) -> (enc: Encryption)
        ensures
            enc@ == spec_deterministic_encrypt(
                msg@,
                pt_bytes(*r_g),
                pt_bytes(*r_x_g),
                hkdf_info as u64,
            ),
    {
        let data = sym_apply(r_x_g, msg, hkdf_info as u64);
        Encryption { ephemeral_key: *r_g, data, hkdf_info }
    }

    /// Encrypts under a fresh ephemeral scalar for the key element `x_g`.
    pub(crate) fn encrypt(x_g: &RistrettoPoint, msg: &[u8], rng: &mut ThreadRng) -> (enc:
        Encryption)
        ensures
            encryption_of(enc@, pt_bytes(*x_g), msg@),
            enc@.data.len() == msg@.len(),
            enc@.info == 0,
    {
        let r = scalar_rand(rng);
        let r_g = generator_mul(&r);
        let r_x_g = point_mul(x_g, &r);
        let enc = Self::deterministic_encrypt(msg, &r_g, &r_x_g, 0);
        proof {
            assert forall|x: Seq<u8>| is_public_of(pt_bytes(*x_g), x) implies spec_decrypt(
                enc@,
                x,
            ) == msg@ by {
                lemma_sym_apply_involution(pt_bytes(r_x_g), msg@, 0);
            }
        }
        enc
    }

    /// Decrypts with the secret scalar: partial key first, then the
    /// symmetric layer.
    pub(crate) fn decrypt(&self, sk: &RistrettoScalar) -> (m: Vec<u8>)
        ensures
            m@ == spec_decrypt(self@, sc_bytes(*sk)),
    {
        let partial_key = point_mul(&self.ephemeral_key, sk);
        self.decrypt_from_partial_decryption(&partial_key)
    }

    /// Rederives the symmetric key from a partial-decryption element and
    /// applies the keystream. Never fails and authenticates nothing: a
    /// mismatched partial key silently yields wrong bytes.
    pub fn decrypt_from_partial_decryption(&self, partial_key: &RistrettoPoint) -> (m: Vec<u8>)
        ensures
            m@ == spec_decrypt_from_partial(pt_bytes(*partial_key), self@),
    {
        sym_apply(partial_key, self.data.as_slice(), self.hkdf_info_u64())
    }

    /// The ephemeral element `r * G`.
    pub fn ephemeral_key(&self) -> (p: &RistrettoPoint)
        ensures
            pt_bytes(*p) == self@.eph,
    {
        &self.ephemeral_key
    }

    /// The ciphertext bytes.
    pub fn data(&self) -> (d: &Vec<u8>)
        ensures
            d@ == self@.data,
    {
        &self.data
    }

    /// The info value fed to the key derivation.
    pub fn hkdf_info(&self) -> (info: usize)
        ensures
            info as u64 == self@.info,
    {
        self.hkdf_info
    }

    /// Rebuilds an encryption from its parts, as a deserializer does.
    pub fn from_parts(ephemeral_key: RistrettoPoint, data: Vec<u8>, hkdf_info: usize) -> (enc:
        Encryption)
        ensures
            enc@ == (EncryptionView {
                eph: pt_bytes(ephemeral_key),
                data: data@,
                info: hkdf_info as u64,
            }),
    {
        Encryption { ephemeral_key, data, hkdf_info }
    }

    /// The info value widened to the width the key derivation hashes.
    fn hkdf_info_u64(&self) -> (info: u64)
        ensures
            info == self@.info,
    {
        self.hkdf_info as u64
    }
}

/// Copies a byte vector.
fn clone_bytes(v: &Vec<u8>) -> (out: Vec<u8>)
    ensures
        out@ == v@,
{
    let mut out: Vec<u8> = Vec::new();
    push_all(&mut out, v.as_slice());
    proof {
        assert(out@ =~= v@);
    }
    out
}

/// The canonical serialization of a list of byte buffers, used to bind the
/// batch proof to the exact ciphertext list.
pub uninterp spec fn byte_lists_e(lists: Seq<Seq<u8>>) -> Seq<u8>;

/// The serialization limit: every buffer, and the list itself, must be
/// shorter than this for the canonical encoding to exist.
pub open spec fn wf_byte_lists(lists: Seq<Seq<u8>>) -> bool {
    &&& lists.len() < 0x8000_0000
    &&& forall|i: int| 0 <= i < lists.len() ==> (#[trigger] lists[i]).len() < 0x8000_0000
}

/// Serializes a list of byte buffers. Relies on `bcs::to_bytes`, which is
/// deterministic and fails only on a sequence longer than its limit of
/// `2^31 - 1` elements, which the precondition rules out.
#[verifier::external_body]
fn byte_lists_to_bytes(v: &Vec<Vec<u8>>) -> (out: Vec<u8>)
    requires
        wf_byte_lists(v.deep_view()),
    ensures
        out@ == byte_lists_e(v.deep_view()),
{
    bcs::to_bytes(v).expect("serializing bounded byte buffers never fails")
}

/// Every buffer in the list is non-empty.
pub open spec fn all_nonempty(lists: Seq<Seq<u8>>) -> bool {
    forall|i: int| 0 <= i < lists.len() ==> (#[trigger] lists[i]).len() > 0
}

/// The public-key encodings of a recipient list.
pub open spec fn pks_of(s: Seq<(PublicKey, Vec<u8>)>) -> Seq<Seq<u8>> {
    Seq::new(s.len(), |i: int| s[i].0@)
}

/// The message bytes of a recipient list.
pub open spec fn msgs_of(s: Seq<(PublicKey, Vec<u8>)>) -> Seq<Seq<u8>> {
    Seq::new(s.len(), |i: int| s[i].1@)
}

/// The mathematical content of a `MultiRecipientEncryption`: the shared
/// ephemeral element's encoding, the ciphertext list, and the proof.
pub struct MultiRecipientEncryptionView {
    pub eph: Seq<u8>,
    pub cts: Seq<Seq<u8>>,
    pub proof: DLNizkView,
}

/// The single-recipient view of the batch entry at index `i`: the shared
/// ephemeral element, the i-th ciphertext, and `i` as the info value.
pub open spec fn entry_view(v: MultiRecipientEncryptionView, i: int) -> EncryptionView {
    EncryptionView { eph: v.eph, data: v.cts[i], info: i as u64 }
}

/// The batch entry with ciphertext `ct`, shared ephemeral encoding `eph` and
/// info value `info` decrypts to `m` under every secret scalar behind `pk`.
pub open spec fn batch_entry_decrypts(
    eph: Seq<u8>,
    ct: Seq<u8>,
    info: int,
    pk: Seq<u8>,
    m: Seq<u8>,
) -> bool {
    forall|x: Seq<u8>| is_public_of(pk, x) ==> sym_apply_e(mul_e(eph, x), ct, info as u64) == m
}

/// `v` encrypts the given messages for the given recipients: lengths match,
/// and every secret scalar behind the i-th public key decrypts the i-th
/// entry to the i-th message.
pub open spec fn multi_encryption_of(
    v: MultiRecipientEncryptionView,
    pks: Seq<Seq<u8>>,
    msgs: Seq<Seq<u8>>,
) -> bool {
    &&& v.cts.len() == msgs.len()
    &&& pks.len() == msgs.len()
    &&& forall|i: int| 0 <= i < msgs.len() ==> (#[trigger] v.cts[i]).len() == msgs[i].len()
    &&& forall|i: int|
        0 <= i < msgs.len() ==> #[trigger] batch_entry_decrypts(
            v.eph,
            v.cts[i],
            i,
            pks[i],
            msgs[i],
        )
}

/// A batched ciphertext set: one shared ephemeral element, one ciphertext
/// per recipient, and one discrete-log proof bound to the serialized
/// ciphertext list.
#[derive(Clone, Debug)]
pub struct MultiRecipientEncryption {
    ephemeral_key: RistrettoPoint,
    ciphertexts: Vec<Vec<u8>>,
    proof: DLNizk,
}

impl View for MultiRecipientEncryption {
    type V = MultiRecipientEncryptionView;

    closed spec fn view(&self) -> MultiRecipientEncryptionView {
        MultiRecipientEncryptionView {
            eph: pt_bytes(self.ephemeral_key),
            cts: self.ciphertexts.deep_view(),
            proof: self.proof@,
        }
    }
}

impl MultiRecipientEncryption {
    /// Encrypts one message per recipient under a single ephemeral scalar
    /// `r`: entry `i` is the deterministic derivation for shared element
    /// `pk_i * r` and info value `i`. One discrete-log proof for `r * G` is
    /// bound to the serialized ciphertext list, so the proof cannot be
    /// replayed against a substituted payload set. The caller must supply an
    /// oracle whose prefix is unique to this batch.
    pub fn encrypt(
        pk_and_msgs: &Vec<(PublicKey, Vec<u8>)>,
        random_oracle: &RandomOracle,
        rng: &mut ThreadRng,
    ) -> (enc: MultiRecipientEncryption)
        requires
            pk_and_msgs@.len() < 0x8000_0000,
            forall|i: int|
                0 <= i < pk_and_msgs@.len() ==> (#[trigger] pk_and_msgs@[i].1)@.len()
                    < 0x8000_0000,
        ensures
            multi_encryption_of(enc@, pks_of(pk_and_msgs@), msgs_of(pk_and_msgs@)),
            dl_nizk_valid(random_oracle@, enc@.eph, byte_lists_e(enc@.cts), enc@.proof),
            wf_byte_lists(enc@.cts),
    {
        let r = scalar_rand(rng);
        let r_g = generator_mul(&r);
        let mut cts: Vec<Vec<u8>> = Vec::new();
        let n = pk_and_msgs.len();
        let mut i: usize = 0;
        while i < n
            invariant
                i <= n,
                n == pk_and_msgs@.len(),
                n < 0x8000_0000,
                forall|k: int|
                    0 <= k < n ==> (#[trigger] pk_and_msgs@[k].1)@.len() < 0x8000_0000,
                cts.deep_view().len() == i,
                pt_bytes(r_g) == gmul_e(sc_bytes(r)),
                forall|j: int|
                    0 <= j < i ==> (#[trigger] cts.deep_view()[j]).len() == msgs_of(
                        pk_and_msgs@,
                    )[j].len(),
                forall|j: int|
                    0 <= j < i ==> #[trigger] batch_entry_decrypts(
                        pt_bytes(r_g),
                        cts.deep_view()[j],
                        j,
                        pks_of(pk_and_msgs@)[j],
                        msgs_of(pk_and_msgs@)[j],
                    ),
            decreases n - i,
        {
            let pair = &pk_and_msgs[i];
            let r_x_g = point_mul(&pair.0.p, &r);
            let e = Encryption::deterministic_encrypt(pair.1.as_slice(), &r_g, &r_x_g, i);
            let ghost pre = cts.deep_view();
            cts.push(e.data);
            proof {
                assert(cts.deep_view() =~~= pre.push(
                    sym_apply_e(pt_bytes(r_x_g), pk_and_msgs@[i as int].1@, i as u64),
                ));
                assert forall|x: Seq<u8>| is_public_of(pks_of(pk_and_msgs@)[i as int], x)
                    implies sym_apply_e(
                    mul_e(pt_bytes(r_g), x),
                    cts.deep_view()[i as int],
                    (i as int) as u64,
                ) == msgs_of(pk_and_msgs@)[i as int] by {
                    assert(mul_e(pt_bytes(r_g), x) == pt_bytes(r_x_g));
                    lemma_sym_apply_involution(pt_bytes(r_x_g), pk_and_msgs@[i as int].1@, i as u64);
                }
            }
            i += 1;
        }
        let bind = byte_lists_to_bytes(&cts);
        let nizk = DLNizk::create(&r, &r_g, bind.as_slice(), random_oracle, rng);
        MultiRecipientEncryption { ephemeral_key: r_g, ciphertexts: cts, proof: nizk }
    }

    /// The standalone single-recipient view of entry `i`: the shared
    /// ephemeral element, the i-th ciphertext and `i` as the info value.
    /// Fails with an invalid-input error exactly when `i` is out of range.
    pub fn get_encryption(&self, i: usize) -> (res: Result<Encryption, Error>)
        ensures
            res is Ok <==> i < self@.cts.len(),
            res is Ok ==> res.unwrap()@ == entry_view(self@, i as int),
            res is Err ==> res == Err::<Encryption, Error>(Error::InvalidInput),
    {
        if i < self.ciphertexts.len() {
            let data = clone_bytes(&self.ciphertexts[i]);
            proof {
                assert(data@ =~= self@.cts[i as int]);
            }
            Ok(Encryption { ephemeral_key: self.ephemeral_key, data, hkdf_info: i })
        } else {
            Err(Error::InvalidInput)
        }
    }

    /// The number of recipients.
    pub fn len(&self) -> (n: usize)
        ensures
            n == self@.cts.len(),
    {
        self.ciphertexts.len()
    }

    /// True when the batch has no recipients.
    pub fn is_empty(&self) -> (b: bool)
        ensures
            b == (self@.cts.len() == 0),
    {
        self.ciphertexts.len() == 0
    }

    /// Recomputes the transcript over the ciphertext list and checks the
    /// discrete-log proof, then requires every ciphertext to be non-empty.
    /// Succeeds exactly when both hold; a failed proof reports a
    /// verification error, an empty entry an invalid-input error.
    pub fn verify(&self, random_oracle: &RandomOracle) -> (res: Result<(), Error>)
        requires
            wf_byte_lists(self@.cts),
        ensures
            res is Ok <==> (dl_nizk_valid(
                random_oracle@,
                self@.eph,
                byte_lists_e(self@.cts),
                self@.proof,
            ) && all_nonempty(self@.cts)),
            !dl_nizk_valid(random_oracle@, self@.eph, byte_lists_e(self@.cts), self@.proof)
                ==> res == Err::<(), Error>(Error::InvalidProof),
            (dl_nizk_valid(random_oracle@, self@.eph, byte_lists_e(self@.cts), self@.proof)
                && !all_nonempty(self@.cts)) ==> res == Err::<(), Error>(Error::InvalidInput),
    {
        let bind = byte_lists_to_bytes(&self.ciphertexts);
        match self.proof.verify(&self.ephemeral_key, bind.as_slice(), random_oracle) {
            Err(e) => Err(e),
            Ok(()) => {
                let n = self.ciphertexts.len();
                let mut i: usize = 0;
                while i < n
                    invariant
                        i <= n,
                        n == self@.cts.len(),
                        dl_nizk_valid(
                            random_oracle@,
                            self@.eph,
                            byte_lists_e(self@.cts),
                            self@.proof,
                        ),
                        forall|j: int| 0 <= j < i ==> (#[trigger] self@.cts[j]).len() > 0,
                    decreases n - i,
                {
                    if self.ciphertexts[i].len() == 0 {
                        proof {
                            assert(self@.cts[i as int].len() == 0);
                        }
                        return Err(Error::InvalidInput);
                    }
                    i += 1;
                }
                Ok(())
            },
        }
    }

    /// The shared ephemeral element `r * G`.
    pub fn ephemeral_key(&self) -> (p: &RistrettoPoint)
        ensures
            pt_bytes(*p) == self@.eph,
    {
        &self.ephemeral_key
    }

    /// The discrete-log proof covering the batch.
    pub fn dl_proof(&self) -> (pf: &DLNizk)
        ensures
            pf@ == self@.proof,
    {
        &self.proof
    }

    /// Rebuilds a batch from its parts, as a deserializer does.
    pub fn from_parts(
        ephemeral_key: RistrettoPoint,
        ciphertexts: Vec<Vec<u8>>,
        proof: DLNizk,
    ) -> (enc: MultiRecipientEncryption)
        ensures
            enc@ == (MultiRecipientEncryptionView {
                eph: pt_bytes(ephemeral_key),
                cts: ciphertexts.deep_view(),
                proof: proof@,
            }),
    {
        MultiRecipientEncryption { ephemeral_key, ciphertexts, proof }
    }

    /// The ciphertext list.
    pub fn ciphertexts(&self) -> (cts: &Vec<Vec<u8>>)
        ensures
            cts.deep_view() == self@.cts,
    {
        &self.ciphertexts
    }

    /// Swaps two ciphertext entries; a tamper hook for exercising the
    /// binding of the proof to the ciphertext list.
    pub fn swap_for_testing(&mut self, i: usize, j: usize)
        requires
            i < old(self)@.cts.len(),
            j < old(self)@.cts.len(),
        ensures
            final(self)@.eph == old(self)@.eph,
            final(self)@.proof == old(self)@.proof,
            final(self)@.cts == old(self)@.cts.update(
                i as int,
                old(self)@.cts[j as int],
            ).update(j as int, old(self)@.cts[i as int]),
    {
        let vi = clone_bytes(&self.ciphertexts[i]);
        let vj = clone_bytes(&self.ciphertexts[j]);
        self.ciphertexts[i] = vj;
        self.ciphertexts[j] = vi;
        proof {
            assert(self@.cts =~~= old(self)@.cts.update(i as int, old(self)@.cts[j as int]).update(
                j as int,
                old(self)@.cts[i as int],
            ));
        }
    }

    /// Overwrites entry `dst` with a copy of entry `src`; a tamper hook for
    /// exercising the binding of the proof to the ciphertext list.
    pub fn copy_for_testing(&mut self, src: usize, dst: usize)
        requires
            src < old(self)@.cts.len(),
            dst < old(self)@.cts.len(),
        ensures
            final(self)@.eph == old(self)@.eph,
            final(self)@.proof == old(self)@.proof,
            final(self)@.cts == old(self)@.cts.update(dst as int, old(self)@.cts[src as int]),
    {
        let v = clone_bytes(&self.ciphertexts[src]);
        self.ciphertexts[dst] = v;
        proof {
            assert(self@.cts =~~= old(self)@.cts.update(dst as int, old(self)@.cts[src as int]));
        }
    }
}

impl From<RistrettoPoint> for PublicKey {
    /// Wraps an explicit group element.
    fn from(p: RistrettoPoint) -> (pk: PublicKey)
        ensures
            pk@ == pt_bytes(p),
    {
        PublicKey { p }
    }
}

impl vstd::std_specs::convert::FromSpecImpl<RistrettoPoint> for PublicKey {
    open spec fn obeys_from_spec() -> bool {
        true
    }

    closed spec fn from_spec(p: RistrettoPoint) -> PublicKey {
        PublicKey { p }
    }
}

/// Round trip: an encryption addressed to a public key decrypts, under any
/// secret scalar encoding behind that key, to the original message.
pub proof fn lemma_round_trip(e: EncryptionView, pk_e: Seq<u8>, x: Seq<u8>, m: Seq<u8>)
    requires
        encryption_of(e, pk_e, m),
        is_public_of(pk_e, x),
    ensures
        spec_decrypt(e, x) == m,
{
}

/// Diffie-Hellman commutativity of the decryption paths: decrypting from the
/// share `ephemeral * x` returns exactly what decrypting with `x` returns.
pub proof fn lemma_partial_decryption_agrees(e: EncryptionView, partial_e: Seq<u8>, x: Seq<u8>)
    requires
        is_dh_share(partial_e, e.eph, x),
    ensures
        spec_decrypt_from_partial(partial_e, e) == spec_decrypt(e, x),
{
}

/// Multi-recipient isolation, round-trip direction: the batch entry at index
/// `i` decrypts to the i-th message under any secret behind the i-th key.
pub proof fn lemma_multi_recipient_round_trip(
    v: MultiRecipientEncryptionView,
    pks: Seq<Seq<u8>>,
    msgs: Seq<Seq<u8>>,
    i: int,
    x: Seq<u8>,
)
    requires
        multi_encryption_of(v, pks, msgs),
        0 <= i < msgs.len(),
        is_public_of(pks[i], x),
    ensures
        spec_decrypt(entry_view(v, i), x) == msgs[i],
{
    assert(batch_entry_decrypts(v.eph, v.cts[i], i, pks[i], msgs[i]));
}

/// An honestly produced batch whose messages are all non-empty meets both
/// conditions `verify` checks: the proof equation holds over the serialized
/// ciphertext list, and no ciphertext entry is empty.
pub proof fn lemma_honest_batch_verifies(
    v: MultiRecipientEncryptionView,
    pks: Seq<Seq<u8>>,
    msgs: Seq<Seq<u8>>,
    ro: Seq<u8>,
)
    requires
        multi_encryption_of(v, pks, msgs),
        dl_nizk_valid(ro, v.eph, byte_lists_e(v.cts), v.proof),
        forall|i: int| 0 <= i < msgs.len() ==> (#[trigger] msgs[i]).len() > 0,
    ensures
        dl_nizk_valid(ro, v.eph, byte_lists_e(v.cts), v.proof) && all_nonempty(v.cts),
{
}

/// Recovery package round trip: a package whose partial key is the share
/// `ephemeral * x` passes the tuple check it was created with, and
/// decrypting through it returns the message the encryption was addressed
/// to the key `generator * x` for.
pub proof fn lemma_recovery_package_round_trip(
    e: EncryptionView,
    pk_e: Seq<u8>,
    x: Seq<u8>,
    partial_e: Seq<u8>,
    m: Seq<u8>,
)
    requires
        encryption_of(e, pk_e, m),
        is_public_of(pk_e, x),
        is_dh_share(partial_e, e.eph, x),
    ensures
        spec_decrypt_from_partial(partial_e, e) == m,
{
}

/// Determinism of the derivation: byte-identical inputs give byte-identical
/// encryptions.
pub proof fn lemma_deterministic_encrypt_deterministic(
    m: Seq<u8>,
    r_g_e: Seq<u8>,
    r_x_g_e: Seq<u8>,
    info: u64,
    e1: EncryptionView,
    e2: EncryptionView,
)
    requires
        e1 == spec_deterministic_encrypt(m, r_g_e, r_x_g_e, info),
        e2 == spec_deterministic_encrypt(m, r_g_e, r_x_g_e, info),
    ensures
        e1 == e2,
{
}

} // verus!
