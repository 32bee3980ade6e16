//! Non-interactive zero-knowledge proofs over ristretto255: a Schnorr proof
//! of knowledge of a discrete logarithm, and a Chaum-Pedersen proof that
//! four group elements form a consistent Diffie-Hellman tuple. Challenges
//! are drawn from a caller-supplied random oracle (Fiat-Shamir), so prover
//! and verifier must be handed oracles with the same prefix, and one oracle
//! must never serve two distinct proof instances.
//!
//! The contracts state completeness exactly: what `create` returns passes
//! `verify` under the same oracle and statement. That a forged proof fails
//! is a cryptographic property of the hash and the group, outside what the
//! contracts can state.

use vstd::prelude::*;

use crate::group::{
    add_e, fiat_shamir_scalar, fs_scalar_e, generator_mul, gmul_e, is_dh_share, is_public_of,
    mul_e, point_add, point_mul, point_to_bytes, pt_bytes, sc_bytes, scalar_add, scalar_mul,
    scalar_rand,
};
use crate::random_oracle::{framed_e, ro_eval_e, push_framed, RandomOracle};
use crate::Error;
use fastcrypto::groups::ristretto255::{RistrettoPoint, RistrettoScalar};
use rand::rngs::ThreadRng;

verus! {

/// True when the two byte vectors hold the same bytes.
pub(crate) fn bytes_eq(a: &Vec<u8>, b: &Vec<u8>) -> (r: bool)
    ensures
        r == (a@ == b@),
{
    if a.len() != b.len() {
        return false;
    }
    let mut i: usize = 0;
    while i < a.len()
        invariant
            i <= a@.len(),
            a@.len() == b@.len(),
            forall|j: int| 0 <= j < i ==> a@[j] == b@[j],
        decreases a@.len() - i,
    {
        if a[i] != b[i] {
            return false;
        }
        i += 1;
    }
    proof {
        assert(a@ =~= b@);
    }
    true
}

/// A Schnorr proof of knowledge of the discrete logarithm of a group
/// element: a commitment and a response scalar.
#[derive(Clone, Debug)]
pub struct DLNizk {
    a: RistrettoPoint,
    z: RistrettoScalar,
}

/// The encodings of a discrete-log proof's commitment and response.
pub struct DLNizkView {
    pub a: Seq<u8>,
    pub z: Seq<u8>,
}

impl View for DLNizk {
    type V = DLNizkView;

    closed spec fn view(&self) -> DLNizkView {
        DLNizkView { a: pt_bytes(self.a), z: sc_bytes(self.z) }
    }
}

/// The challenge of a discrete-log proof: the oracle evaluated over the
/// statement element, the commitment and the binding bytes, each framed by
/// its length, reduced to a scalar.
pub open spec fn dl_challenge_e(ro: Seq<u8>, x_g: Seq<u8>, a: Seq<u8>, bind: Seq<u8>) -> Seq<u8> {
    fs_scalar_e(ro_eval_e(ro, framed_e(x_g) + framed_e(a) + framed_e(bind)))
}

/// The check a discrete-log proof must pass for statement `x_g` bound to
/// `bind` under the oracle with prefix `ro`: generator times response equals
/// commitment plus challenge times statement.
pub open spec fn dl_nizk_valid(ro: Seq<u8>, x_g: Seq<u8>, bind: Seq<u8>, pf: DLNizkView) -> bool {
    gmul_e(pf.z) == add_e(pf.a, mul_e(x_g, dl_challenge_e(ro, x_g, pf.a, bind)))
}

impl DLNizk {
    /// The challenge scalar for the given statement, commitment and binding.
    fn challenge(
        x_g: &RistrettoPoint,
        a: &RistrettoPoint,
        bind: &[u8],
        ro: &RandomOracle,
    ) -> (c: RistrettoScalar)
        ensures
            sc_bytes(c) == dl_challenge_e(ro@, pt_bytes(*x_g), pt_bytes(*a), bind@),
    {
        let mut input: Vec<u8> = Vec::new();
        let x_g_bytes = point_to_bytes(x_g);
        let a_bytes = point_to_bytes(a);
        push_framed(&mut input, x_g_bytes.as_slice());
        push_framed(&mut input, a_bytes.as_slice());
        push_framed(&mut input, bind);
        proof {
            assert(input@ =~= framed_e(pt_bytes(*x_g)) + framed_e(pt_bytes(*a)) + framed_e(
                bind@,
            ));
        }
        let digest = ro.evaluate(input.as_slice());
        fiat_shamir_scalar(digest.as_slice())
    }

    /// Proves knowledge of `x`, the discrete logarithm of `x_g`, with the
    /// transcript additionally bound to `bind`.
    pub fn create(
        x: &RistrettoScalar,
        x_g: &RistrettoPoint,
        bind: &[u8],
        ro: &RandomOracle,
        rng: &mut ThreadRng,
    ) -> (pf: DLNizk)
        requires
            is_public_of(pt_bytes(*x_g), sc_bytes(*x)),
        ensures
            dl_nizk_valid(ro@, pt_bytes(*x_g), bind@, pf@),
    {
        let rho = scalar_rand(rng);
        let a = generator_mul(&rho);
        let c = Self::challenge(x_g, &a, bind, ro);
        let c_x = scalar_mul(&c, x);
        let z = scalar_add(&rho, &c_x);
        DLNizk { a, z }
    }

    /// Rebuilds a proof from its parts, as a deserializer does.
    pub fn from_parts(a: RistrettoPoint, z: RistrettoScalar) -> (pf: DLNizk)
        ensures
            pf@ == (DLNizkView { a: pt_bytes(a), z: sc_bytes(z) }),
    {
        DLNizk { a, z }
    }

    /// The commitment element.
    pub fn commitment(&self) -> (a: &RistrettoPoint)
        ensures
            pt_bytes(*a) == self@.a,
    {
        &self.a
    }

    /// The response scalar.
    pub fn response(&self) -> (z: &RistrettoScalar)
        ensures
            sc_bytes(*z) == self@.z,
    {
        &self.z
    }

    /// Checks the proof for statement `x_g` bound to `bind` under the given
    /// oracle; the same oracle prefix and binding the prover used.
    pub fn verify(
        &self,
        x_g: &RistrettoPoint,
        bind: &[u8],
        ro: &RandomOracle,
    ) -> (res: Result<(), Error>)
        ensures
            res is Ok <==> dl_nizk_valid(ro@, pt_bytes(*x_g), bind@, self@),
            res is Err ==> res == Err::<(), Error>(Error::InvalidProof),
    {
        let c = Self::challenge(x_g, &self.a, bind, ro);
        let lhs = generator_mul(&self.z);
        let x_g_c = point_mul(x_g, &c);
        let rhs = point_add(&self.a, &x_g_c);
        let lhs_bytes = point_to_bytes(&lhs);
        let rhs_bytes = point_to_bytes(&rhs);
        if bytes_eq(&lhs_bytes, &rhs_bytes) {
            Ok(())
        } else {
            Err(Error::InvalidProof)
        }
    }
}

/// A Chaum-Pedersen proof that `(generator, eh, pk, partial)` is a
/// Diffie-Hellman tuple: two commitments and a response scalar.
#[derive(Clone, Debug)]
pub struct DdhTupleNizk {
    a1: RistrettoPoint,
    a2: RistrettoPoint,
    z: RistrettoScalar,
}

/// The encodings of a Diffie-Hellman tuple proof's commitments and response.
pub struct DdhTupleNizkView {
    pub a1: Seq<u8>,
    pub a2: Seq<u8>,
    pub z: Seq<u8>,
}

impl View for DdhTupleNizk {
    type V = DdhTupleNizkView;

    closed spec fn view(&self) -> DdhTupleNizkView {
        DdhTupleNizkView { a1: pt_bytes(self.a1), a2: pt_bytes(self.a2), z: sc_bytes(self.z) }
    }
}

/// The challenge of a tuple proof: the oracle evaluated over the three
/// statement elements and the two commitments, each framed by its length,
/// reduced to a scalar.
pub open spec fn ddh_challenge_e(
    ro: Seq<u8>,
    eh: Seq<u8>,
    pk: Seq<u8>,
    partial: Seq<u8>,
    a1: Seq<u8>,
    a2: Seq<u8>,
) -> Seq<u8> {
    fs_scalar_e(
        ro_eval_e(
            ro,
            framed_e(eh) + framed_e(pk) + framed_e(partial) + framed_e(a1) + framed_e(a2),
        ),
    )
}

/// The two checks a tuple proof must pass for the statement that
/// `(generator, eh, pk, partial)` is a Diffie-Hellman tuple: one Schnorr
/// equation over the generator and one over `eh`.
pub open spec fn ddh_nizk_valid(
    ro: Seq<u8>,
    eh: Seq<u8>,
    pk: Seq<u8>,
    partial: Seq<u8>,
    pf: DdhTupleNizkView,
) -> bool {
    let c = ddh_challenge_e(ro, eh, pk, partial, pf.a1, pf.a2);
    gmul_e(pf.z) == add_e(pf.a1, mul_e(pk, c)) && mul_e(eh, pf.z) == add_e(
        pf.a2,
        mul_e(partial, c),
    )
}

impl DdhTupleNizk {
    /// The challenge scalar for the given statement and commitments.
    fn challenge(
        eh: &RistrettoPoint,
        pk: &RistrettoPoint,
        partial: &RistrettoPoint,
        a1: &RistrettoPoint,
        a2: &RistrettoPoint,
        ro: &RandomOracle,
    ) -> (c: RistrettoScalar)
        ensures
            sc_bytes(c) == ddh_challenge_e(
                ro@,
                pt_bytes(*eh),
                pt_bytes(*pk),
                pt_bytes(*partial),
                pt_bytes(*a1),
                pt_bytes(*a2),
            ),
    {
        let mut input: Vec<u8> = Vec::new();
        let eh_bytes = point_to_bytes(eh);
        let pk_bytes = point_to_bytes(pk);
        let partial_bytes = point_to_bytes(partial);
        let a1_bytes = point_to_bytes(a1);
        let a2_bytes = point_to_bytes(a2);
        push_framed(&mut input, eh_bytes.as_slice());
        push_framed(&mut input, pk_bytes.as_slice());
        push_framed(&mut input, partial_bytes.as_slice());
        push_framed(&mut input, a1_bytes.as_slice());
        push_framed(&mut input, a2_bytes.as_slice());
        proof {
            assert(input@ =~= framed_e(pt_bytes(*eh)) + framed_e(pt_bytes(*pk)) + framed_e(
                pt_bytes(*partial),
            ) + framed_e(pt_bytes(*a1)) + framed_e(pt_bytes(*a2)));
        }
        let digest = ro.evaluate(input.as_slice());
        fiat_shamir_scalar(digest.as_slice())
    }

    /// Proves that `(generator, eh, pk, partial)` is a Diffie-Hellman tuple,
    /// where `x` is the secret with `pk = generator * x` and
    /// `partial = eh * x`.
    pub fn create(
        x: &RistrettoScalar,
        eh: &RistrettoPoint,
        pk: &RistrettoPoint,
        partial: &RistrettoPoint,
        ro: &RandomOracle,
        rng: &mut ThreadRng,
    ) -> (pf: DdhTupleNizk)
        requires
            is_public_of(pt_bytes(*pk), sc_bytes(*x)),
            is_dh_share(pt_bytes(*partial), pt_bytes(*eh), sc_bytes(*x)),
        ensures
            ddh_nizk_valid(ro@, pt_bytes(*eh), pt_bytes(*pk), pt_bytes(*partial), pf@),
    {
        let rho = scalar_rand(rng);
        let a1 = generator_mul(&rho);
        let a2 = point_mul(eh, &rho);
        let c = Self::challenge(eh, pk, partial, &a1, &a2, ro);
        let c_x = scalar_mul(&c, x);
        let z = scalar_add(&rho, &c_x);
        DdhTupleNizk { a1, a2, z }
    }

    /// Rebuilds a proof from its parts, as a deserializer does.
    pub fn from_parts(a1: RistrettoPoint, a2: RistrettoPoint, z: RistrettoScalar) -> (pf:
        DdhTupleNizk)
        ensures
            pf@ == (DdhTupleNizkView { a1: pt_bytes(a1), a2: pt_bytes(a2), z: sc_bytes(z) }),
    {
        DdhTupleNizk { a1, a2, z }
    }

    /// The commitment over the generator.
    pub fn commitment_base(&self) -> (a1: &RistrettoPoint)
        ensures
            pt_bytes(*a1) == self@.a1,
    {
        &self.a1
    }

    /// The commitment over the ephemeral element.
    pub fn commitment_ephemeral(&self) -> (a2: &RistrettoPoint)
        ensures
            pt_bytes(*a2) == self@.a2,
    {
        &self.a2
    }

    /// The response scalar.
    pub fn response(&self) -> (z: &RistrettoScalar)
        ensures
            sc_bytes(*z) == self@.z,
    {
        &self.z
    }

    /// Checks the proof for the statement that `(generator, eh, pk,
    /// partial)` is a Diffie-Hellman tuple, under the same oracle prefix the
    /// prover used.
    pub fn verify(
        &self,
        eh: &RistrettoPoint,
        pk: &RistrettoPoint,
        partial: &RistrettoPoint,
        ro: &RandomOracle,
    ) -> (res: Result<(), Error>)
        ensures
            res is Ok <==> ddh_nizk_valid(
                ro@,
                pt_bytes(*eh),
                pt_bytes(*pk),
                pt_bytes(*partial),
                self@,
            ),
            res is Err ==> res == Err::<(), Error>(Error::InvalidProof),
    {
        let c = Self::challenge(eh, pk, partial, &self.a1, &self.a2, ro);
        let lhs1 = generator_mul(&self.z);
        let pk_c = point_mul(pk, &c);
        let rhs1 = point_add(&self.a1, &pk_c);
        let lhs2 = point_mul(eh, &self.z);
        let partial_c = point_mul(partial, &c);
        let rhs2 = point_add(&self.a2, &partial_c);
        let lhs1_bytes = point_to_bytes(&lhs1);
        let rhs1_bytes = point_to_bytes(&rhs1);
        let lhs2_bytes = point_to_bytes(&lhs2);
        let rhs2_bytes = point_to_bytes(&rhs2);
        if bytes_eq(&lhs1_bytes, &rhs1_bytes) && bytes_eq(&lhs2_bytes, &rhs2_bytes) {
            Ok(())
        } else {
            Err(Error::InvalidProof)
        }
    }
}

} // verus!
