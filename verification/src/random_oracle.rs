//! A domain-separated random oracle built from SHA3-512.
//!
//! An oracle is a byte prefix; evaluating it hashes the prefix and the input,
//! each preceded by its big-endian 64-bit length so that distinct pairs of
//! prefix and input never collide as hash inputs. Every logical proof
//! instance must use an oracle with a prefix of its own: the protocol's
//! soundness rests on never reusing one oracle for two distinct proofs.

use vstd::prelude::*;

use crate::symmetric::{u64_be_bytes, u64_to_be_bytes};
use fastcrypto::hash::{HashFunction, Sha3_512};

verus! {

/// Result of the SHA3-512 hash over the given input.
pub uninterp spec fn sha3_512_e(input: Seq<u8>) -> Seq<u8>;

/// A byte string preceded by its big-endian 64-bit length.
pub open spec fn framed_e(part: Seq<u8>) -> Seq<u8> {
    u64_be_bytes(part.len() as u64) + part
}

/// What the oracle with the given prefix returns on the given input.
pub open spec fn ro_eval_e(prefix: Seq<u8>, input: Seq<u8>) -> Seq<u8> {
    sha3_512_e(framed_e(prefix) + framed_e(input))
}

/// Hashes the input with SHA3-512. Relies on fastcrypto's `Sha3_512`
/// (`HashFunction::digest`), a 64-byte digest of the input alone.
#[verifier::external_body]
fn sha3_512_digest(input: &Vec<u8>) -> (out: Vec<u8>)
    ensures
        out@ == sha3_512_e(input@),
        out@.len() == 64,
{
    Sha3_512::digest(input).to_vec()
}

/// Appends every byte of `part` to `buf`.
pub(crate) fn push_all(buf: &mut Vec<u8>, part: &[u8])
    ensures
        final(buf)@ == old(buf)@ + part@,
{
    let mut i: usize = 0;
    while i < part.len()
        invariant
            i <= part@.len(),
            buf@ == old(buf)@ + part@.subrange(0, i as int),
        decreases part@.len() - i,
    {
        buf.push(part[i]);
        proof {
            assert(old(buf)@ + part@.subrange(0, i as int) + seq![part@[i as int]]
                =~= old(buf)@ + part@.subrange(0, i + 1));
        }
        i += 1;
    }
    proof {
        assert(old(buf)@ + part@.subrange(0, part@.len() as int) =~= old(buf)@ + part@);
    }
}

/// Appends `part` preceded by its big-endian 64-bit length.
pub(crate) fn push_framed(buf: &mut Vec<u8>, part: &[u8])
    ensures
        final(buf)@ == old(buf)@ + framed_e(part@),
{
    let len_bytes = u64_to_be_bytes(part.len() as u64);
    push_all(buf, len_bytes.as_slice());
    push_all(buf, part);
    proof {
        assert(old(buf)@ + u64_be_bytes(part@.len() as u64) + part@
            =~= old(buf)@ + framed_e(part@));
    }
}

/// A domain-separated random oracle identified by its prefix.
pub struct RandomOracle {
    prefix: Vec<u8>,
}

impl View for RandomOracle {
    type V = Seq<u8>;

    closed spec fn view(&self) -> Seq<u8> {
        self.prefix@
    }
}

impl RandomOracle {
    /// An oracle with the given prefix. Callers must pick a prefix unique to
    /// the logical proof instance the oracle is used for.
    pub fn new(prefix: Vec<u8>) -> (ro: RandomOracle)
        ensures
            ro@ == prefix@,
    {
        RandomOracle { prefix }
    }

    /// A derived oracle: the prefix extended with a separator byte `0x2d`
    /// (a hyphen) and the given segment.
    pub fn extend(&self, segment: &[u8]) -> (ro: RandomOracle)
        ensures
            ro@ == self@ + seq![0x2du8] + segment@,
    {
        let mut prefix: Vec<u8> = Vec::new();
        push_all(&mut prefix, self.prefix.as_slice());
        prefix.push(0x2du8);
        push_all(&mut prefix, segment);
        proof {
            assert(prefix@ =~= self@ + seq![0x2du8] + segment@);
        }
        RandomOracle { prefix }
    }

    /// The oracle's 64-byte output on the given input.
    pub fn evaluate(&self, input: &[u8]) -> (out: Vec<u8>)
        ensures
            out@ == ro_eval_e(self@, input@),
            out@.len() == 64,
    {
        let mut buf: Vec<u8> = Vec::new();
        push_framed(&mut buf, self.prefix.as_slice());
        push_framed(&mut buf, input);
        proof {
            assert(buf@ =~= framed_e(self@) + framed_e(input@));
        }
        sha3_512_digest(&buf)
    }
}

} // verus!
