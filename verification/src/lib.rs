//! Hybrid encryption over the ristretto255 group, in the ECIES style:
//! single-recipient encryption, batched multi-recipient encryption carrying
//! one amortized proof of knowledge, and verifiable recovery packages that
//! let a key holder prove a partial decryption correct without revealing
//! the private key.
//!
//! The group arithmetic, the key-derivation function and the keystream
//! cipher come from the `fastcrypto` crate through a small trusted
//! interface; everything layered on top of that interface is verified.

use vstd::prelude::*;

pub mod group;
pub mod symmetric;
pub mod random_oracle;
pub mod nizk;
pub mod ecies;

verus! {

/// The recoverable failures of this library: a malformed input (an
/// out-of-range index, an empty ciphertext entry) or a zero-knowledge proof
/// that does not check.
#[derive(Debug, Clone, Copy, PartialEq, Eq, Structural)]
pub enum Error {
    InvalidInput,
    InvalidProof,
}

} // verus!
