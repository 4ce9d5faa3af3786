//! A proxy signature scheme with single-use delegation tokens, over the
//! Grumpkin curve.
//!
//! A delegator holding a long-term key authorizes a proxy by minting
//! single-use tokens rather than sharing its secret. Each token lets the
//! proxy produce one signature, verifiable under the delegator's public key.
//! The delegator can revoke tokens it never wants honored, and every
//! successfully verified signature is automatically treated as spent, so the
//! same token never verifies twice against a shared revocation state.
//!
//! The engine is a two-layer Schnorr construction: the inner layer proves
//! knowledge of the long-term secret and binds it to a fresh nonce; its
//! response doubles as a one-time secret key under which the outer layer
//! signs the real message. Group and field arithmetic, the transcript hash,
//! and the random source are consumed from outside crates through a small set
//! of trusted wrappers; everything built on them — the protocol operations,
//! the challenge transcripts, the revocation state machine and the scheme's
//! completeness, single-use and revocation laws — is verified.

pub mod an23_proxy_signature;
pub mod codec;
pub mod field;
pub mod group;
pub mod noir_utils;
pub mod transcript;

use vstd::prelude::*;

verus! {

/// Errors reported by the proxy signature scheme.
///
/// A cryptographically invalid signature is not an error: `verify` reports it
/// as `Ok(false)`. Errors are reserved for policy violations and malformed or
/// missing inputs.
#[derive(Clone, Copy, Debug, PartialEq, Eq, Structural)]
pub enum Error {
    /// Group or parameter instantiation failed.
    SetupFailed,
    /// `delegated_sign` was called against an empty token pool.
    NoDelegationToken,
    /// `verify` met a nonce that is already in the revocation state.
    UseOfRevokedToken,
    /// Reserved for malformed signatures met upstream of the engine.
    InvalidSignature,
    /// Reserved for malformed tokens met upstream of the engine.
    InvalidToken,
    /// Reserved for delegation failures met upstream of the engine.
    DelegationFailed,
}

/// Copies a byte vector element by element.
pub(crate) fn copy_bytes(v: &Vec<u8>) -> (r: Vec<u8>)
    ensures
        r@ == v@,
{
    let mut r: Vec<u8> = Vec::new();
    let mut i: usize = 0;
    while i < v.len()
        invariant
            0 <= i <= v@.len(),
            r@ == v@.subrange(0, i as int),
        decreases v@.len() - i,
    {
        r.push(v[i]);
        i = i + 1;
        proof {
            assert(r@ =~= v@.subrange(0, i as int));
        }
    }
    proof {
        assert(r@ =~= v@);
    }
    r
}

} // verus!
