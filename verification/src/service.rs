//! The signing backend: key generation and signing over secp256k1,
//! with the signature carried as base64 text.  Both operations are
//! trusted adapters over the cryptographic crates; everything around
//! them treats a key as an opaque byte sequence and a signature as an
//! opaque function of message and key.

use vstd::prelude::*;
use base64::prelude::{Engine, BASE64_STANDARD};
use k256::ecdsa::signature::Signer;
use k256::ecdsa::{Signature, SigningKey};
use rand_core::OsRng;

verus! {

/// Errors of the signing backend.
#[derive(Clone, Copy, Debug, PartialEq, Eq, Structural)]
pub enum SignServiceError {
    KeyError,
}

/// Whether the signing backend accepts `key` as a well-formed private
/// key: the result of `k256::ecdsa::SigningKey::from_slice(key)` being
/// `Ok`, which depends on the bytes alone.
pub uninterp spec fn key_accepted(key: Seq<u8>) -> bool;

/// The signature text the backend produces for `message` under `key`:
/// deterministic ECDSA (RFC 6979) over secp256k1, base64-encoded, a
/// function of message and key alone.
pub uninterp spec fn signature_of(message: Seq<char>, key: Seq<u8>) -> Seq<char>;

/// Whether the backend's deterministic signing of `message` under an
/// accepted `key` goes through: the result of `try_sign` being `Ok`,
/// which depends on message and key alone.  The source refuses only a
/// zero component in the derived signature, so this fails for at most
/// a negligible set of pairs; it cannot be promised outright.
pub uninterp spec fn signable(message: Seq<char>, key: Seq<u8>) -> bool;

/// The stateless cryptographic adapter.
#[derive(Default)]
pub struct SignService {}

impl SignService {
    /// A fresh private key, drawn from the operating system's random
    /// source.
    ///
    /// Relies on `k256::ecdsa::SigningKey`: `random` draws a nonzero
    /// scalar, `to_bytes` serializes it canonically as 32 bytes, and
    /// `from_slice` accepts that serialization back.
    #[verifier::external_body]
    pub fn generate_key(&self) -> (r: Vec<u8>)
        ensures
            r@.len() == 32,
            key_accepted(r@),
    {
        let signing_key = SigningKey::random(&mut OsRng);
        signing_key.to_bytes().to_vec()
    }

    /// Signs `message` with `key`; fails with `KeyError` if the backend
    /// rejects the key or the signing itself.  Success is owed exactly
    /// when the key parses and the deterministic signing goes through.
    ///
    /// Relies on `k256::ecdsa::SigningKey::from_slice` (accepts exactly
    /// the byte sequences of 24 to 32 bytes that stand for a nonzero
    /// scalar, a shorter-than-32 one left-padded with zeroes; anything
    /// else is rejected), `try_sign` (deterministic per RFC 6979, so
    /// both its success and its signature are functions of message and
    /// key alone), and base64's `BASE64_STANDARD.encode`.
    #[verifier::external_body]
    pub fn sign_message(&self, message: &str, key: &[u8]) -> (r: Result<String, SignServiceError>)
        ensures
            key_accepted(key@) && signable(message@, key@) ==> r is Ok,
            r is Ok ==> key_accepted(key@) && signable(message@, key@),
            r is Ok ==> (r->Ok_0)@ == signature_of(message@, key@),
    {
        let msg = message.as_bytes();
        let signing_key = SigningKey::from_slice(key).map_err(|_| SignServiceError::KeyError)?;
        let signature: Signature = signing_key.try_sign(msg).map_err(
            |_| SignServiceError::KeyError,
        )?;
        Ok(BASE64_STANDARD.encode(signature.to_vec()))
    }
}

} // verus!
