//! Trusted bindings to the cryptographic primitives: SHA-256 digests
//! and secp256k1 ECDSA key generation and signature verification.
//!
//! Each function here is believed, not proved: its contract states what
//! the named outside functions are documented to do, and the rest of
//! the crate is verified against these contracts.

use vstd::prelude::*;

verus! {

/// The SHA-256 digest of a byte string. The digest is a function of
/// the input alone; its 32-byte length is stated where it is computed.
pub uninterp spec fn sha256_of(data: Seq<u8>) -> Seq<u8>;

/// Relies on `sha2::Sha256::digest`: the digest is 32 bytes and
/// depends on the input bytes alone.
#[verifier::external_body]
pub fn sha256(data: &Vec<u8>) -> (r: Vec<u8>)
    ensures
        r@ == sha256_of(data@),
        r@.len() == 32,
{
    <sha2::Sha256 as sha2::Digest>::digest(data.as_slice()).to_vec()
}

/// Whether `sig` is a valid compact-encoded ECDSA signature over the
/// 32-byte digest `digest` by the key whose compressed encoding is
/// `pubkey`. False whenever the key bytes, the digest length, or the
/// signature encoding is malformed. A function of the three byte
/// strings alone.
pub uninterp spec fn sig_ok(pubkey: Seq<u8>, digest: Seq<u8>, sig: Seq<u8>) -> bool;

/// Relies on secp256k1: `PublicKey::from_slice`,
/// `Message::from_digest_slice`, `ecdsa::Signature::from_compact` and
/// `Secp256k1::verify_ecdsa`. Each step is deterministic in its
/// argument bytes, so the verdict is a function of the three byte
/// strings; any parse failure or cryptographic mismatch yields false.
#[verifier::external_body]
pub fn verify_signature(pubkey: &Vec<u8>, digest: &Vec<u8>, sig: &Vec<u8>) -> (r: bool)
    ensures
        r == sig_ok(pubkey@, digest@, sig@),
{
    let secp = secp256k1::Secp256k1::verification_only();
    let pk = match secp256k1::PublicKey::from_slice(pubkey.as_slice()) {
        Ok(k) => k,
        Err(_) => return false,
    };
    let msg = match secp256k1::Message::from_digest_slice(digest.as_slice()) {
        Ok(m) => m,
        Err(_) => return false,
    };
    let sig = match secp256k1::ecdsa::Signature::from_compact(sig.as_slice()) {
        Ok(s) => s,
        Err(_) => return false,
    };
    secp.verify_ecdsa(&msg, &sig, &pk).is_ok()
}

/// The 33-byte compressed encoding of the secp256k1 public key that
/// belongs to the 32-byte secret scalar `sk`: what
/// `PublicKey::from_secret_key` derives, a function of the scalar
/// alone.
pub uninterp spec fn pubkey_of(sk: Seq<u8>) -> Seq<u8>;

/// Relies on secp256k1's `Secp256k1::generate_keypair` with the
/// operating-system randomness source (`rand::rngs::OsRng`), on
/// `PublicKey::serialize` (33-byte compressed encoding) and on
/// `SecretKey::secret_bytes` (32-byte scalar). The secret scalar is
/// random, so nothing is stated of its value; the returned identity
/// is the public key that `PublicKey::from_secret_key` derives from
/// that scalar, which depends on the scalar alone and is named
/// `pubkey_of`. Failure of the randomness source panics rather than
/// returns.
#[verifier::external_body]
pub fn generate_keypair() -> (r: (Vec<u8>, Vec<u8>))
    ensures
        r.0@.len() == 33,
        r.1@.len() == 32,
        r.0@ == pubkey_of(r.1@),
{
    let secp = secp256k1::Secp256k1::new();
    let (secret_key, public_key) = secp.generate_keypair(&mut rand::rngs::OsRng);
    (public_key.serialize().to_vec(), secret_key.secret_bytes().to_vec())
}

} // verus!
