//! Trusted wrappers around the cryptographic primitives the detach subsystem
//! uses: keccak-256 digests, ed25519 identity signatures, and secp256k1
//! (Ethereum-style) recoverable ECDSA signatures.
//!
//! Each primitive's result is a pure function of its arguments (the digest and
//! both signature schemes are deterministic), so each gets an uninterpreted
//! spec-level name that the wrapper's contract ties to the call's result.

use ed25519_dalek::Signer;
use vstd::prelude::*;

verus! {

/// The keccak-256 digest of a byte string; always 32 bytes.
pub uninterp spec fn keccak256_of(data: Seq<u8>) -> Seq<u8>;

/// The ed25519 verifying (public) key belonging to a 32-byte secret seed.
pub uninterp spec fn ed25519_pub_of(seed: Seq<u8>) -> Seq<u8>;

/// The ed25519 signature produced by the key with seed `seed` over `msg`;
/// ed25519 signing (RFC 8032) is deterministic, so this is a function of the
/// two arguments alone. Always 64 bytes.
pub uninterp spec fn ed25519_sig_of(seed: Seq<u8>, msg: Seq<u8>) -> Seq<u8>;

/// Whether ed25519 verification accepts `sig` as a signature by the key
/// `pk` over `msg`. Total over byte strings: a malformed key or signature
/// never verifies.
pub uninterp spec fn ed25519_verifies(pk: Seq<u8>, msg: Seq<u8>, sig: Seq<u8>) -> bool;

/// The compressed (33-byte SEC1) secp256k1 public key derived from a seed,
/// or `None` when the seed is not a valid non-zero scalar.
pub uninterp spec fn ecdsa_pub_of(seed: Seq<u8>) -> Option<Seq<u8>>;

/// The 65-byte recoverable secp256k1 ECDSA signature (r ‖ s ‖ recovery id)
/// over a 32-byte prehash, or `None` when the seed is not a valid key.
/// Signing uses RFC 6979 deterministic nonces, so the result is a function
/// of the two arguments alone.
pub uninterp spec fn ecdsa_sig_of(seed: Seq<u8>, prehash: Seq<u8>) -> Option<Seq<u8>>;

/// Relies on tiny_keccak's `Keccak::v256`: the keccak-256 digest, 32 bytes,
/// a deterministic function of the input bytes.
#[verifier::external_body]
pub fn keccak_256(data: &Vec<u8>) -> (r: Vec<u8>)
    ensures
        r@ == keccak256_of(data@),
        r@.len() == 32,
{
    let mut hasher = tiny_keccak::Keccak::v256();
    tiny_keccak::Hasher::update(&mut hasher, data.as_slice());
    let mut out = [0u8; 32];
    tiny_keccak::Hasher::finalize(hasher, &mut out);
    out.to_vec()
}

/// Relies on ed25519_dalek's `SigningKey::verifying_key`: the 32-byte public
/// key is derived deterministically from the 32-byte secret seed.
#[verifier::external_body]
pub fn ed25519_public(seed: &Vec<u8>) -> (r: Vec<u8>)
    requires
        seed@.len() == 32,
    ensures
        r@ == ed25519_pub_of(seed@),
        r@.len() == 32,
{
    let seed_bytes: [u8; 32] = seed.as_slice().try_into().unwrap();
    let sk = ed25519_dalek::SigningKey::from_bytes(&seed_bytes);
    sk.verifying_key().to_bytes().to_vec()
}

/// Relies on ed25519_dalek's `SigningKey::sign` (RFC 8032): the 64-byte
/// signature is deterministic in seed and message, and verifies under the
/// signer's own public key.
#[verifier::external_body]
pub fn ed25519_sign(seed: &Vec<u8>, msg: &Vec<u8>) -> (r: Vec<u8>)
    requires
        seed@.len() == 32,
    ensures
        r@ == ed25519_sig_of(seed@, msg@),
        r@.len() == 64,
        ed25519_verifies(ed25519_pub_of(seed@), msg@, r@),
{
    let seed_bytes: [u8; 32] = seed.as_slice().try_into().unwrap();
    let sk = ed25519_dalek::SigningKey::from_bytes(&seed_bytes);
    sk.sign(msg.as_slice()).to_bytes().to_vec()
}

/// Relies on ed25519_dalek's `VerifyingKey::verify`: deterministic in key,
/// message and signature; a malformed key or signature is rejected.
#[verifier::external_body]
pub fn ed25519_verify(pk: &Vec<u8>, msg: &Vec<u8>, sig: &Vec<u8>) -> (r: bool)
    ensures
        r == ed25519_verifies(pk@, msg@, sig@),
{
    let pk_bytes: [u8; 32] = match pk.as_slice().try_into() {
        Ok(b) => b,
        Err(_) => return false,
    };
    let sig_bytes: [u8; 64] = match sig.as_slice().try_into() {
        Ok(b) => b,
        Err(_) => return false,
    };
    match ed25519_dalek::VerifyingKey::from_bytes(&pk_bytes) {
        Ok(vk) => {
            let signature = ed25519_dalek::Signature::from_bytes(&sig_bytes);
            ed25519_dalek::Verifier::verify(&vk, msg.as_slice(), &signature).is_ok()
        },
        Err(_) => false,
    }
}

/// Relies on k256's `SigningKey::from_slice` and `VerifyingKey::to_sec1_bytes`:
/// a valid seed yields the 33-byte compressed SEC1 public key, an invalid
/// scalar yields an error.
#[verifier::external_body]
pub fn ecdsa_public_from_seed(seed: &Vec<u8>) -> (r: Option<Vec<u8>>)
    ensures
        r is Some <==> ecdsa_pub_of(seed@) is Some,
        r is Some ==> r.unwrap()@ == ecdsa_pub_of(seed@).unwrap(),
        r is Some ==> r.unwrap()@.len() == 33,
{
    match k256::ecdsa::SigningKey::from_slice(seed.as_slice()) {
        Ok(sk) => Some(sk.verifying_key().to_sec1_bytes().to_vec()),
        Err(_) => None,
    }
}

/// Relies on k256's `SigningKey::sign_prehash_recoverable` (RFC 6979,
/// deterministic): returns r ‖ s (64 bytes) followed by the recovery id,
/// which the `ecdsa` crate bounds by `RecoveryId::MAX == 3`.
#[verifier::external_body]
pub fn ecdsa_sign_prehashed(seed: &Vec<u8>, prehash: &Vec<u8>) -> (r: Option<Vec<u8>>)
    requires
        prehash@.len() == 32,
    ensures
        r is Some <==> ecdsa_sig_of(seed@, prehash@) is Some,
        r is Some ==> r.unwrap()@ == ecdsa_sig_of(seed@, prehash@).unwrap(),
        r is Some ==> r.unwrap()@.len() == 65 && r.unwrap()@[64] <= 3,
{
    match k256::ecdsa::SigningKey::from_slice(seed.as_slice()) {
        Ok(sk) => {
            let (sig, recid) = sk.sign_prehash_recoverable(prehash.as_slice());
            let mut out = sig.to_bytes().to_vec();
            out.push(u8::from(recid));
            Some(out)
        },
        Err(_) => None,
    }
}

} // verus!
