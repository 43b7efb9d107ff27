//! Known-answer and honesty tests for the cryptographic wrappers.

use clamor_detach::crypto::{
    ecdsa_public_from_seed, ecdsa_sign_prehashed, ed25519_public, ed25519_sign, ed25519_verify,
    keccak_256,
};

#[test]
fn keccak_256_empty_input_known_digest() {
    let digest = keccak_256(&Vec::new());
    assert_eq!(
        digest,
        hex::decode("c5d2460186f7233c927e7db2dcc703c0e500b653ca82273b7bfad8045d85a470").unwrap()
    );
}

#[test]
fn keccak_256_distinct_inputs_distinct_digests() {
    let a = keccak_256(&vec![1u8, 2, 3]);
    let b = keccak_256(&vec![1u8, 2, 4]);
    assert_eq!(a.len(), 32);
    assert_eq!(b.len(), 32);
    assert_ne!(a, b);
}

#[test]
fn ed25519_public_rfc8032_test_vector() {
    let seed =
        hex::decode("9d61b19deffd5a60ba844af492ec2cc44449c5697b326919703bac031cae7f60").unwrap();
    let public = ed25519_public(&seed);
    assert_eq!(
        public,
        hex::decode("d75a980182b10ab7d54bfed3c964073a0ee172f3daa62325af021a68f707511a").unwrap()
    );
}

#[test]
fn ed25519_sign_verifies_under_own_key() {
    let seed = vec![7u8; 32];
    let public = ed25519_public(&seed);
    let msg = b"a message to authenticate".to_vec();
    let sig = ed25519_sign(&seed, &msg);
    assert_eq!(sig.len(), 64);
    assert!(ed25519_verify(&public, &msg, &sig));
}

#[test]
fn ed25519_verify_rejects_tampered_signature() {
    let seed = vec![7u8; 32];
    let public = ed25519_public(&seed);
    let msg = b"a message to authenticate".to_vec();
    let mut sig = ed25519_sign(&seed, &msg);
    sig[10] ^= 0x01;
    assert!(!ed25519_verify(&public, &msg, &sig));
}

#[test]
fn ed25519_verify_rejects_wrong_message() {
    let seed = vec![9u8; 32];
    let public = ed25519_public(&seed);
    let sig = ed25519_sign(&seed, &b"first".to_vec());
    assert!(!ed25519_verify(&public, &b"second".to_vec(), &sig));
}

#[test]
fn ed25519_verify_rejects_malformed_key_and_signature() {
    let seed = vec![3u8; 32];
    let public = ed25519_public(&seed);
    let msg = b"msg".to_vec();
    let sig = ed25519_sign(&seed, &msg);
    assert!(!ed25519_verify(&vec![0u8; 31], &msg, &sig));
    assert!(!ed25519_verify(&public, &msg, &vec![0u8; 63]));
}

#[test]
fn ecdsa_public_from_seed_generator_point() {
    let mut seed = vec![0u8; 31];
    seed.push(1u8);
    let public = ecdsa_public_from_seed(&seed).unwrap();
    assert_eq!(
        public,
        hex::decode("0279be667ef9dcbbac55a06295ce870b07029bfcdb2dce28d959f2815b16f81798")
            .unwrap()
    );
}

#[test]
fn ecdsa_public_from_seed_rejects_invalid_scalar() {
    assert!(ecdsa_public_from_seed(&vec![0u8; 32]).is_none());
    assert!(ecdsa_public_from_seed(&vec![0xffu8; 32]).is_none());
    assert!(ecdsa_public_from_seed(&vec![1u8; 5]).is_none());
}

#[test]
fn ecdsa_sign_prehashed_is_deterministic_and_bounded() {
    let seed = vec![0x42u8; 32];
    let prehash = keccak_256(&b"payload".to_vec());
    let sig1 = ecdsa_sign_prehashed(&seed, &prehash).unwrap();
    let sig2 = ecdsa_sign_prehashed(&seed, &prehash).unwrap();
    assert_eq!(sig1, sig2);
    assert_eq!(sig1.len(), 65);
    assert!(sig1[64] <= 3);
}

#[test]
fn ecdsa_sign_prehashed_recovers_to_signing_key() {
    let seed = vec![0x42u8; 32];
    let prehash = keccak_256(&b"recoverable".to_vec());
    let sig = ecdsa_sign_prehashed(&seed, &prehash).unwrap();
    let expected_public = ecdsa_public_from_seed(&seed).unwrap();

    let signature = k256::ecdsa::Signature::from_slice(&sig[..64]).unwrap();
    let recovery_id = k256::ecdsa::RecoveryId::from_byte(sig[64]).unwrap();
    let recovered =
        k256::ecdsa::VerifyingKey::recover_from_prehash(&prehash, &signature, recovery_id)
            .unwrap();
    assert_eq!(recovered.to_sec1_bytes().to_vec(), expected_public);
}
