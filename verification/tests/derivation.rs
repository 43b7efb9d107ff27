//! Tests of the key custodian: deterministic derivation and the cache.

use clamor_detach::custodian::{derive_keys, KeyCustodian};

#[test]
fn derive_is_deterministic_across_invocations() {
    let seed = vec![0x55u8; 32];
    let first = derive_keys(&seed).unwrap();
    let second = derive_keys(&seed).unwrap();
    assert_eq!(first.identity_public, second.identity_public);
    assert_eq!(first.ecdsa_seed, second.ecdsa_seed);
    assert_eq!(first.ecdsa_public, second.ecdsa_public);
}

#[test]
fn derive_is_deterministic_across_restarts() {
    // Two custodians over the same keystore stand for the node before and
    // after a restart: the rebuilt cache holds the same derived key.
    let seed = vec![0x55u8; 32];
    let mut before = KeyCustodian::new(vec![seed.clone()]);
    before.ensure_derived();
    let mut after = KeyCustodian::new(vec![seed]);
    after.ensure_derived();
    let publics_before = before.derived_publics();
    let publics_after = after.derived_publics();
    assert_eq!(publics_before.len(), 1);
    assert_eq!(publics_before, publics_after);
}

#[test]
fn distinct_identities_derive_distinct_keys() {
    let a = derive_keys(&vec![1u8; 32]).unwrap();
    let b = derive_keys(&vec![2u8; 32]).unwrap();
    assert_ne!(a.ecdsa_public, b.ecdsa_public);
    assert_eq!(a.ecdsa_public.len(), 33);
    assert_eq!(a.ecdsa_seed.len(), 32);
    assert_eq!(a.identity_public.len(), 32);
}

#[test]
fn ensure_derived_runs_once_per_identity() {
    let mut custodian = KeyCustodian::new(vec![vec![0x10u8; 32], vec![0x20u8; 32]]);
    custodian.ensure_derived();
    assert_eq!(custodian.derived_len(), 2);
    let first_pass = custodian.derived_publics();
    // A second pass finds every identity cached and adds nothing.
    custodian.ensure_derived();
    assert_eq!(custodian.derived_len(), 2);
    assert_eq!(custodian.derived_publics(), first_pass);
}
