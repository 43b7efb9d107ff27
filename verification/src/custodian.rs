//! The node-local key custodian. It holds the worker's ed25519 identity
//! seeds and derives, per identity, a deterministic external-chain
//! (secp256k1) signing key: the identity signs a fixed domain-separation
//! message, the keccak-256 digest of that signature is the derived key's
//! seed. Derivation is cached so it runs at most once per identity; since
//! every step is a deterministic function of the identity seed alone, a
//! cache entry always equals what a fresh derivation would yield.

use vstd::prelude::*;

use crate::bytes::{bytes_clone, bytes_eq};
use crate::crypto::{
    ecdsa_pub_of, ecdsa_public_from_seed, ed25519_pub_of, ed25519_public, ed25519_sig_of,
    ed25519_sign, keccak256_of, keccak_256,
};

verus! {

/// The fixed domain-separation message an identity key signs to derive its
/// external-chain key: the byte string `"fragments-frag-ecdsa-keys"`.
pub open spec fn derivation_domain() -> Seq<u8> {
    seq![
        0x66u8, 0x72, 0x61, 0x67, 0x6d, 0x65, 0x6e, 0x74, 0x73, 0x2d, 0x66, 0x72, 0x61, 0x67,
        0x2d, 0x65, 0x63, 0x64, 0x73, 0x61, 0x2d, 0x6b, 0x65, 0x79, 0x73,
    ]
}

pub fn derivation_domain_message() -> (r: Vec<u8>)
    ensures
        r@ == derivation_domain(),
{
    let mut r: Vec<u8> = Vec::new();
    r.push(0x66u8);
    r.push(0x72u8);
    r.push(0x61u8);
    r.push(0x67u8);
    r.push(0x6du8);
    r.push(0x65u8);
    r.push(0x6eu8);
    r.push(0x74u8);
    r.push(0x73u8);
    r.push(0x2du8);
    r.push(0x66u8);
    r.push(0x72u8);
    r.push(0x61u8);
    r.push(0x67u8);
    r.push(0x2du8);
    r.push(0x65u8);
    r.push(0x63u8);
    r.push(0x64u8);
    r.push(0x73u8);
    r.push(0x61u8);
    r.push(0x2du8);
    r.push(0x6bu8);
    r.push(0x65u8);
    r.push(0x79u8);
    r.push(0x73u8);
    proof {
        assert(r@ =~= derivation_domain());
    }
    r
}

/// The seed of the derived external-chain key: the keccak-256 digest of the
/// identity's signature over the domain-separation message.
pub open spec fn derive_seed_spec(identity_seed: Seq<u8>) -> Seq<u8> {
    keccak256_of(ed25519_sig_of(identity_seed, derivation_domain()))
}

/// The derived external-chain public key of an identity, if the derived seed
/// is a valid key.
pub open spec fn derive_pub_spec(identity_seed: Seq<u8>) -> Option<Seq<u8>> {
    ecdsa_pub_of(derive_seed_spec(identity_seed))
}

/// One cached derivation: an identity and the external-chain key it derives.
pub struct DerivedKey {
    /// The 32-byte ed25519 identity seed.
    pub identity_seed: Vec<u8>,
    /// The identity's public key.
    pub identity_public: Vec<u8>,
    /// The derived secp256k1 secret seed.
    pub ecdsa_seed: Vec<u8>,
    /// The derived secp256k1 public key (33-byte compressed form).
    pub ecdsa_public: Vec<u8>,
}

#[verifier::ext_equal]
pub struct DerivedKeyV {
    pub identity_seed: Seq<u8>,
    pub identity_public: Seq<u8>,
    pub ecdsa_seed: Seq<u8>,
    pub ecdsa_public: Seq<u8>,
}

impl View for DerivedKey {
    type V = DerivedKeyV;

    open spec fn view(&self) -> DerivedKeyV {
        DerivedKeyV {
            identity_seed: self.identity_seed@,
            identity_public: self.identity_public@,
            ecdsa_seed: self.ecdsa_seed@,
            ecdsa_public: self.ecdsa_public@,
        }
    }
}

/// A cache entry is exactly what derivation yields for its identity.
pub open spec fn derived_wf(d: DerivedKeyV) -> bool {
    &&& d.identity_seed.len() == 32
    &&& d.identity_public == ed25519_pub_of(d.identity_seed)
    &&& d.ecdsa_seed == derive_seed_spec(d.identity_seed)
    &&& derive_pub_spec(d.identity_seed) == Some(d.ecdsa_public)
}

/// Derive the external-chain key of one identity. The result is a function
/// of the identity seed alone, so repeated invocations — in this process or
/// after a restart — yield the same key.
pub fn derive_keys(identity_seed: &Vec<u8>) -> (r: Option<DerivedKey>)
    requires
        identity_seed@.len() == 32,
    ensures
        match r {
            Some(d) => d@.identity_seed == identity_seed@ && derived_wf(d@),
            None => derive_pub_spec(identity_seed@) is None,
        },
{
    let domain = derivation_domain_message();
    let signature = ed25519_sign(identity_seed, &domain);
    let ecdsa_seed = keccak_256(&signature);
    match ecdsa_public_from_seed(&ecdsa_seed) {
        Some(ecdsa_public) => {
            let identity_public = ed25519_public(identity_seed);
            Some(
                DerivedKey {
                    identity_seed: bytes_clone(identity_seed),
                    identity_public,
                    ecdsa_seed,
                    ecdsa_public,
                },
            )
        },
        None => None,
    }
}

/// Whether the cache holds an entry for an identity.
pub open spec fn cache_covers(derived: Seq<DerivedKeyV>, identity: Seq<u8>) -> bool {
    exists|j: int| 0 <= j < derived.len() && (#[trigger] derived[j]).identity_seed == identity
}

/// Whether a seed is one of the node's local identities.
pub open spec fn is_local_identity(identities: Seq<Seq<u8>>, seed: Seq<u8>) -> bool {
    exists|i: int| 0 <= i < identities.len() && identities[i] == seed
}

pub struct CustodianView {
    /// The local identity seeds, in keystore order.
    pub identities: Seq<Seq<u8>>,
    /// The derivation cache, in derivation order.
    pub derived: Seq<DerivedKeyV>,
}

/// The node-local custodian: identity seeds plus the derivation cache.
pub struct KeyCustodian {
    identities: Vec<Vec<u8>>,
    derived: Vec<DerivedKey>,
}

impl View for KeyCustodian {
    type V = CustodianView;

    closed spec fn view(&self) -> CustodianView {
        CustodianView {
            identities: self.identities@.map_values(|v: Vec<u8>| v@),
            derived: self.derived@.map_values(|d: DerivedKey| d@),
        }
    }
}

impl KeyCustodian {
    /// Every identity seed is 32 bytes and every cache entry is a faithful
    /// derivation.
    pub open spec fn wf(&self) -> bool {
        &&& forall|i: int| 0 <= i < self@.identities.len() ==> self@.identities[i].len() == 32
        &&& forall|j: int| 0 <= j < self@.derived.len() ==> derived_wf(#[trigger] self@.derived[j])
    }

    /// A custodian holding the node's identity seeds, with an empty cache.
    pub fn new(identities: Vec<Vec<u8>>) -> (r: KeyCustodian)
        requires
            forall|i: int| 0 <= i < identities@.len() ==> identities@[i]@.len() == 32,
        ensures
            r.wf(),
            r@.identities == identities@.map_values(|v: Vec<u8>| v@),
            r@.derived == Seq::<DerivedKeyV>::empty(),
    {
        let r = KeyCustodian { identities, derived: Vec::new() };
        proof {
            assert(r@.derived =~= Seq::<DerivedKeyV>::empty());
        }
        r
    }

    /// Whether the cache already holds a derivation for `identity_seed`.
    fn is_cached(&self, identity_seed: &Vec<u8>) -> (r: bool)
        ensures
            r == cache_covers(self@.derived, identity_seed@),
    {
        let n = self.derived.len();
        let mut j: usize = 0;
        while j < n
            invariant
                n == self.derived@.len(),
                j <= n,
                forall|m: int|
                    0 <= m < j ==> (#[trigger] self@.derived[m]).identity_seed != identity_seed@,
            decreases n - j,
        {
            if bytes_eq(&self.derived[j].identity_seed, identity_seed) {
                assert(self@.derived[j as int].identity_seed == identity_seed@);
                return true;
            }
            j += 1;
        }
        false
    }

    /// Run derivation for every local identity that has no cache entry yet.
    /// Existing entries are kept unchanged; afterwards every identity whose
    /// derivation succeeds is cached.
    pub fn ensure_derived(&mut self)
        requires
            old(self).wf(),
        ensures
            final(self).wf(),
            final(self)@.identities == old(self)@.identities,
            final(self)@.derived.take(old(self)@.derived.len() as int) == old(self)@.derived,
            forall|i: int|
                #![trigger final(self)@.identities[i]]
                0 <= i < final(self)@.identities.len() && derive_pub_spec(
                    final(self)@.identities[i],
                ) is Some ==> cache_covers(final(self)@.derived, final(self)@.identities[i]),
            forall|j: int|
                #![trigger final(self)@.derived[j]]
                old(self)@.derived.len() <= j < final(self)@.derived.len() ==> is_local_identity(
                    final(self)@.identities,
                    final(self)@.derived[j].identity_seed,
                ),
    {
        let n = self.identities.len();
        let ghost original = self@;
        let mut i: usize = 0;
        while i < n
            invariant
                self.wf(),
                n == self.identities@.len(),
                i <= n,
                self@.identities == original.identities,
                self@.derived.take(original.derived.len() as int) == original.derived,
                original.derived.len() <= self@.derived.len(),
                forall|k: int|
                    #![trigger self@.identities[k]]
                    0 <= k < i && derive_pub_spec(self@.identities[k]) is Some ==> cache_covers(
                        self@.derived,
                        self@.identities[k],
                    ),
                forall|j: int|
                    #![trigger self@.derived[j]]
                    original.derived.len() <= j < self@.derived.len() ==> is_local_identity(
                        self@.identities,
                        self@.derived[j].identity_seed,
                    ),
            decreases n - i,
        {
            let identity = bytes_clone(&self.identities[i]);
            proof {
                assert(identity@ == self@.identities[i as int]);
            }
            if !self.is_cached(&identity) {
                match derive_keys(&identity) {
                    Some(entry) => {
                        let ghost before = self@.derived;
                        self.derived.push(entry);
                        proof {
                            assert(self@.derived =~= before.push(entry@));
                            assert(self@.derived.take(original.derived.len() as int)
                                =~= original.derived);
                            assert(self@.derived[self@.derived.len() - 1].identity_seed
                                == self@.identities[i as int]);
                            assert forall|k: int|
                                0 <= k < i + 1 && derive_pub_spec(
                                    #[trigger] self@.identities[k],
                                ) is Some implies cache_covers(
                                self@.derived,
                                self@.identities[k],
                            ) by {
                                if k < i {
                                    let j = choose|j: int|
                                        0 <= j < before.len() && (#[trigger] before[j]).identity_seed
                                            == self@.identities[k];
                                    assert(self@.derived[j].identity_seed == self@.identities[k]);
                                }
                            }
                            assert forall|j2: int|
                                original.derived.len() <= j2 < self@.derived.len() implies
                                is_local_identity(
                                    self@.identities,
                                    (#[trigger] self@.derived[j2]).identity_seed,
                                ) by {
                                if j2 < before.len() {
                                    assert(self@.derived[j2] == before[j2]);
                                } else {
                                    assert(self@.derived[j2].identity_seed == self@.identities[
                                        i as int
                                    ]);
                                }
                            }
                        }
                    },
                    None => {},
                }
            }
            i += 1;
        }
    }

    /// The locally held derived external-chain public keys, in cache order.
    pub fn derived_publics(&self) -> (r: Vec<Vec<u8>>)
        ensures
            r@.len() == self@.derived.len(),
            forall|j: int|
                0 <= j < r@.len() ==> r@[j]@ == (#[trigger] self@.derived[j]).ecdsa_public,
    {
        let n = self.derived.len();
        let mut r: Vec<Vec<u8>> = Vec::new();
        let mut j: usize = 0;
        while j < n
            invariant
                n == self.derived@.len(),
                j <= n,
                r@.len() == j,
                forall|m: int|
                    0 <= m < j ==> r@[m]@ == (#[trigger] self@.derived[m]).ecdsa_public,
            decreases n - j,
        {
            r.push(bytes_clone(&self.derived[j].ecdsa_public));
            j += 1;
        }
        r
    }

    /// The cache entry at an index.
    pub fn derived_at(&self, j: usize) -> (r: &DerivedKey)
        requires
            j < self@.derived.len(),
        ensures
            r@ == self@.derived[j as int],
    {
        &self.derived[j]
    }

    /// The number of cached derivations.
    pub fn derived_len(&self) -> (r: usize)
        ensures
            r == self@.derived.len(),
    {
        self.derived.len()
    }
}

} // verus!
