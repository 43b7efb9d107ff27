//! The consensus-side state machine of the detach subsystem: the admin-managed
//! key registries, the per-block request queue, the permanent export records,
//! the replay-protection counters, and the admission and execution of
//! finalizations.
//!
//! Every dispatchable is specified by a pure transition function over
//! `PalletView`; the executable method's contract equates its effect with
//! that transition.

use vstd::prelude::*;

use crate::crypto::ed25519_verifies;
use crate::bytes::bytes_clone;
use crate::keyset::{keys_of, KeySet};
use crate::maps::{ExportMap, NonceMap};
use crate::payload::{enc_finalization, encode_finalization};
use crate::types::{
    Call, CallV, DetachInternalData, DetachInternalDataV, DetachRequest, DetachRequestV,
    DispatchError, Error, Event, EventV, ExportData, ExportDataV, FragmentOwner, FragmentOwnerV,
    InvalidTransaction, Origin, SupportedChains, ValidTransaction, ValidTransactionV,
};

verus! {

/// The mathematical state of the pallet.
#[verifier::ext_equal]
pub struct PalletView {
    /// The current block's pending detach requests, in submission order.
    pub detach_requests: Seq<DetachRequestV>,
    /// The permanent export records, keyed by asset hash.
    pub detached_fragments: Map<Seq<u8>, ExportDataV>,
    /// The replay-protection counters, keyed by (target account, target chain).
    pub detach_nonces: Map<(Seq<u8>, SupportedChains), u64>,
    /// The trusted external-chain signing keys.
    pub ethereum_authorities: Set<Seq<u8>>,
    /// The trusted worker identity keys.
    pub frag_keys: Set<Seq<u8>>,
    /// The events deposited so far, in order.
    pub events: Seq<EventV>,
}

impl PalletView {
    /// The state holding nothing at all.
    pub open spec fn initial() -> PalletView {
        PalletView {
            detach_requests: Seq::empty(),
            detached_fragments: Map::empty(),
            detach_nonces: Map::empty(),
            ethereum_authorities: Set::empty(),
            frag_keys: Set::empty(),
            events: Seq::empty(),
        }
    }
}

/// Add a trusted external-chain key; root only.
pub open spec fn spec_add_eth_auth(s: PalletView, origin: Origin, public: Seq<u8>) -> (
    PalletView,
    Result<(), DispatchError>,
) {
    if origin is Root {
        (
            PalletView { ethereum_authorities: s.ethereum_authorities.insert(public), ..s },
            Ok(()),
        )
    } else {
        (s, Err(DispatchError::BadOrigin))
    }
}

/// Remove a trusted external-chain key; root only.
pub open spec fn spec_del_eth_auth(s: PalletView, origin: Origin, public: Seq<u8>) -> (
    PalletView,
    Result<(), DispatchError>,
) {
    if origin is Root {
        (
            PalletView { ethereum_authorities: s.ethereum_authorities.remove(public), ..s },
            Ok(()),
        )
    } else {
        (s, Err(DispatchError::BadOrigin))
    }
}

/// Add a trusted worker identity key; root only.
pub open spec fn spec_add_key(s: PalletView, origin: Origin, public: Seq<u8>) -> (
    PalletView,
    Result<(), DispatchError>,
) {
    if origin is Root {
        (PalletView { frag_keys: s.frag_keys.insert(public), ..s }, Ok(()))
    } else {
        (s, Err(DispatchError::BadOrigin))
    }
}

/// Remove a trusted worker identity key; root only.
pub open spec fn spec_del_key(s: PalletView, origin: Origin, public: Seq<u8>) -> (
    PalletView,
    Result<(), DispatchError>,
) {
    if origin is Root {
        (PalletView { frag_keys: s.frag_keys.remove(public), ..s }, Ok(()))
    } else {
        (s, Err(DispatchError::BadOrigin))
    }
}

/// Queue a detach request. Requires a signed origin; the signer must be the
/// asset's recorded owner (an external asset can never be detached); the
/// asset must not already have an export record. On success the request is
/// appended to the current block's queue.
pub open spec fn spec_detach(
    s: PalletView,
    origin: Origin,
    fragment_hash: Seq<u8>,
    target_chain: SupportedChains,
    target_account: Seq<u8>,
    owner: FragmentOwnerV,
) -> (PalletView, Result<(), DispatchError>) {
    match origin {
        Origin::Signed(who) => {
            let authorized = match owner {
                FragmentOwnerV::User(o) => o == who,
                FragmentOwnerV::ExternalAsset(_) => false,
            };
            if !authorized {
                (s, Err(DispatchError::Module(Error::Unauthorized)))
            } else if s.detached_fragments.contains_key(fragment_hash) {
                (s, Err(DispatchError::Module(Error::FragmentDetached)))
            } else {
                (
                    PalletView {
                        detach_requests: s.detach_requests.push(
                            DetachRequestV { fragment_hash, target_chain, target_account },
                        ),
                        ..s
                    },
                    Ok(()),
                )
            }
        },
        _ => (s, Err(DispatchError::BadOrigin)),
    }
}

/// Drain the block's request queue. A non-empty queue is taken whole and
/// handed to the node-local batch slot; an empty queue leaves no batch.
pub open spec fn spec_on_finalize(s: PalletView) -> (PalletView, Option<Seq<DetachRequestV>>) {
    if s.detach_requests.len() == 0 {
        (s, None)
    } else {
        (PalletView { detach_requests: Seq::empty(), ..s }, Some(s.detach_requests))
    }
}

/// Execute an admitted finalization. Requires the unsigned origin. The
/// replay counter of (target account, target chain) is overwritten with the
/// carried nonce, the export record is written under the asset hash, and a
/// `Detached` event carrying the remote signature is deposited.
///
/// Execution deliberately re-checks nothing: the export record is written
/// unconditionally, so two finalizations for the same asset admitted in
/// different blocks would both execute. De-duplication rests entirely on the
/// admission-time tag of (hash, chain, account, nonce).
pub open spec fn spec_internal_finalize_detach(
    s: PalletView,
    origin: Origin,
    data: DetachInternalDataV,
) -> (PalletView, Result<(), DispatchError>) {
    if !(origin is Unsigned) {
        (s, Err(DispatchError::BadOrigin))
    } else {
        (
            PalletView {
                detach_nonces: s.detach_nonces.insert(
                    (data.target_account, data.target_chain),
                    data.nonce,
                ),
                detached_fragments: s.detached_fragments.insert(
                    data.fragment_hash,
                    ExportDataV {
                        chain: data.target_chain,
                        owner: data.target_account,
                        nonce: data.nonce,
                    },
                ),
                events: s.events.push(
                    EventV::Detached(data.fragment_hash, data.remote_signature),
                ),
                ..s
            },
            Ok(()),
        )
    }
}

/// Pool admission of an unsigned transaction. Only a finalization call is
/// admitted; its identity must be a trusted worker key, and its identity
/// signature over the canonical finalization encoding must verify. An
/// admitted transaction provides the (hash, chain, account, nonce) tag for
/// de-duplication, stays valid for 5 blocks and is propagated. Admission
/// reads the state and never changes it.
pub open spec fn spec_validate_unsigned(s: PalletView, call: CallV) -> Result<
    ValidTransactionV,
    InvalidTransaction,
> {
    match call {
        CallV::InternalFinalizeDetach { data, signature } => {
            if !s.frag_keys.contains(data.public) {
                Err(InvalidTransaction::BadSigner)
            } else if !ed25519_verifies(data.public, enc_finalization(data), signature) {
                Err(InvalidTransaction::BadProof)
            } else {
                Ok(
                    ValidTransactionV {
                        provides_fragment_hash: data.fragment_hash,
                        provides_target_chain: data.target_chain,
                        provides_target_account: data.target_account,
                        provides_nonce: data.nonce,
                        longevity: 5,
                        propagate: true,
                    },
                )
            }
        },
        _ => Err(InvalidTransaction::BadCall),
    }
}

/// The consensus storage of the detach pallet.
pub struct Pallet {
    detach_requests: Vec<DetachRequest>,
    detached_fragments: ExportMap,
    detach_nonces: NonceMap,
    ethereum_authorities: KeySet,
    frag_keys: KeySet,
    events: Vec<Event>,
}

impl View for Pallet {
    type V = PalletView;

    closed spec fn view(&self) -> PalletView {
        PalletView {
            detach_requests: self.detach_requests@.map_values(|r: DetachRequest| r@),
            detached_fragments: self.detached_fragments@,
            detach_nonces: self.detach_nonces@,
            ethereum_authorities: self.ethereum_authorities@,
            frag_keys: self.frag_keys@,
            events: self.events@.map_values(|e: Event| e@),
        }
    }
}

impl Default for Pallet {
    /// The empty pallet state.
    fn default() -> (r: Pallet)
        ensures
            r@ == PalletView::initial(),
    {
        let r = Pallet {
            detach_requests: Vec::new(),
            detached_fragments: ExportMap::new(),
            detach_nonces: NonceMap::new(),
            ethereum_authorities: KeySet::new(),
            frag_keys: KeySet::new(),
            events: Vec::new(),
        };
        proof {
            assert(r@ =~= PalletView::initial());
        }
        r
    }
}

impl Pallet {
    pub fn new() -> (r: Pallet)
        ensures
            r@ == PalletView::initial(),
    {
        Pallet::default()
    }

    pub fn add_eth_auth(&mut self, origin: Origin, public: Vec<u8>) -> (r: Result<
        (),
        DispatchError,
    >)
        ensures
            final(self)@ == spec_add_eth_auth(old(self)@, origin, public@).0,
            r == spec_add_eth_auth(old(self)@, origin, public@).1,
    {
        match origin {
            Origin::Root => {
                self.ethereum_authorities.insert(public);
                proof {
                    assert(self@ =~= spec_add_eth_auth(old(self)@, origin, public@).0);
                }
                Ok(())
            },
            _ => Err(DispatchError::BadOrigin),
        }
    }

    pub fn del_eth_auth(&mut self, origin: Origin, public: &Vec<u8>) -> (r: Result<
        (),
        DispatchError,
    >)
        ensures
            final(self)@ == spec_del_eth_auth(old(self)@, origin, public@).0,
            r == spec_del_eth_auth(old(self)@, origin, public@).1,
    {
        match origin {
            Origin::Root => {
                self.ethereum_authorities.remove(public);
                proof {
                    assert(self@ =~= spec_del_eth_auth(old(self)@, origin, public@).0);
                }
                Ok(())
            },
            _ => Err(DispatchError::BadOrigin),
        }
    }

    pub fn add_key(&mut self, origin: Origin, public: Vec<u8>) -> (r: Result<(), DispatchError>)
        ensures
            final(self)@ == spec_add_key(old(self)@, origin, public@).0,
            r == spec_add_key(old(self)@, origin, public@).1,
    {
        match origin {
            Origin::Root => {
                self.frag_keys.insert(public);
                proof {
                    assert(self@ =~= spec_add_key(old(self)@, origin, public@).0);
                }
                Ok(())
            },
            _ => Err(DispatchError::BadOrigin),
        }
    }

    pub fn del_key(&mut self, origin: Origin, public: &Vec<u8>) -> (r: Result<(), DispatchError>)
        ensures
            final(self)@ == spec_del_key(old(self)@, origin, public@).0,
            r == spec_del_key(old(self)@, origin, public@).1,
    {
        match origin {
            Origin::Root => {
                self.frag_keys.remove(public);
                proof {
                    assert(self@ =~= spec_del_key(old(self)@, origin, public@).0);
                }
                Ok(())
            },
            _ => Err(DispatchError::BadOrigin),
        }
    }

    /// Queue a detach request for an owned, not-yet-exported asset.
    pub fn detach(
        &mut self,
        origin: Origin,
        fragment_hash: Vec<u8>,
        target_chain: SupportedChains,
        target_account: Vec<u8>,
        owner: FragmentOwner,
    ) -> (r: Result<(), DispatchError>)
        requires
            fragment_hash@.len() == 32,
        ensures
            final(self)@ == spec_detach(
                old(self)@,
                origin,
                fragment_hash@,
                target_chain,
                target_account@,
                owner@,
            ).0,
            r == spec_detach(
                old(self)@,
                origin,
                fragment_hash@,
                target_chain,
                target_account@,
                owner@,
            ).1,
    {
        let who: u64 = match origin {
            Origin::Signed(who) => who,
            _ => {
                return Err(DispatchError::BadOrigin);
            },
        };
        let authorized: bool = match &owner {
            FragmentOwner::User(o) => *o == who,
            FragmentOwner::ExternalAsset(_) => false,
        };
        if !authorized {
            return Err(DispatchError::Module(Error::Unauthorized));
        }
        if self.detached_fragments.contains_key(&fragment_hash) {
            return Err(DispatchError::Module(Error::FragmentDetached));
        }
        let ghost prior = self@;
        self.detach_requests.push(
            DetachRequest { fragment_hash, target_chain, target_account },
        );
        proof {
            assert(self@.detach_requests =~= prior.detach_requests.push(
                DetachRequestV {
                    fragment_hash: fragment_hash@,
                    target_chain,
                    target_account: target_account@,
                },
            ));
            assert(self@ =~= spec_detach(
                prior,
                origin,
                fragment_hash@,
                target_chain,
                target_account@,
                owner@,
            ).0);
        }
        Ok(())
    }

    /// Drain the block's request queue into a batch for the off-chain signer.
    pub fn on_finalize(&mut self) -> (r: Option<Vec<DetachRequest>>)
        ensures
            final(self)@ == spec_on_finalize(old(self)@).0,
            match r {
                Some(batch) => spec_on_finalize(old(self)@).1 == Some(
                    batch@.map_values(|q: DetachRequest| q@),
                ),
                None => spec_on_finalize(old(self)@).1 is None,
            },
    {
        if self.detach_requests.len() == 0 {
            proof {
                assert(self@ =~= spec_on_finalize(old(self)@).0);
            }
            return None;
        }
        let mut batch: Vec<DetachRequest> = Vec::new();
        core::mem::swap(&mut batch, &mut self.detach_requests);
        proof {
            assert(self@ =~= spec_on_finalize(old(self)@).0);
        }
        Some(batch)
    }

    /// Execute an admitted finalization: overwrite the replay counter, write
    /// the permanent export record, and deposit the `Detached` event.
    pub fn internal_finalize_detach(
        &mut self,
        origin: Origin,
        data: DetachInternalData,
        _signature: Vec<u8>,
    ) -> (r: Result<(), DispatchError>)
        ensures
            final(self)@ == spec_internal_finalize_detach(old(self)@, origin, data@).0,
            r == spec_internal_finalize_detach(old(self)@, origin, data@).1,
    {
        match origin {
            Origin::Unsigned => {},
            _ => {
                return Err(DispatchError::BadOrigin);
            },
        }
        let ghost prior = self@;
        let ghost dv = data@;
        let account_for_nonce = bytes_clone(&data.target_account);
        self.detach_nonces.insert(account_for_nonce, data.target_chain, data.nonce);
        let hash_for_event = bytes_clone(&data.fragment_hash);
        let sig_for_event = bytes_clone(&data.remote_signature);
        let export = ExportData {
            chain: data.target_chain,
            owner: data.target_account,
            nonce: data.nonce,
        };
        self.detached_fragments.insert(data.fragment_hash, export);
        self.events.push(Event::Detached(hash_for_event, sig_for_event));
        proof {
            assert(self@.events =~= prior.events.push(
                EventV::Detached(dv.fragment_hash, dv.remote_signature),
            ));
            assert(self@ =~= spec_internal_finalize_detach(prior, origin, dv).0);
        }
        Ok(())
    }

    /// Pool admission of an unsigned call; reads the state, never writes it.
    pub fn validate_unsigned(&self, call: &Call) -> (r: Result<
        ValidTransaction,
        InvalidTransaction,
    >)
        ensures
            match r {
                Ok(v) => spec_validate_unsigned(self@, call@) == Ok::<
                    ValidTransactionV,
                    InvalidTransaction,
                >(v@),
                Err(e) => spec_validate_unsigned(self@, call@) == Err::<
                    ValidTransactionV,
                    InvalidTransaction,
                >(e),
            },
    {
        match call {
            Call::InternalFinalizeDetach { data, signature } => {
                if !self.frag_keys.contains(&data.public) {
                    return Err(InvalidTransaction::BadSigner);
                }
                let message = encode_finalization(data);
                if !crate::crypto::ed25519_verify(&data.public, &message, signature) {
                    return Err(InvalidTransaction::BadProof);
                }
                Ok(
                    ValidTransaction {
                        provides_fragment_hash: bytes_clone(&data.fragment_hash),
                        provides_target_chain: data.target_chain,
                        provides_target_account: bytes_clone(&data.target_account),
                        provides_nonce: data.nonce,
                        longevity: 5,
                        propagate: true,
                    },
                )
            },
            _ => Err(InvalidTransaction::BadCall),
        }
    }

    /// The export record of an asset hash, if the asset was exported.
    pub fn detached(&self, fragment_hash: &Vec<u8>) -> (r: Option<&ExportData>)
        ensures
            match r {
                Some(v) => self@.detached_fragments.contains_key(fragment_hash@) && v@
                    == self@.detached_fragments[fragment_hash@],
                None => !self@.detached_fragments.contains_key(fragment_hash@),
            },
    {
        self.detached_fragments.get(fragment_hash)
    }

    /// The replay counter of a (target account, target chain) pair, if any.
    pub fn nonce(&self, target_account: &Vec<u8>, target_chain: SupportedChains) -> (r: Option<
        u64,
    >)
        ensures
            match r {
                Some(v) => self@.detach_nonces.contains_key((target_account@, target_chain))
                    && v == self@.detach_nonces[(target_account@, target_chain)],
                None => !self@.detach_nonces.contains_key((target_account@, target_chain)),
            },
    {
        self.detach_nonces.get(target_account, target_chain)
    }

    /// Whether a key is a trusted external-chain authority.
    pub fn authority_contains(&self, public: &Vec<u8>) -> (r: bool)
        ensures
            r == self@.ethereum_authorities.contains(public@),
    {
        self.ethereum_authorities.contains(public)
    }

    /// Whether a key is a trusted worker identity.
    pub fn frag_key_contains(&self, public: &Vec<u8>) -> (r: bool)
        ensures
            r == self@.frag_keys.contains(public@),
    {
        self.frag_keys.contains(public)
    }

    /// The events deposited so far.
    pub fn events(&self) -> (r: &Vec<Event>)
        ensures
            r@.map_values(|e: Event| e@) == self@.events,
    {
        &self.events
    }

    /// Seed the authority set at genesis. May only run on an empty set; the
    /// resulting set holds exactly the given keys.
    pub fn initialize_eth_authorities(&mut self, authorities: &Vec<Vec<u8>>)
        requires
            authorities@.len() > 0 ==> old(self)@.ethereum_authorities == Set::<Seq<u8>>::empty(),
        ensures
            authorities@.len() == 0 ==> final(self)@ == old(self)@,
            authorities@.len() > 0 ==> final(self)@ == (PalletView {
                ethereum_authorities: keys_of(authorities@),
                ..old(self)@
            }),
    {
        if authorities.len() == 0 {
            return;
        }
        let n = authorities.len();
        let mut i: usize = 0;
        proof {
            assert(keys_of(authorities@.take(0)) =~= Set::<Seq<u8>>::empty());
        }
        while i < n
            invariant
                n == authorities@.len(),
                i <= n,
                self@.ethereum_authorities == keys_of(authorities@.take(i as int)),
                self@ == (PalletView {
                    ethereum_authorities: self@.ethereum_authorities,
                    ..old(self)@
                }),
            decreases n - i,
        {
            proof {
                assert(authorities@.take(i + 1).drop_last() =~= authorities@.take(i as int));
                assert(authorities@.take(i + 1).last() == authorities@[i as int]);
            }
            let key = bytes_clone(&authorities[i]);
            self.ethereum_authorities.insert(key);
            i += 1;
            proof {
                assert(self@ =~= (PalletView {
                    ethereum_authorities: self@.ethereum_authorities,
                    ..old(self)@
                }));
            }
        }
        proof {
            assert(authorities@.take(n as int) =~= authorities@);
            assert(self@ =~= (PalletView {
                ethereum_authorities: keys_of(authorities@),
                ..old(self)@
            }));
        }
    }

    /// Seed the worker key set at genesis. May only run on an empty set; the
    /// resulting set holds exactly the given keys.
    pub fn initialize_keys(&mut self, keys: &Vec<Vec<u8>>)
        requires
            keys@.len() > 0 ==> old(self)@.frag_keys == Set::<Seq<u8>>::empty(),
        ensures
            keys@.len() == 0 ==> final(self)@ == old(self)@,
            keys@.len() > 0 ==> final(self)@ == (PalletView {
                frag_keys: keys_of(keys@),
                ..old(self)@
            }),
    {
        if keys.len() == 0 {
            return;
        }
        let n = keys.len();
        let mut i: usize = 0;
        proof {
            assert(keys_of(keys@.take(0)) =~= Set::<Seq<u8>>::empty());
        }
        while i < n
            invariant
                n == keys@.len(),
                i <= n,
                self@.frag_keys == keys_of(keys@.take(i as int)),
                self@ == (PalletView { frag_keys: self@.frag_keys, ..old(self)@ }),
            decreases n - i,
        {
            proof {
                assert(keys@.take(i + 1).drop_last() =~= keys@.take(i as int));
                assert(keys@.take(i + 1).last() == keys@[i as int]);
            }
            let key = bytes_clone(&keys[i]);
            self.frag_keys.insert(key);
            i += 1;
            proof {
                assert(self@ =~= (PalletView { frag_keys: self@.frag_keys, ..old(self)@ }));
            }
        }
        proof {
            assert(keys@.take(n as int) =~= keys@);
            assert(self@ =~= (PalletView { frag_keys: keys_of(keys@), ..old(self)@ }));
        }
    }
}

/// The genesis configuration: the initial authority and worker key sets.
pub struct GenesisConfig {
    pub eth_authorities: Vec<Vec<u8>>,
    pub keys: Vec<Vec<u8>>,
}

impl Default for GenesisConfig {
    /// An empty genesis configuration.
    fn default() -> (r: GenesisConfig)
        ensures
            r.eth_authorities@ == Seq::<Vec<u8>>::empty(),
            r.keys@ == Seq::<Vec<u8>>::empty(),
    {
        GenesisConfig { eth_authorities: Vec::new(), keys: Vec::new() }
    }
}

impl GenesisConfig {
    /// Seed a pallet's key registries from this configuration.
    pub fn build(&self, pallet: &mut Pallet)
        requires
            self.eth_authorities@.len() > 0 ==> old(pallet)@.ethereum_authorities == Set::<
                Seq<u8>,
            >::empty(),
            self.keys@.len() > 0 ==> old(pallet)@.frag_keys == Set::<Seq<u8>>::empty(),
        ensures
            final(pallet)@.ethereum_authorities == if self.eth_authorities@.len() == 0 {
                old(pallet)@.ethereum_authorities
            } else {
                keys_of(self.eth_authorities@)
            },
            final(pallet)@.frag_keys == if self.keys@.len() == 0 {
                old(pallet)@.frag_keys
            } else {
                keys_of(self.keys@)
            },
            final(pallet)@.detach_requests == old(pallet)@.detach_requests,
            final(pallet)@.detached_fragments == old(pallet)@.detached_fragments,
            final(pallet)@.detach_nonces == old(pallet)@.detach_nonces,
            final(pallet)@.events == old(pallet)@.events,
    {
        pallet.initialize_eth_authorities(&self.eth_authorities);
        pallet.initialize_keys(&self.keys);
    }
}

} // verus!
