//! The guarantees the detach subsystem gives, stated and proved over the
//! specification-level state transitions.

use vstd::prelude::*;

use crate::crypto::ed25519_verifies;
use crate::custodian::{derive_pub_spec, derived_wf, DerivedKeyV};
use crate::pallet::{
    spec_detach, spec_internal_finalize_detach, spec_on_finalize, spec_validate_unsigned,
    PalletView,
};
use crate::payload::enc_finalization;
use crate::signer::{nonces_below_max, spec_next_nonce};
use crate::types::{
    AccountId, CallV, DetachInternalDataV, DetachRequestV, DispatchError, Error,
    FragmentOwnerV, InvalidTransaction, Origin, SupportedChains, ValidTransactionV,
};

verus! {

/// For any asset not yet exported, a detach request signed by the asset's
/// recorded owner succeeds, and the request appears in the batch the next
/// block finalization drains.
pub proof fn lemma_request_reaches_batch(
    s: PalletView,
    who: AccountId,
    fragment_hash: Seq<u8>,
    target_chain: SupportedChains,
    target_account: Seq<u8>,
)
    requires
        !s.detached_fragments.contains_key(fragment_hash),
    ensures
        ({
            let (s1, r) = spec_detach(
                s,
                Origin::Signed(who),
                fragment_hash,
                target_chain,
                target_account,
                FragmentOwnerV::User(who),
            );
            let (s2, batch) = spec_on_finalize(s1);
            let request = DetachRequestV { fragment_hash, target_chain, target_account };
            &&& r == Ok::<(), DispatchError>(())
            &&& batch is Some
            &&& batch.unwrap().last() == request
            &&& batch.unwrap().contains(request)
            &&& s2.detach_requests.len() == 0
        }),
{
    let (s1, r) = spec_detach(
        s,
        Origin::Signed(who),
        fragment_hash,
        target_chain,
        target_account,
        FragmentOwnerV::User(who),
    );
    let request = DetachRequestV { fragment_hash, target_chain, target_account };
    assert(s1.detach_requests.len() > 0);
    let batch = spec_on_finalize(s1).1;
    assert(batch.unwrap()[s1.detach_requests.len() - 1] == request);
}

/// A detach request for an already-exported asset always fails with the
/// "already detached" error, whoever signs it: the state is unchanged and
/// the request never reaches the queue, so no later batch carries it.
pub proof fn lemma_already_exported_rejected(
    s: PalletView,
    who: AccountId,
    fragment_hash: Seq<u8>,
    target_chain: SupportedChains,
    target_account: Seq<u8>,
    owner: FragmentOwnerV,
)
    requires
        s.detached_fragments.contains_key(fragment_hash),
        owner == FragmentOwnerV::User(who),
    ensures
        ({
            let (s1, r) = spec_detach(
                s,
                Origin::Signed(who),
                fragment_hash,
                target_chain,
                target_account,
                owner,
            );
            &&& r == Err::<(), DispatchError>(DispatchError::Module(Error::FragmentDetached))
            &&& s1 == s
            &&& s1.detach_requests == s.detach_requests
        }),
{
}

/// Derivation is deterministic: two derivations for the same identity key —
/// in one run, across runs, or across restarts — yield the same derived
/// public key.
pub proof fn lemma_derivation_deterministic(
    identity_seed: Seq<u8>,
    r1: Option<Seq<u8>>,
    r2: Option<Seq<u8>>,
)
    requires
        r1 == derive_pub_spec(identity_seed),
        r2 == derive_pub_spec(identity_seed),
    ensures
        r1 == r2,
{
}

/// Any two faithful derivation-cache entries for the same identity agree in
/// every field, so a rebuilt cache (after a restart) holds the same derived
/// keys.
pub proof fn lemma_cache_deterministic(d1: DerivedKeyV, d2: DerivedKeyV)
    requires
        derived_wf(d1),
        derived_wf(d2),
        d1.identity_seed == d2.identity_seed,
    ensures
        d1 == d2,
{
    assert(Some(d1.ecdsa_public) == Some(d2.ecdsa_public));
    assert(d1 =~= d2);
}

/// Any finalization whose identity is not in the worker key set is rejected
/// at admission with `BadSigner`. Admission is a pure read of the state, so
/// a rejected transaction changes nothing.
pub proof fn lemma_admission_unknown_signer(
    s: PalletView,
    data: DetachInternalDataV,
    signature: Seq<u8>,
)
    requires
        !s.frag_keys.contains(data.public),
    ensures
        spec_validate_unsigned(s, CallV::InternalFinalizeDetach { data, signature })
            == Err::<ValidTransactionV, InvalidTransaction>(InvalidTransaction::BadSigner),
{
}

/// Any finalization whose identity signature does not verify over the
/// canonical finalization encoding — a tampered signature or tampered data —
/// is rejected at admission with `BadProof`. Admission is a pure read of the
/// state, so a rejected transaction changes nothing.
pub proof fn lemma_admission_bad_proof(
    s: PalletView,
    data: DetachInternalDataV,
    signature: Seq<u8>,
)
    ensures
        s.frag_keys.contains(data.public) && !ed25519_verifies(
            data.public,
            enc_finalization(data),
            signature,
        ) ==> spec_validate_unsigned(s, CallV::InternalFinalizeDetach { data, signature })
            == Err::<ValidTransactionV, InvalidTransaction>(InvalidTransaction::BadProof),
{
}

/// Admission accepts exactly the finalizations the payload signer produces
/// under a trusted identity: when the identity is a trusted worker key and
/// its signature over the canonical encoding verifies — which the signer's
/// contract guarantees of every finalization it emits — the transaction is
/// admitted with the (hash, chain, account, nonce) de-duplication tag, a
/// validity of 5 blocks, and propagation.
pub proof fn lemma_admission_accepts_signer_output(
    s: PalletView,
    data: DetachInternalDataV,
    signature: Seq<u8>,
)
    ensures
        s.frag_keys.contains(data.public) && ed25519_verifies(
            data.public,
            enc_finalization(data),
            signature,
        ) ==> spec_validate_unsigned(s, CallV::InternalFinalizeDetach { data, signature })
            == Ok::<ValidTransactionV, InvalidTransaction>(
            ValidTransactionV {
                provides_fragment_hash: data.fragment_hash,
                provides_target_chain: data.target_chain,
                provides_target_account: data.target_account,
                provides_nonce: data.nonce,
                longevity: 5,
                propagate: true,
            },
        ),
{
}

/// For a fixed (target account, target chain) pair, successive finalizations
/// whose nonces are computed against the state they execute on carry
/// counters that increase by exactly one, and the export record written by a
/// finalization carries the same nonce as the counter it sets. The bound on
/// `d1.nonce` only excludes the integer wrap of the 64-bit counter.
pub proof fn lemma_nonce_increments(
    s: PalletView,
    d1: DetachInternalDataV,
    d2: DetachInternalDataV,
)
    requires
        d1.nonce == spec_next_nonce(s, d1.target_account, d1.target_chain),
        d1.nonce < u64::MAX,
        d2.target_account == d1.target_account,
        d2.target_chain == d1.target_chain,
        ({
            let s1 = spec_internal_finalize_detach(s, Origin::Unsigned, d1).0;
            d2.nonce == spec_next_nonce(s1, d2.target_account, d2.target_chain)
        }),
    ensures
        d2.nonce == d1.nonce + 1,
        ({
            let s1 = spec_internal_finalize_detach(s, Origin::Unsigned, d1).0;
            &&& s1.detach_nonces[(d1.target_account, d1.target_chain)] == d1.nonce
            &&& s1.detached_fragments.contains_key(d1.fragment_hash)
            &&& s1.detached_fragments[d1.fragment_hash].nonce == d1.nonce
            &&& s1.detached_fragments[d1.fragment_hash].owner == d1.target_account
            &&& s1.detached_fragments[d1.fragment_hash].chain == d1.target_chain
        }),
{
}

/// A state where every stored counter sits below the integer bound keeps
/// that property across a finalization whose nonce also sits below it.
pub proof fn lemma_nonces_stay_below_max(s: PalletView, d: DetachInternalDataV)
    requires
        nonces_below_max(s),
        d.nonce < u64::MAX,
    ensures
        nonces_below_max(spec_internal_finalize_detach(s, Origin::Unsigned, d).0),
{
}

} // verus!
