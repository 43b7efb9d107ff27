//! The off-chain payload signer. Once per finalized block, each node runs
//! this over the drained batch: it ensures key derivation has run, selects a
//! locally derived key that the authority set trusts, computes the next
//! replay nonce, signs the canonical payload with the external-chain key, and
//! assembles the finalization together with the identity signature that the
//! on-chain admission will check. A failing request is dropped for this
//! attempt; the rest of the batch continues.

use vstd::prelude::*;

use crate::bytes::bytes_clone;
use crate::crypto::{ecdsa_sig_of, ecdsa_sign_prehashed, ed25519_sig_of, ed25519_sign};
use crate::custodian::{cache_covers, derive_pub_spec, DerivedKeyV, KeyCustodian};
use crate::pallet::{Pallet, PalletView};
use crate::payload::{
    compute_detach_digest, detach_digest, enc_finalization, encode_finalization, sig_with_27,
};
use crate::types::{
    DetachInternalData, DetachInternalDataV, DetachRequest, DetachRequestV, OffchainError,
    SupportedChains,
};

verus! {

/// The index of the first cached derived key whose public key the authority
/// set trusts, if any.
pub open spec fn first_authorized(derived: Seq<DerivedKeyV>, auths: Set<Seq<u8>>) -> Option<int>
    decreases derived.len(),
{
    if derived.len() == 0 {
        None
    } else if auths.contains(derived[0].ecdsa_public) {
        Some(0)
    } else {
        match first_authorized(derived.drop_first(), auths) {
            Some(i) => Some(i + 1),
            None => None,
        }
    }
}

/// `first_authorized` returns the least trusted index, or `None` when no
/// cached key is trusted.
pub proof fn lemma_first_authorized(derived: Seq<DerivedKeyV>, auths: Set<Seq<u8>>)
    ensures
        match first_authorized(derived, auths) {
            Some(i) => 0 <= i < derived.len() && auths.contains(derived[i].ecdsa_public)
                && forall|j: int|
                0 <= j < i ==> !auths.contains((#[trigger] derived[j]).ecdsa_public),
            None => forall|j: int|
                0 <= j < derived.len() ==> !auths.contains(
                    (#[trigger] derived[j]).ecdsa_public,
                ),
        },
    decreases derived.len(),
{
    if derived.len() > 0 {
        if !auths.contains(derived[0].ecdsa_public) {
            let rest = derived.drop_first();
            lemma_first_authorized(rest, auths);
            assert(forall|j: int| 0 <= j < rest.len() ==> #[trigger] rest[j] == derived[j + 1]);
            match first_authorized(rest, auths) {
                Some(i) => {
                    assert(first_authorized(derived, auths) == Some(i + 1));
                    assert(auths.contains(derived[i + 1].ecdsa_public));
                    assert forall|j: int| 0 <= j < i + 1 implies !auths.contains(
                        (#[trigger] derived[j]).ecdsa_public,
                    ) by {
                        if j > 0 {
                            assert(rest[j - 1] == derived[j]);
                        }
                    }
                },
                None => {
                    assert forall|j: int| 0 <= j < derived.len() implies !auths.contains(
                        (#[trigger] derived[j]).ecdsa_public,
                    ) by {
                        if j > 0 {
                            assert(rest[j - 1] == derived[j]);
                        }
                    }
                },
            }
        }
    }
}

/// The replay nonce the next finalization for (account, chain) must carry:
/// one more than the stored counter, or 1 when none exists.
pub open spec fn spec_next_nonce(s: PalletView, account: Seq<u8>, chain: SupportedChains) -> u64 {
    if s.detach_nonces.contains_key((account, chain)) {
        (s.detach_nonces[(account, chain)] + 1) as u64
    } else {
        1u64
    }
}

/// No stored replay counter is at the integer bound, so the next nonce fits.
pub open spec fn nonces_below_max(s: PalletView) -> bool {
    forall|k: (Seq<u8>, SupportedChains)|
        s.detach_nonces.contains_key(k) ==> s.detach_nonces[k] < u64::MAX
}

/// The stored replay counter of one (account, chain) pair, if any, sits
/// below the integer bound, so its next nonce fits. A caller can decide this
/// by reading the counter.
pub open spec fn nonce_has_room(s: PalletView, account: Seq<u8>, chain: SupportedChains) -> bool {
    s.detach_nonces.contains_key((account, chain)) ==> s.detach_nonces[(account, chain)]
        < u64::MAX
}

/// The outcome of one request: the 65-byte external-chain signature (with
/// the adjusted recovery byte) and the nonce it binds, or the error that
/// drops the request for this attempt. Errors come in this order: no trusted
/// local key, then a malformed target account, then a signing failure.
pub open spec fn spec_process_request(
    s: PalletView,
    derived: Seq<DerivedKeyV>,
    req: DetachRequestV,
) -> Result<(Seq<u8>, u64), OffchainError> {
    match first_authorized(derived, s.ethereum_authorities) {
        None => Err(OffchainError::NoValidator),
        Some(i) => {
            if req.target_account.len() != 20 {
                Err(OffchainError::ParamsInvalid)
            } else {
                let nonce = spec_next_nonce(s, req.target_account, req.target_chain);
                match ecdsa_sig_of(
                    derived[i].ecdsa_seed,
                    detach_digest(req.fragment_hash, req.target_chain, req.target_account, nonce),
                ) {
                    Some(sig) => Ok((sig_with_27(sig), nonce)),
                    None => Err(OffchainError::SigningFailed),
                }
            }
        },
    }
}

/// The finalization built for one request: the signing data and the identity
/// signature over its canonical encoding. The identity is the one whose
/// derived key produced the external-chain signature.
pub open spec fn spec_make_finalization(
    s: PalletView,
    derived: Seq<DerivedKeyV>,
    req: DetachRequestV,
) -> Result<(DetachInternalDataV, Seq<u8>), OffchainError> {
    match spec_process_request(s, derived, req) {
        Err(e) => Err(e),
        Ok((remote_signature, nonce)) => {
            let i = first_authorized(derived, s.ethereum_authorities).unwrap();
            let data = DetachInternalDataV {
                public: derived[i].identity_public,
                fragment_hash: req.fragment_hash,
                target_chain: req.target_chain,
                target_account: req.target_account,
                remote_signature,
                nonce,
            };
            Ok((data, ed25519_sig_of(derived[i].identity_seed, enc_finalization(data))))
        },
    }
}

/// Whether an executable outcome agrees with its specified outcome.
pub open spec fn outcome_matches(
    r: Result<(DetachInternalData, Vec<u8>), OffchainError>,
    s: Result<(DetachInternalDataV, Seq<u8>), OffchainError>,
) -> bool {
    match r {
        Ok(pair) => s == Ok::<(DetachInternalDataV, Seq<u8>), OffchainError>(
            (pair.0@, pair.1@),
        ),
        Err(e) => s == Err::<(DetachInternalDataV, Seq<u8>), OffchainError>(e),
    }
}

/// Select the first cached derived key that the authority set trusts.
pub fn select_validator(pallet: &Pallet, custodian: &KeyCustodian) -> (r: Option<usize>)
    ensures
        match r {
            Some(j) => first_authorized(custodian@.derived, pallet@.ethereum_authorities) == Some(
                j as int,
            ),
            None => first_authorized(custodian@.derived, pallet@.ethereum_authorities) is None,
        },
{
    let n = custodian.derived_len();
    let mut j: usize = 0;
    while j < n
        invariant
            n == custodian@.derived.len(),
            j <= n,
            forall|m: int|
                0 <= m < j ==> !pallet@.ethereum_authorities.contains(
                    (#[trigger] custodian@.derived[m]).ecdsa_public,
                ),
        decreases n - j,
    {
        let entry = custodian.derived_at(j);
        if pallet.authority_contains(&entry.ecdsa_public) {
            proof {
                lemma_first_authorized(custodian@.derived, pallet@.ethereum_authorities);
            }
            return Some(j);
        }
        j += 1;
    }
    proof {
        lemma_first_authorized(custodian@.derived, pallet@.ethereum_authorities);
    }
    None
}

/// The next nonce for (account, chain), read from the pallet state.
fn next_nonce(pallet: &Pallet, account: &Vec<u8>, chain: SupportedChains) -> (r: u64)
    requires
        nonce_has_room(pallet@, account@, chain),
    ensures
        r == spec_next_nonce(pallet@, account@, chain),
{
    match pallet.nonce(account, chain) {
        Some(n) => n + 1,
        None => 1,
    }
}

/// Process one drained request against the current consensus state: select a
/// trusted derived key, compute the nonce, sign the canonical payload and
/// assemble the finalization with its identity signature.
pub fn process_request(pallet: &Pallet, custodian: &KeyCustodian, req: &DetachRequest) -> (r:
    Result<(DetachInternalData, Vec<u8>), OffchainError>)
    requires
        custodian.wf(),
        nonce_has_room(pallet@, req@.target_account, req@.target_chain),
    ensures
        outcome_matches(r, spec_make_finalization(pallet@, custodian@.derived, req@)),
        r matches Ok(pair) ==> crate::crypto::ed25519_verifies(
            pair.0@.public,
            enc_finalization(pair.0@),
            pair.1@,
        ),
{
    let j = match select_validator(pallet, custodian) {
        Some(j) => j,
        None => {
            return Err(OffchainError::NoValidator);
        },
    };
    proof {
        lemma_first_authorized(custodian@.derived, pallet@.ethereum_authorities);
    }
    if req.target_account.len() != 20 {
        return Err(OffchainError::ParamsInvalid);
    }
    let nonce = next_nonce(pallet, &req.target_account, req.target_chain);
    let digest = compute_detach_digest(
        &req.fragment_hash,
        req.target_chain,
        &req.target_account,
        nonce,
    );
    let entry = custodian.derived_at(j);
    let mut remote_signature = match ecdsa_sign_prehashed(&entry.ecdsa_seed, &digest) {
        Some(s) => s,
        None => {
            return Err(OffchainError::SigningFailed);
        },
    };
    crate::payload::adjust_recovery_byte(&mut remote_signature);
    let data = DetachInternalData {
        public: bytes_clone(&entry.identity_public),
        fragment_hash: bytes_clone(&req.fragment_hash),
        target_chain: req.target_chain,
        target_account: bytes_clone(&req.target_account),
        remote_signature,
        nonce,
    };
    let message = encode_finalization(&data);
    let identity_signature = ed25519_sign(&entry.identity_seed, &message);
    Ok((data, identity_signature))
}

/// Process a whole drained batch: run derivation once for all local
/// identities, then process each request independently against the same
/// consensus state. The result holds one outcome per request, in order;
/// failed requests are dropped, successful ones are the unsigned
/// finalization transactions to submit.
pub fn process_detach_requests(
    pallet: &Pallet,
    custodian: &mut KeyCustodian,
    batch: &Vec<DetachRequest>,
) -> (r: Vec<Result<(DetachInternalData, Vec<u8>), OffchainError>>)
    requires
        old(custodian).wf(),
        forall|i: int|
            0 <= i < batch@.len() ==> nonce_has_room(
                pallet@,
                (#[trigger] batch@[i])@.target_account,
                batch@[i]@.target_chain,
            ),
    ensures
        final(custodian).wf(),
        final(custodian)@.identities == old(custodian)@.identities,
        final(custodian)@.derived.take(old(custodian)@.derived.len() as int) == old(
            custodian,
        )@.derived,
        forall|i: int|
            #![trigger final(custodian)@.identities[i]]
            0 <= i < final(custodian)@.identities.len() && derive_pub_spec(
                final(custodian)@.identities[i],
            ) is Some ==> cache_covers(
                final(custodian)@.derived,
                final(custodian)@.identities[i],
            ),
        r@.len() == batch@.len(),
        forall|i: int|
            0 <= i < batch@.len() ==> outcome_matches(
                #[trigger] r@[i],
                spec_make_finalization(pallet@, final(custodian)@.derived, batch@[i]@),
            ),
        forall|i: int|
            0 <= i < batch@.len() ==> ((#[trigger] r@[i]) matches Ok(pair)
                ==> crate::crypto::ed25519_verifies(
                pair.0@.public,
                enc_finalization(pair.0@),
                pair.1@,
            )),
{
    custodian.ensure_derived();
    let n = batch.len();
    let mut r: Vec<Result<(DetachInternalData, Vec<u8>), OffchainError>> = Vec::new();
    let mut i: usize = 0;
    while i < n
        invariant
            custodian.wf(),
            forall|m: int|
                0 <= m < n ==> nonce_has_room(
                    pallet@,
                    (#[trigger] batch@[m])@.target_account,
                    batch@[m]@.target_chain,
                ),
            n == batch@.len(),
            i <= n,
            r@.len() == i,
            forall|m: int|
                0 <= m < i ==> outcome_matches(
                    #[trigger] r@[m],
                    spec_make_finalization(pallet@, custodian@.derived, batch@[m]@),
                ),
            forall|m: int|
                0 <= m < i ==> ((#[trigger] r@[m]) matches Ok(pair)
                    ==> crate::crypto::ed25519_verifies(
                    pair.0@.public,
                    enc_finalization(pair.0@),
                    pair.1@,
                )),
        decreases n - i,
    {
        let outcome = process_request(pallet, custodian, &batch[i]);
        r.push(outcome);
        i += 1;
    }
    r
}

} // verus!
