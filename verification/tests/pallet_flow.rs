//! End-to-end scenarios over the pallet state machine: the request queue,
//! the off-chain signer, admission, execution and the admin registries.

use clamor_detach::crypto::ed25519_public;
use clamor_detach::custodian::KeyCustodian;
use clamor_detach::pallet::{GenesisConfig, Pallet};
use clamor_detach::signer::process_detach_requests;
use clamor_detach::types::{
    Call, DetachInternalData, DispatchError, Error, Event, FragmentOwner, InvalidTransaction,
    LinkedAsset, OffchainError, Origin, SupportedChains,
};

const OWNER: u64 = 7;

fn identity_seed_fixture() -> Vec<u8> {
    vec![0x42u8; 32]
}

fn custodian_fixture() -> KeyCustodian {
    let mut custodian = KeyCustodian::new(vec![identity_seed_fixture()]);
    custodian.ensure_derived();
    custodian
}

/// A pallet trusting the fixture identity and its derived key.
fn trusted_pallet(custodian: &KeyCustodian) -> Pallet {
    let mut pallet = Pallet::new();
    let derived_public = custodian.derived_publics().remove(0);
    pallet.add_eth_auth(Origin::Root, derived_public).unwrap();
    pallet.add_key(Origin::Root, ed25519_public(&identity_seed_fixture())).unwrap();
    pallet
}

fn zero_hash() -> Vec<u8> {
    vec![0u8; 32]
}

fn account_fixture() -> Vec<u8> {
    vec![0x11u8; 20]
}

fn run_signer(pallet: &Pallet, custodian: &mut KeyCustodian, batch: &Vec<clamor_detach::types::DetachRequest>) -> (DetachInternalData, Vec<u8>) {
    let mut outcomes = process_detach_requests(pallet, custodian, batch);
    assert_eq!(outcomes.len(), 1);
    outcomes.remove(0).unwrap()
}

#[test]
fn owned_unexported_request_reaches_batch() {
    let custodian = custodian_fixture();
    let mut pallet = trusted_pallet(&custodian);
    let result = pallet.detach(
        Origin::Signed(OWNER),
        zero_hash(),
        SupportedChains::EthereumMainnet,
        account_fixture(),
        FragmentOwner::User(OWNER),
    );
    assert_eq!(result, Ok(()));
    let batch = pallet.on_finalize().unwrap();
    assert_eq!(batch.len(), 1);
    assert_eq!(batch[0].fragment_hash, zero_hash());
    assert_eq!(batch[0].target_account, account_fixture());
    assert!(matches!(batch[0].target_chain, SupportedChains::EthereumMainnet));
    // The queue was drained whole.
    assert!(pallet.on_finalize().is_none());
}

#[test]
fn detach_requires_a_signed_origin() {
    let mut pallet = Pallet::new();
    let result = pallet.detach(
        Origin::Root,
        zero_hash(),
        SupportedChains::EthereumMainnet,
        account_fixture(),
        FragmentOwner::User(OWNER),
    );
    assert_eq!(result, Err(DispatchError::BadOrigin));
}

#[test]
fn detach_by_non_owner_is_unauthorized() {
    let mut pallet = Pallet::new();
    let result = pallet.detach(
        Origin::Signed(8),
        zero_hash(),
        SupportedChains::EthereumMainnet,
        account_fixture(),
        FragmentOwner::User(OWNER),
    );
    assert_eq!(result, Err(DispatchError::Module(Error::Unauthorized)));
    assert!(pallet.on_finalize().is_none());
}

#[test]
fn external_assets_cannot_be_detached() {
    let mut pallet = Pallet::new();
    let owner = FragmentOwner::ExternalAsset(LinkedAsset::Erc721(
        vec![0xabu8; 20],
        vec![1u8; 32],
    ));
    let result = pallet.detach(
        Origin::Signed(OWNER),
        zero_hash(),
        SupportedChains::EthereumMainnet,
        account_fixture(),
        owner,
    );
    assert_eq!(result, Err(DispatchError::Module(Error::Unauthorized)));
}

#[test]
fn already_exported_asset_is_rejected_before_the_batch() {
    let mut custodian = custodian_fixture();
    let mut pallet = trusted_pallet(&custodian);
    pallet
        .detach(
            Origin::Signed(OWNER),
            zero_hash(),
            SupportedChains::EthereumMainnet,
            account_fixture(),
            FragmentOwner::User(OWNER),
        )
        .unwrap();
    let batch = pallet.on_finalize().unwrap();
    let (data, signature) = run_signer(&pallet, &mut custodian, &batch);
    pallet.internal_finalize_detach(Origin::Unsigned, data, signature).unwrap();

    // A second request for the exported asset fails and queues nothing.
    let result = pallet.detach(
        Origin::Signed(OWNER),
        zero_hash(),
        SupportedChains::EthereumMainnet,
        account_fixture(),
        FragmentOwner::User(OWNER),
    );
    assert_eq!(result, Err(DispatchError::Module(Error::FragmentDetached)));
    assert!(pallet.on_finalize().is_none());
}

#[test]
fn admin_calls_require_root() {
    let mut pallet = Pallet::new();
    let key = vec![1u8; 33];
    assert_eq!(
        pallet.add_eth_auth(Origin::Signed(OWNER), key.clone()),
        Err(DispatchError::BadOrigin)
    );
    assert_eq!(pallet.del_eth_auth(Origin::Unsigned, &key), Err(DispatchError::BadOrigin));
    assert_eq!(
        pallet.add_key(Origin::Signed(OWNER), vec![2u8; 32]),
        Err(DispatchError::BadOrigin)
    );
    assert_eq!(pallet.del_key(Origin::Unsigned, &vec![2u8; 32]), Err(DispatchError::BadOrigin));
    assert!(!pallet.authority_contains(&key));
}

#[test]
fn admin_registries_insert_and_remove() {
    let mut pallet = Pallet::new();
    let auth = vec![1u8; 33];
    let worker = vec![2u8; 32];
    pallet.add_eth_auth(Origin::Root, auth.clone()).unwrap();
    pallet.add_key(Origin::Root, worker.clone()).unwrap();
    assert!(pallet.authority_contains(&auth));
    assert!(pallet.frag_key_contains(&worker));
    pallet.del_eth_auth(Origin::Root, &auth).unwrap();
    pallet.del_key(Origin::Root, &worker).unwrap();
    assert!(!pallet.authority_contains(&auth));
    assert!(!pallet.frag_key_contains(&worker));
}

#[test]
fn genesis_config_seeds_the_registries() {
    let config = GenesisConfig {
        eth_authorities: vec![vec![1u8; 33], vec![2u8; 33]],
        keys: vec![vec![3u8; 32]],
    };
    let mut pallet = Pallet::new();
    config.build(&mut pallet);
    assert!(pallet.authority_contains(&vec![1u8; 33]));
    assert!(pallet.authority_contains(&vec![2u8; 33]));
    assert!(pallet.frag_key_contains(&vec![3u8; 32]));
    assert!(!pallet.frag_key_contains(&vec![4u8; 32]));

    let empty = GenesisConfig::default();
    assert!(empty.eth_authorities.is_empty());
    assert!(empty.keys.is_empty());
}

#[test]
fn signer_without_trusted_key_reports_no_validator() {
    let mut custodian = custodian_fixture();
    // No authority registered at all.
    let mut pallet = Pallet::new();
    pallet.add_key(Origin::Root, ed25519_public(&identity_seed_fixture())).unwrap();
    pallet
        .detach(
            Origin::Signed(OWNER),
            zero_hash(),
            SupportedChains::EthereumMainnet,
            account_fixture(),
            FragmentOwner::User(OWNER),
        )
        .unwrap();
    let batch = pallet.on_finalize().unwrap();
    let outcomes = process_detach_requests(&pallet, &mut custodian, &batch);
    assert_eq!(outcomes.len(), 1);
    assert!(matches!(outcomes[0], Err(OffchainError::NoValidator)));
}

#[test]
fn signer_rejects_malformed_target_account() {
    let mut custodian = custodian_fixture();
    let mut pallet = trusted_pallet(&custodian);
    pallet
        .detach(
            Origin::Signed(OWNER),
            zero_hash(),
            SupportedChains::EthereumMainnet,
            vec![0x11u8; 19],
            FragmentOwner::User(OWNER),
        )
        .unwrap();
    let batch = pallet.on_finalize().unwrap();
    let outcomes = process_detach_requests(&pallet, &mut custodian, &batch);
    assert_eq!(outcomes.len(), 1);
    assert!(matches!(outcomes[0], Err(OffchainError::ParamsInvalid)));
}

#[test]
fn failing_request_does_not_stop_the_batch() {
    let mut custodian = custodian_fixture();
    let mut pallet = trusted_pallet(&custodian);
    pallet
        .detach(
            Origin::Signed(OWNER),
            zero_hash(),
            SupportedChains::EthereumMainnet,
            vec![0x11u8; 19],
            FragmentOwner::User(OWNER),
        )
        .unwrap();
    pallet
        .detach(
            Origin::Signed(OWNER),
            vec![9u8; 32],
            SupportedChains::EthereumMainnet,
            account_fixture(),
            FragmentOwner::User(OWNER),
        )
        .unwrap();
    let batch = pallet.on_finalize().unwrap();
    let outcomes = process_detach_requests(&pallet, &mut custodian, &batch);
    assert_eq!(outcomes.len(), 2);
    assert!(matches!(outcomes[0], Err(OffchainError::ParamsInvalid)));
    assert!(outcomes[1].is_ok());
}

#[test]
fn admission_rejects_unknown_signer() {
    let mut custodian = custodian_fixture();
    // The derived key is an authority, but the identity is not a trusted
    // worker key.
    let mut pallet = Pallet::new();
    let derived_public = custodian.derived_publics().remove(0);
    pallet.add_eth_auth(Origin::Root, derived_public).unwrap();
    pallet
        .detach(
            Origin::Signed(OWNER),
            zero_hash(),
            SupportedChains::EthereumMainnet,
            account_fixture(),
            FragmentOwner::User(OWNER),
        )
        .unwrap();
    let batch = pallet.on_finalize().unwrap();
    let (data, signature) = run_signer(&pallet, &mut custodian, &batch);
    let hash = data.fragment_hash.clone();
    let call = Call::InternalFinalizeDetach { data, signature };
    match pallet.validate_unsigned(&call) {
        Err(e) => assert_eq!(e, InvalidTransaction::BadSigner),
        Ok(_) => panic!("a finalization by an untrusted identity was admitted"),
    }
    // Nothing was executed: no export record exists.
    assert!(pallet.detached(&hash).is_none());
    assert!(pallet.events().is_empty());
}

#[test]
fn admission_rejects_tampered_signature() {
    let mut custodian = custodian_fixture();
    let mut pallet = trusted_pallet(&custodian);
    pallet
        .detach(
            Origin::Signed(OWNER),
            zero_hash(),
            SupportedChains::EthereumMainnet,
            account_fixture(),
            FragmentOwner::User(OWNER),
        )
        .unwrap();
    let batch = pallet.on_finalize().unwrap();
    let (data, mut signature) = run_signer(&pallet, &mut custodian, &batch);
    signature[5] ^= 0x01;
    let hash = data.fragment_hash.clone();
    let call = Call::InternalFinalizeDetach { data, signature };
    match pallet.validate_unsigned(&call) {
        Err(e) => assert_eq!(e, InvalidTransaction::BadProof),
        Ok(_) => panic!("a tampered finalization was admitted"),
    }
    assert!(pallet.detached(&hash).is_none());
    assert!(pallet.events().is_empty());
}

#[test]
fn admission_rejects_tampered_data() {
    let mut custodian = custodian_fixture();
    let mut pallet = trusted_pallet(&custodian);
    pallet
        .detach(
            Origin::Signed(OWNER),
            zero_hash(),
            SupportedChains::EthereumMainnet,
            account_fixture(),
            FragmentOwner::User(OWNER),
        )
        .unwrap();
    let batch = pallet.on_finalize().unwrap();
    let (mut data, signature) = run_signer(&pallet, &mut custodian, &batch);
    data.nonce += 1;
    let call = Call::InternalFinalizeDetach { data, signature };
    match pallet.validate_unsigned(&call) {
        Err(e) => assert_eq!(e, InvalidTransaction::BadProof),
        Ok(_) => panic!("a finalization with tampered data was admitted"),
    }
}

#[test]
fn admission_rejects_other_call_shapes() {
    let pallet = Pallet::new();
    let call = Call::AddKey { public: vec![2u8; 32] };
    match pallet.validate_unsigned(&call) {
        Err(e) => assert_eq!(e, InvalidTransaction::BadCall),
        Ok(_) => panic!("a non-finalization call was admitted"),
    }
}

#[test]
fn execution_requires_the_unsigned_origin() {
    let mut custodian = custodian_fixture();
    let mut pallet = trusted_pallet(&custodian);
    pallet
        .detach(
            Origin::Signed(OWNER),
            zero_hash(),
            SupportedChains::EthereumMainnet,
            account_fixture(),
            FragmentOwner::User(OWNER),
        )
        .unwrap();
    let batch = pallet.on_finalize().unwrap();
    let (data, signature) = run_signer(&pallet, &mut custodian, &batch);
    let result = pallet.internal_finalize_detach(Origin::Signed(OWNER), data, signature);
    assert_eq!(result, Err(DispatchError::BadOrigin));
    assert!(pallet.events().is_empty());
}

#[test]
fn successive_finalizations_share_and_increment_the_counter() {
    let mut custodian = custodian_fixture();
    let mut pallet = trusted_pallet(&custodian);
    let account = account_fixture();

    // First asset: 32 zero bytes toward chain id 1. The first finalization
    // must carry nonce 1 and write ExportRecord{chain 1, owner, nonce 1}.
    pallet
        .detach(
            Origin::Signed(OWNER),
            zero_hash(),
            SupportedChains::EthereumMainnet,
            account.clone(),
            FragmentOwner::User(OWNER),
        )
        .unwrap();
    let batch = pallet.on_finalize().unwrap();
    let (data, signature) = run_signer(&pallet, &mut custodian, &batch);
    assert_eq!(data.nonce, 1);
    assert_eq!(data.public, ed25519_public(&identity_seed_fixture()));
    assert_eq!(data.remote_signature.len(), 65);
    assert!(data.remote_signature[64] >= 27 && data.remote_signature[64] <= 30);

    let valid = pallet
        .validate_unsigned(&Call::InternalFinalizeDetach {
            data: data.clone(),
            signature: signature.clone(),
        })
        .unwrap();
    assert_eq!(valid.provides_fragment_hash, zero_hash());
    assert_eq!(valid.provides_target_account, account);
    assert_eq!(valid.provides_nonce, 1);
    assert_eq!(valid.longevity, 5);
    assert!(valid.propagate);

    let remote_signature = data.remote_signature.clone();
    pallet.internal_finalize_detach(Origin::Unsigned, data, signature).unwrap();
    let record = pallet.detached(&zero_hash()).unwrap();
    assert!(matches!(record.chain, SupportedChains::EthereumMainnet));
    assert_eq!(record.owner, account);
    assert_eq!(record.nonce, 1);
    assert_eq!(pallet.nonce(&account, SupportedChains::EthereumMainnet), Some(1));
    assert_eq!(pallet.events().len(), 1);
    let Event::Detached(event_hash, event_signature) = &pallet.events()[0];
    assert_eq!(event_hash, &zero_hash());
    assert_eq!(event_signature, &remote_signature);

    // A different asset toward the same (account, chain) shares the counter:
    // its finalization carries nonce 2.
    let second_hash = vec![1u8; 32];
    pallet
        .detach(
            Origin::Signed(OWNER),
            second_hash.clone(),
            SupportedChains::EthereumMainnet,
            account.clone(),
            FragmentOwner::User(OWNER),
        )
        .unwrap();
    let batch2 = pallet.on_finalize().unwrap();
    let (data2, signature2) = run_signer(&pallet, &mut custodian, &batch2);
    assert_eq!(data2.nonce, 2);
    pallet.internal_finalize_detach(Origin::Unsigned, data2, signature2).unwrap();
    assert_eq!(pallet.nonce(&account, SupportedChains::EthereumMainnet), Some(2));
    assert_eq!(pallet.detached(&second_hash).unwrap().nonce, 2);

    // A different chain keeps its own counter.
    assert_eq!(pallet.nonce(&account, SupportedChains::EthereumGoerli), None);
}

#[test]
fn finalization_public_getter_returns_the_identity() {
    let mut custodian = custodian_fixture();
    let mut pallet = trusted_pallet(&custodian);
    pallet
        .detach(
            Origin::Signed(OWNER),
            zero_hash(),
            SupportedChains::EthereumMainnet,
            account_fixture(),
            FragmentOwner::User(OWNER),
        )
        .unwrap();
    let batch = pallet.on_finalize().unwrap();
    let (data, _signature) = run_signer(&pallet, &mut custodian, &batch);
    assert_eq!(data.public(), &ed25519_public(&identity_seed_fixture()));
}

#[test]
fn removing_the_authority_stops_the_signer() {
    let mut custodian = custodian_fixture();
    let mut pallet = trusted_pallet(&custodian);
    let derived_public = custodian.derived_publics().remove(0);
    pallet.del_eth_auth(Origin::Root, &derived_public).unwrap();
    pallet
        .detach(
            Origin::Signed(OWNER),
            zero_hash(),
            SupportedChains::EthereumMainnet,
            account_fixture(),
            FragmentOwner::User(OWNER),
        )
        .unwrap();
    let batch = pallet.on_finalize().unwrap();
    let outcomes = process_detach_requests(&pallet, &mut custodian, &batch);
    assert!(matches!(outcomes[0], Err(OffchainError::NoValidator)));
}

#[test]
fn removing_the_worker_key_makes_admission_reject() {
    let mut custodian = custodian_fixture();
    let mut pallet = trusted_pallet(&custodian);
    pallet
        .detach(
            Origin::Signed(OWNER),
            zero_hash(),
            SupportedChains::EthereumMainnet,
            account_fixture(),
            FragmentOwner::User(OWNER),
        )
        .unwrap();
    let batch = pallet.on_finalize().unwrap();
    let (data, signature) = run_signer(&pallet, &mut custodian, &batch);
    pallet.del_key(Origin::Root, &data.public).unwrap();
    let call = Call::InternalFinalizeDetach { data, signature };
    match pallet.validate_unsigned(&call) {
        Err(e) => assert_eq!(e, InvalidTransaction::BadSigner),
        Ok(_) => panic!("a finalization by a removed identity was admitted"),
    }
}

#[test]
fn separate_accounts_keep_separate_counters() {
    let mut custodian = custodian_fixture();
    let mut pallet = trusted_pallet(&custodian);
    let other_account = vec![0x22u8; 20];
    pallet
        .detach(
            Origin::Signed(OWNER),
            zero_hash(),
            SupportedChains::EthereumMainnet,
            account_fixture(),
            FragmentOwner::User(OWNER),
        )
        .unwrap();
    let batch = pallet.on_finalize().unwrap();
    let (data, signature) = run_signer(&pallet, &mut custodian, &batch);
    pallet.internal_finalize_detach(Origin::Unsigned, data, signature).unwrap();

    // A different target account starts its own counter at 1.
    pallet
        .detach(
            Origin::Signed(OWNER),
            vec![2u8; 32],
            SupportedChains::EthereumMainnet,
            other_account.clone(),
            FragmentOwner::User(OWNER),
        )
        .unwrap();
    let batch2 = pallet.on_finalize().unwrap();
    let (data2, signature2) = run_signer(&pallet, &mut custodian, &batch2);
    assert_eq!(data2.nonce, 1);
    pallet.internal_finalize_detach(Origin::Unsigned, data2, signature2).unwrap();
    assert_eq!(pallet.nonce(&other_account, SupportedChains::EthereumMainnet), Some(1));
    assert_eq!(pallet.nonce(&account_fixture(), SupportedChains::EthereumMainnet), Some(1));
}
