//! Data model of the detach subsystem: requests, finalizations, export
//! records, calls, origins, events and errors, together with their
//! mathematical views.

use vstd::prelude::*;

verus! {

/// An account on this chain.
pub type AccountId = u64;

/// The supported external target chains.
#[derive(Clone, Copy, PartialEq, Eq, Structural, Debug, Hash)]
pub enum SupportedChains {
    EthereumMainnet,
    EthereumRinkeby,
    EthereumGoerli,
}

/// The fixed numeric identifier of an external chain, as the target chain's
/// contract expects it.
pub open spec fn spec_chain_id(chain: SupportedChains) -> u64 {
    match chain {
        SupportedChains::EthereumMainnet => 1,
        SupportedChains::EthereumRinkeby => 4,
        SupportedChains::EthereumGoerli => 5,
    }
}

pub fn chain_id_of(chain: SupportedChains) -> (r: u64)
    ensures
        r == spec_chain_id(chain),
{
    match chain {
        SupportedChains::EthereumMainnet => 1,
        SupportedChains::EthereumRinkeby => 4,
        SupportedChains::EthereumGoerli => 5,
    }
}

/// An asset linked from an external chain (an ERC-721 contract address and
/// token id). Such assets cannot be detached.
#[derive(Clone, Debug)]
pub enum LinkedAsset {
    Erc721(Vec<u8>, Vec<u8>),
}

pub enum LinkedAssetV {
    Erc721(Seq<u8>, Seq<u8>),
}

impl View for LinkedAsset {
    type V = LinkedAssetV;

    open spec fn view(&self) -> LinkedAssetV {
        match self {
            LinkedAsset::Erc721(addr, token) => LinkedAssetV::Erc721(addr@, token@),
        }
    }
}

/// The owner of an asset, as recorded by the asset registry: either a regular
/// account on this chain or an external linked asset.
#[derive(Clone, Debug)]
pub enum FragmentOwner {
    User(AccountId),
    ExternalAsset(LinkedAsset),
}

pub enum FragmentOwnerV {
    User(AccountId),
    ExternalAsset(LinkedAssetV),
}

impl View for FragmentOwner {
    type V = FragmentOwnerV;

    open spec fn view(&self) -> FragmentOwnerV {
        match self {
            FragmentOwner::User(who) => FragmentOwnerV::User(*who),
            FragmentOwner::ExternalAsset(asset) => FragmentOwnerV::ExternalAsset(asset@),
        }
    }
}

/// The origin of a dispatched call.
#[derive(Clone, Copy, PartialEq, Eq, Structural, Debug)]
pub enum Origin {
    /// The root (admin) origin.
    Root,
    /// A transaction signed by an account.
    Signed(AccountId),
    /// An unsigned transaction.
    Unsigned,
}

/// A request to detach an asset toward an external chain. Ephemeral: it lives
/// in the current block's queue and in the node-local batch drained from it.
#[derive(Clone, Debug)]
pub struct DetachRequest {
    /// The 32-byte content hash identifying the asset.
    pub fragment_hash: Vec<u8>,
    pub target_chain: SupportedChains,
    /// The receiving account on the target chain; semantically a 20-byte
    /// Ethereum-style address.
    pub target_account: Vec<u8>,
}

pub struct DetachRequestV {
    pub fragment_hash: Seq<u8>,
    pub target_chain: SupportedChains,
    pub target_account: Seq<u8>,
}

impl View for DetachRequest {
    type V = DetachRequestV;

    open spec fn view(&self) -> DetachRequestV {
        DetachRequestV {
            fragment_hash: self.fragment_hash@,
            target_chain: self.target_chain,
            target_account: self.target_account@,
        }
    }
}

/// A finalization produced by the off-chain payload signer and submitted back
/// on-chain as an unsigned transaction.
#[derive(Clone, Debug)]
pub struct DetachInternalData {
    /// The worker identity (ed25519 public key, 32 bytes) that signed the
    /// submission.
    pub public: Vec<u8>,
    pub fragment_hash: Vec<u8>,
    pub target_chain: SupportedChains,
    pub target_account: Vec<u8>,
    /// The 65-byte recoverable external-chain signature (r ‖ s ‖ v, with 27
    /// added to the recovery byte).
    pub remote_signature: Vec<u8>,
    /// The replay-protection nonce carried to the target chain.
    pub nonce: u64,
}

pub struct DetachInternalDataV {
    pub public: Seq<u8>,
    pub fragment_hash: Seq<u8>,
    pub target_chain: SupportedChains,
    pub target_account: Seq<u8>,
    pub remote_signature: Seq<u8>,
    pub nonce: u64,
}

impl View for DetachInternalData {
    type V = DetachInternalDataV;

    open spec fn view(&self) -> DetachInternalDataV {
        DetachInternalDataV {
            public: self.public@,
            fragment_hash: self.fragment_hash@,
            target_chain: self.target_chain,
            target_account: self.target_account@,
            remote_signature: self.remote_signature@,
            nonce: self.nonce,
        }
    }
}

impl DetachInternalData {
    /// The worker identity key that authenticates this finalization.
    pub fn public(&self) -> (r: &Vec<u8>)
        ensures
            r@ == self@.public,
    {
        &self.public
    }
}

/// The permanent record of an exported asset, keyed by its hash.
#[derive(Clone, Debug)]
pub struct ExportData {
    /// The chain the asset was exported to.
    pub chain: SupportedChains,
    /// The receiving account on that chain.
    pub owner: Vec<u8>,
    /// The nonce the accepted finalization carried.
    pub nonce: u64,
}

pub struct ExportDataV {
    pub chain: SupportedChains,
    pub owner: Seq<u8>,
    pub nonce: u64,
}

impl View for ExportData {
    type V = ExportDataV;

    open spec fn view(&self) -> ExportDataV {
        ExportDataV { chain: self.chain, owner: self.owner@, nonce: self.nonce }
    }
}

/// An event deposited by the execution of a call.
#[derive(Clone, Debug)]
pub enum Event {
    /// An asset was detached: carries the asset hash and the remote signature
    /// external relayers present to the target chain.
    Detached(Vec<u8>, Vec<u8>),
}

pub enum EventV {
    Detached(Seq<u8>, Seq<u8>),
}

impl View for Event {
    type V = EventV;

    open spec fn view(&self) -> EventV {
        match self {
            Event::Detached(hash, sig) => EventV::Detached(hash@, sig@),
        }
    }
}

/// Request-time errors of the detach pallet, surfaced synchronously to the
/// caller; no state changes when one is returned.
#[derive(Clone, Copy, PartialEq, Eq, Structural, Debug)]
pub enum Error {
    /// The off-chain signer could not produce the external-chain signature.
    SigningFailed,
    /// No locally derived key is a member of the authority set.
    NoValidator,
    /// The requester is not the recorded owner of the asset.
    Unauthorized,
    /// The asset already has an export record.
    FragmentDetached,
}

/// The outcome of dispatching a call: a pallet error, or a rejected origin.
#[derive(Clone, Copy, PartialEq, Eq, Structural, Debug)]
pub enum DispatchError {
    /// The call requires a different origin (root, signed or unsigned).
    BadOrigin,
    /// A pallet error.
    Module(Error),
}

/// Errors of the off-chain payload signer. A failing request is logged and
/// dropped for this attempt; the remaining batch continues.
#[derive(Clone, Copy, PartialEq, Eq, Structural, Debug)]
pub enum OffchainError {
    /// No locally derived key is a member of the authority set.
    NoValidator,
    /// The target account is not exactly 20 bytes.
    ParamsInvalid,
    /// The external-chain signing call failed.
    SigningFailed,
}

/// Admission errors: a transaction rejected at the pool boundary; it never
/// reaches execution and no state mutation occurs.
#[derive(Clone, Copy, PartialEq, Eq, Structural, Debug)]
pub enum InvalidTransaction {
    /// The call is not one the pallet admits unsigned.
    BadCall,
    /// The submitting identity is not in the trusted worker key set.
    BadSigner,
    /// The identity signature over the finalization payload does not verify.
    BadProof,
}

/// The pool-level validity granted to an admitted finalization.
pub struct ValidTransaction {
    /// The de-duplication tag: asset hash, target chain, target account and
    /// nonce of the finalization.
    pub provides_fragment_hash: Vec<u8>,
    pub provides_target_chain: SupportedChains,
    pub provides_target_account: Vec<u8>,
    pub provides_nonce: u64,
    /// How many blocks the admitted transaction stays valid.
    pub longevity: u64,
    /// Whether the transaction is propagated to peers.
    pub propagate: bool,
}

pub struct ValidTransactionV {
    pub provides_fragment_hash: Seq<u8>,
    pub provides_target_chain: SupportedChains,
    pub provides_target_account: Seq<u8>,
    pub provides_nonce: u64,
    pub longevity: u64,
    pub propagate: bool,
}

impl View for ValidTransaction {
    type V = ValidTransactionV;

    open spec fn view(&self) -> ValidTransactionV {
        ValidTransactionV {
            provides_fragment_hash: self.provides_fragment_hash@,
            provides_target_chain: self.provides_target_chain,
            provides_target_account: self.provides_target_account@,
            provides_nonce: self.provides_nonce,
            longevity: self.longevity,
            propagate: self.propagate,
        }
    }
}

/// A call of the detach pallet, as it arrives for dispatch or pool
/// validation.
pub enum Call {
    AddEthAuth { public: Vec<u8> },
    DelEthAuth { public: Vec<u8> },
    AddKey { public: Vec<u8> },
    DelKey { public: Vec<u8> },
    Detach { fragment_hash: Vec<u8>, target_chain: SupportedChains, target_account: Vec<u8>, owner: FragmentOwner },
    InternalFinalizeDetach { data: DetachInternalData, signature: Vec<u8> },
}

pub enum CallV {
    AddEthAuth { public: Seq<u8> },
    DelEthAuth { public: Seq<u8> },
    AddKey { public: Seq<u8> },
    DelKey { public: Seq<u8> },
    Detach { fragment_hash: Seq<u8>, target_chain: SupportedChains, target_account: Seq<u8>, owner: FragmentOwnerV },
    InternalFinalizeDetach { data: DetachInternalDataV, signature: Seq<u8> },
}

impl View for Call {
    type V = CallV;

    open spec fn view(&self) -> CallV {
        match self {
            Call::AddEthAuth { public } => CallV::AddEthAuth { public: public@ },
            Call::DelEthAuth { public } => CallV::DelEthAuth { public: public@ },
            Call::AddKey { public } => CallV::AddKey { public: public@ },
            Call::DelKey { public } => CallV::DelKey { public: public@ },
            Call::Detach { fragment_hash, target_chain, target_account, owner } => CallV::Detach {
                fragment_hash: fragment_hash@,
                target_chain: *target_chain,
                target_account: target_account@,
                owner: owner@,
            },
            Call::InternalFinalizeDetach { data, signature } => CallV::InternalFinalizeDetach {
                data: data@,
                signature: signature@,
            },
        }
    }
}

} // verus!
