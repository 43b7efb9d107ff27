//! Canonical byte formats of the detach protocol.
//!
//! Two formats live here. The external-chain signing payload
//! (`detach_payload`, then keccak, prefix, keccak again) is a wire-level
//! compatibility contract with the target chain's contract and must be
//! bit-exact. The finalization encoding (`enc_finalization`) frames a
//! finalization for the worker's identity signature; producer and validator
//! both use it.

use vstd::prelude::*;

use crate::bytes::{be256_of_u64, be256_u64, be64, be64_of, bytes_clone, eth_message_prefix, eth_prefix};
use crate::crypto::{keccak256_of, keccak_256};
use crate::types::{DetachInternalData, DetachInternalDataV, SupportedChains, spec_chain_id};

verus! {

/// The index byte distinguishing the supported chains in the finalization
/// encoding.
pub open spec fn chain_index_byte(chain: SupportedChains) -> u8 {
    match chain {
        SupportedChains::EthereumMainnet => 0,
        SupportedChains::EthereumRinkeby => 1,
        SupportedChains::EthereumGoerli => 2,
    }
}

pub fn chain_index(chain: SupportedChains) -> (r: u8)
    ensures
        r == chain_index_byte(chain),
{
    match chain {
        SupportedChains::EthereumMainnet => 0,
        SupportedChains::EthereumRinkeby => 1,
        SupportedChains::EthereumGoerli => 2,
    }
}

/// The canonical external-chain payload:
/// asset hash (32) ‖ big-endian chain id (32) ‖ target account (20) ‖
/// big-endian nonce (8).
pub open spec fn detach_payload(
    fragment_hash: Seq<u8>,
    target_chain: SupportedChains,
    target_account: Seq<u8>,
    nonce: u64,
) -> Seq<u8> {
    fragment_hash + be256_of_u64(spec_chain_id(target_chain)) + target_account + be64_of(nonce)
}

/// The prehash the external-chain key signs: the payload is hashed, wrapped
/// in the fixed Ethereum signed-message prefix, and hashed again.
pub open spec fn detach_digest(
    fragment_hash: Seq<u8>,
    target_chain: SupportedChains,
    target_account: Seq<u8>,
    nonce: u64,
) -> Seq<u8> {
    keccak256_of(
        eth_message_prefix() + keccak256_of(
            detach_payload(fragment_hash, target_chain, target_account, nonce),
        ),
    )
}

/// A 65-byte recoverable signature with 27 added to its recovery byte, the
/// external chain's convention.
pub open spec fn sig_with_27(sig: Seq<u8>) -> Seq<u8> {
    sig.update(64, (sig[64] + 27) as u8)
}

/// The framing of a finalization that the worker's identity key signs:
/// identity (32) ‖ asset hash (32) ‖ chain index (1) ‖ big-endian nonce (8) ‖
/// big-endian account length (8) ‖ account ‖ big-endian signature length (8) ‖
/// remote signature.
pub open spec fn enc_finalization(d: DetachInternalDataV) -> Seq<u8> {
    d.public + d.fragment_hash + seq![chain_index_byte(d.target_chain)] + be64_of(d.nonce)
        + be64_of(d.target_account.len() as u64) + d.target_account + be64_of(
        d.remote_signature.len() as u64,
    ) + d.remote_signature
}

pub fn build_detach_payload(
    fragment_hash: &Vec<u8>,
    target_chain: SupportedChains,
    target_account: &Vec<u8>,
    nonce: u64,
) -> (r: Vec<u8>)
    ensures
        r@ == detach_payload(fragment_hash@, target_chain, target_account@, nonce),
{
    let mut r = bytes_clone(fragment_hash);
    let mut chain_be = be256_u64(chain_id_value(target_chain));
    r.append(&mut chain_be);
    let mut account = bytes_clone(target_account);
    r.append(&mut account);
    let mut nonce_be = be64(nonce);
    r.append(&mut nonce_be);
    r
}

fn chain_id_value(chain: SupportedChains) -> (r: u64)
    ensures
        r == spec_chain_id(chain),
{
    crate::types::chain_id_of(chain)
}

pub fn compute_detach_digest(
    fragment_hash: &Vec<u8>,
    target_chain: SupportedChains,
    target_account: &Vec<u8>,
    nonce: u64,
) -> (r: Vec<u8>)
    ensures
        r@ == detach_digest(fragment_hash@, target_chain, target_account@, nonce),
        r@.len() == 32,
{
    let payload = build_detach_payload(fragment_hash, target_chain, target_account, nonce);
    let mut digest1 = keccak_256(&payload);
    let mut msg = eth_prefix();
    msg.append(&mut digest1);
    keccak_256(&msg)
}

/// Add 27 to the recovery byte of a recoverable signature.
pub fn adjust_recovery_byte(sig: &mut Vec<u8>)
    requires
        old(sig)@.len() == 65,
        old(sig)@[64] <= 3,
    ensures
        final(sig)@ == sig_with_27(old(sig)@),
{
    let v = sig[64];
    sig[64] = v + 27;
    proof {
        assert(sig@ =~= sig_with_27(old(sig)@));
    }
}

pub fn encode_finalization(d: &DetachInternalData) -> (r: Vec<u8>)
    ensures
        r@ == enc_finalization(d@),
{
    let mut r = bytes_clone(&d.public);
    let mut hash = bytes_clone(&d.fragment_hash);
    r.append(&mut hash);
    r.push(chain_index(d.target_chain));
    let mut nonce_be = be64(d.nonce);
    r.append(&mut nonce_be);
    let mut account_len_be = be64(d.target_account.len() as u64);
    r.append(&mut account_len_be);
    let mut account = bytes_clone(&d.target_account);
    r.append(&mut account);
    let mut sig_len_be = be64(d.remote_signature.len() as u64);
    r.append(&mut sig_len_be);
    let mut sig = bytes_clone(&d.remote_signature);
    r.append(&mut sig);
    proof {
        assert(r@ =~= enc_finalization(d@));
    }
    r
}

} // verus!
