//! Byte-level building blocks: big-endian encodings, byte-string equality,
//! and the fixed Ethereum signed-message prefix. The external-chain payload
//! layout is a wire-level contract, so every encoding here is exact.

use vstd::prelude::*;

verus! {

/// The 8-byte big-endian encoding of a 64-bit unsigned integer.
pub open spec fn be64_of(x: u64) -> Seq<u8> {
    seq![
        (x >> 56) as u8,
        (x >> 48) as u8,
        (x >> 40) as u8,
        (x >> 32) as u8,
        (x >> 24) as u8,
        (x >> 16) as u8,
        (x >> 8) as u8,
        x as u8,
    ]
}

/// The 32-byte big-endian encoding of a 64-bit unsigned integer:
/// 24 zero bytes followed by the 8-byte big-endian form.
pub open spec fn be256_of_u64(x: u64) -> Seq<u8> {
    Seq::new(24, |i: int| 0u8) + be64_of(x)
}

/// The fixed Ethereum signed-message prefix for a 32-byte digest:
/// `"\x19Ethereum Signed Message:\n32"`, 28 bytes.
pub open spec fn eth_message_prefix() -> Seq<u8> {
    seq![
        0x19u8, 0x45, 0x74, 0x68, 0x65, 0x72, 0x65, 0x75, 0x6d, 0x20, 0x53, 0x69, 0x67, 0x6e,
        0x65, 0x64, 0x20, 0x4d, 0x65, 0x73, 0x73, 0x61, 0x67, 0x65, 0x3a, 0x0a, 0x33, 0x32,
    ]
}

pub fn be64(x: u64) -> (r: Vec<u8>)
    ensures
        r@ == be64_of(x),
{
    let mut r: Vec<u8> = Vec::new();
    r.push((x >> 56) as u8);
    r.push((x >> 48) as u8);
    r.push((x >> 40) as u8);
    r.push((x >> 32) as u8);
    r.push((x >> 24) as u8);
    r.push((x >> 16) as u8);
    r.push((x >> 8) as u8);
    r.push(x as u8);
    proof {
        assert(r@ =~= be64_of(x));
    }
    r
}

pub fn be256_u64(x: u64) -> (r: Vec<u8>)
    ensures
        r@ == be256_of_u64(x),
{
    let mut r: Vec<u8> = Vec::new();
    let mut i: usize = 0;
    while i < 24
        invariant
            i <= 24,
            r@ =~= Seq::new(i as nat, |j: int| 0u8),
        decreases 24 - i,
    {
        r.push(0u8);
        i += 1;
        proof {
            assert(r@ =~= Seq::new(i as nat, |j: int| 0u8));
        }
    }
    let mut tail = be64(x);
    r.append(&mut tail);
    proof {
        assert(r@ =~= be256_of_u64(x));
    }
    r
}

pub fn eth_prefix() -> (r: Vec<u8>)
    ensures
        r@ == eth_message_prefix(),
{
    let mut r: Vec<u8> = Vec::new();
    r.push(0x19u8);
    r.push(0x45u8);
    r.push(0x74u8);
    r.push(0x68u8);
    r.push(0x65u8);
    r.push(0x72u8);
    r.push(0x65u8);
    r.push(0x75u8);
    r.push(0x6du8);
    r.push(0x20u8);
    r.push(0x53u8);
    r.push(0x69u8);
    r.push(0x67u8);
    r.push(0x6eu8);
    r.push(0x65u8);
    r.push(0x64u8);
    r.push(0x20u8);
    r.push(0x4du8);
    r.push(0x65u8);
    r.push(0x73u8);
    r.push(0x73u8);
    r.push(0x61u8);
    r.push(0x67u8);
    r.push(0x65u8);
    r.push(0x3au8);
    r.push(0x0au8);
    r.push(0x33u8);
    r.push(0x32u8);
    proof {
        assert(r@ =~= eth_message_prefix());
    }
    r
}

/// Byte-string equality, decided elementwise.
pub fn bytes_eq(a: &Vec<u8>, b: &Vec<u8>) -> (r: bool)
    ensures
        r == (a@ == b@),
{
    if a.len() != b.len() {
        return false;
    }
    let n = a.len();
    let mut i: usize = 0;
    while i < n
        invariant
            n == a@.len(),
            n == b@.len(),
            i <= n,
            forall|j: int| 0 <= j < i ==> a@[j] == b@[j],
        decreases n - i,
    {
        if a[i] != b[i] {
            return false;
        }
        i += 1;
    }
    proof {
        assert(a@ =~= b@);
    }
    true
}

/// Copy of a byte string.
pub fn bytes_clone(a: &Vec<u8>) -> (r: Vec<u8>)
    ensures
        r@ == a@,
{
    let mut r: Vec<u8> = Vec::new();
    let n = a.len();
    let mut i: usize = 0;
    while i < n
        invariant
            n == a@.len(),
            i <= n,
            r@ =~= a@.take(i as int),
        decreases n - i,
    {
        r.push(a[i]);
        i += 1;
        proof {
            assert(r@ =~= a@.take(i as int));
        }
    }
    proof {
        assert(r@ =~= a@);
    }
    r
}

} // verus!
