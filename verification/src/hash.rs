//! The Keccak-256 digest that gives an account its code hash.

use vstd::prelude::*;

use crate::primitives::B256;

verus! {

/// The Keccak-256 digest of a byte string, as `alloy_primitives::keccak256`
/// computes it.
pub uninterp spec fn keccak256_digest(data: Seq<u8>) -> Seq<u8>;

/// The Keccak-256 digest of the empty string,
/// `0xc5d2460186f7233c927e7db2dcc703c0e500b653ca82273b7bfad8045d85a470`.
pub open spec fn keccak256_of_empty() -> Seq<u8> {
    seq![0xc5u8, 0xd2u8, 0x46u8, 0x01u8, 0x86u8, 0xf7u8, 0x23u8, 0x3cu8, 0x92u8, 0x7eu8, 0x7du8, 0xb2u8, 0xdcu8, 0xc7u8, 0x03u8, 0xc0u8, 0xe5u8, 0x00u8, 0xb6u8, 0x53u8, 0xcau8, 0x82u8, 0x27u8, 0x3bu8, 0x7bu8, 0xfau8, 0xd8u8, 0x04u8, 0x5du8, 0x85u8, 0xa4u8, 0x70u8]
}

/// The Keccak-256 digest of 32 zero bytes,
/// `0x290decd9548b62a8d60345a988386fc84ba6bc95484008f6362f93160ef3e563`.
pub open spec fn keccak256_of_32_zero_bytes() -> Seq<u8> {
    seq![0x29u8, 0x0du8, 0xecu8, 0xd9u8, 0x54u8, 0x8bu8, 0x62u8, 0xa8u8, 0xd6u8, 0x03u8, 0x45u8, 0xa9u8, 0x88u8, 0x38u8, 0x6fu8, 0xc8u8, 0x4bu8, 0xa6u8, 0xbcu8, 0x95u8, 0x48u8, 0x40u8, 0x08u8, 0xf6u8, 0x36u8, 0x2fu8, 0x93u8, 0x16u8, 0x0eu8, 0xf3u8, 0xe5u8, 0x63u8]
}

/// The Keccak-256 digest of 64 zero bytes,
/// `0xad3228b676f7d3cd4284a5443f17f1962b36e491b30a40b2405849e597ba5fb5`.
pub open spec fn keccak256_of_64_zero_bytes() -> Seq<u8> {
    seq![0xadu8, 0x32u8, 0x28u8, 0xb6u8, 0x76u8, 0xf7u8, 0xd3u8, 0xcdu8, 0x42u8, 0x84u8, 0xa5u8, 0x44u8, 0x3fu8, 0x17u8, 0xf1u8, 0x96u8, 0x2bu8, 0x36u8, 0xe4u8, 0x91u8, 0xb3u8, 0x0au8, 0x40u8, 0xb2u8, 0x40u8, 0x58u8, 0x49u8, 0xe5u8, 0x97u8, 0xbau8, 0x5fu8, 0xb5u8]
}

/// Calls `alloy_primitives::keccak256` on the given bytes, all of them.
///
/// Trusted: the contract claims that the 32 bytes returned are the named
/// digest of exactly the bytes passed in, so that equal inputs give equal
/// hashes, and it pins that digest to Keccak-256 on three published inputs:
/// the empty string, 32 zero bytes and 64 zero bytes (the last two differ, so
/// a digest of only a 32-byte prefix breaks the contract).  Nothing more is
/// claimed of the digest.
#[verifier::external_body]
pub(crate) fn keccak256(data: &[u8]) -> (r: B256)
    ensures
        r@ == keccak256_digest(data@),
        data@.len() == 0 ==> r@ == keccak256_of_empty(),
        data@ == Seq::new(32, |i: int| 0u8) ==> r@ == keccak256_of_32_zero_bytes(),
        data@ == Seq::new(64, |i: int| 0u8) ==> r@ == keccak256_of_64_zero_bytes(),
{
    B256 { bytes: alloy_primitives::keccak256(data).0 }
}

} // verus!
