//! Hashing and SCALE encoding, done by the chain's own crates.
use vstd::prelude::*;
use crate::bytes::AccountId;
use parity_scale_codec::{Decode, Encode};

verus! {

/// The BLAKE2b-256 digest of a byte string.
pub uninterp spec fn blake2_256_spec(data: Seq<u8>) -> Seq<u8>;

/// Calls `sp_io::hashing::blake2_256`. The contract claims that the digest is
/// a function of the input bytes alone (named `blake2_256_spec`); the 32-byte
/// length follows from the result type.
#[verifier::external_body]
pub(crate) fn blake2_256(data: &[u8]) -> (r: [u8; 32])
    ensures
        r@ == blake2_256_spec(data@),
{
    sp_io::hashing::blake2_256(data)
}

/// Calls `Encode::encode` of `parity_scale_codec` on a 32-byte array. The
/// contract claims what the codec's source shows for fixed-size byte arrays:
/// the bytes themselves, with no length prefix.
#[verifier::external_body]
pub(crate) fn encode_account(a: &AccountId) -> (r: Vec<u8>)
    ensures
        r@ == a@,
{
    a.encode()
}

/// Calls `Encode::encode` of `parity_scale_codec` on the tuple
/// `(&[u8; 9], &[u8; 32], &[u8; 32])`. The contract claims what the codec's
/// source shows: a tuple encodes as its fields one after the other, and a
/// fixed-size byte array as its bytes.
#[verifier::external_body]
pub(crate) fn encode_salted_pair(salt: &[u8; 9], a: &AccountId, b: &AccountId) -> (r: Vec<u8>)
    ensures
        r@ == salt@ + a@ + b@,
{
    (salt, a, b).encode()
}

/// Calls `Encode::encode` of `parity_scale_codec` on the tuple
/// `(&[u8; 9], &[u8; 32], &[u8; 32], &[u8; 32])`; the fields one after the other.
#[verifier::external_body]
pub(crate) fn encode_salted_triple(
    salt: &[u8; 9],
    a: &AccountId,
    b: &AccountId,
    c: &AccountId,
) -> (r: Vec<u8>)
    ensures
        r@ == salt@ + a@ + b@ + c@,
{
    (salt, a, b, c).encode()
}

/// Calls `Encode::encode` of `parity_scale_codec` on a pair of 32-byte arrays;
/// the two arrays one after the other.
#[verifier::external_body]
pub(crate) fn encode_account_pair(a: &AccountId, b: &AccountId) -> (r: Vec<u8>)
    ensures
        r@ == a@ + b@,
{
    (a, b).encode()
}

/// The little-endian bytes of a 32-bit integer.
pub open spec fn u32_le_bytes(x: u32) -> Seq<u8> {
    seq![
        (x % 256) as u8,
        ((x / 256) % 256) as u8,
        ((x / 65536) % 256) as u8,
        ((x / 16777216) % 256) as u8,
    ]
}

/// Calls `Encode::encode` of `parity_scale_codec` on a `u32`. The contract
/// claims what the codec's source shows: the four little-endian bytes.
#[verifier::external_body]
pub(crate) fn encode_u32(x: u32) -> (r: Vec<u8>)
    ensures
        r@ == u32_le_bytes(x),
{
    x.encode()
}

/// Calls `Decode::decode` of `parity_scale_codec` for a 32-byte array, reading
/// from `sp_runtime::traits::TrailingZeroInput` over the given 32 bytes. The
/// contract claims what both sources show: the input is read as it is, and
/// this read cannot fail.
#[verifier::external_body]
pub(crate) fn decode_from_entropy(entropy: &[u8; 32]) -> (r: [u8; 32])
    ensures
        r == *entropy,
{
    <[u8; 32]>::decode(&mut sp_runtime::traits::TrailingZeroInput::new(entropy.as_ref()))
        .expect("a trailing-zero input never runs out")
}

} // verus!
