//! Keys, account identifiers and their text forms, done by the chain's own
//! crates.
use vstd::prelude::*;
use crate::bytes::AccountId;
use array_bytes::Dehexify;
use sp_core::crypto::{Pair, Ss58Codec};
use sp_runtime::traits::IdentifyAccount;

verus! {

/// The character of a hexadecimal digit, lower case.
pub open spec fn hex_char_of(n: int) -> char {
    if n < 10 {
        (48 + n) as char
    } else {
        (87 + n) as char
    }
}

/// The lower-case hexadecimal form of a byte string: two digits per byte,
/// the high one first.
pub open spec fn hex_chars(bytes: Seq<u8>) -> Seq<char> {
    Seq::new(
        2 * bytes.len(),
        |i: int| if i % 2 == 0 {
            hex_char_of(bytes[i / 2] as int / 16)
        } else {
            hex_char_of(bytes[i / 2] as int % 16)
        },
    )
}

/// The value of a hexadecimal digit (either case).
pub open spec fn hex_digit_value(c: char) -> Option<int> {
    if '0' <= c && c <= '9' {
        Some(c as int - 48)
    } else if 'a' <= c && c <= 'f' {
        Some(c as int - 87)
    } else if 'A' <= c && c <= 'F' {
        Some(c as int - 55)
    } else {
        None
    }
}

/// A text without its `0x` prefix, if it has one.
pub open spec fn strip_0x(s: Seq<char>) -> Seq<char> {
    if s.len() >= 2 && s[0] == '0' && s[1] == 'x' {
        s.subrange(2, s.len() as int)
    } else {
        s
    }
}

/// The text is an even number of hexadecimal digits.
pub open spec fn hex_valid(h: Seq<char>) -> bool {
    &&& h.len() % 2 == 0
    &&& forall|i: int| 0 <= i < h.len() ==> (#[trigger] hex_digit_value(h[i])) is Some
}

/// The bytes that an even number of hexadecimal digits stand for.
pub open spec fn hex_decode(h: Seq<char>) -> Seq<u8> {
    Seq::new(
        h.len() / 2,
        |i: int| (hex_digit_value(h[2 * i])->Some_0 * 16 + hex_digit_value(h[2 * i + 1])->Some_0) as u8,
    )
}

/// Every character of the text is ASCII.
pub open spec fn is_ascii_text(s: Seq<char>) -> bool {
    forall|i: int| 0 <= i < s.len() ==> (s[i] as u32) < 128
}

/// Calls `hex::encode`. The contract claims what the crate's source shows:
/// two lower-case hexadecimal digits per byte, the high one first.
#[verifier::external_body]
pub(crate) fn hex_encode(data: &[u8]) -> (r: String)
    ensures
        r@ == hex_chars(data@),
{
    hex::encode(data)
}

/// Calls `Dehexify::dehexify` of `array_bytes` for `Vec<u8>` on an ASCII text.
/// The contract claims what the crate's source shows: an optional `0x` prefix
/// is dropped, and the rest is read two digits (of either case) to a byte,
/// the high one first; an odd number of characters or a character that is no
/// hexadecimal digit is an error.
#[verifier::external_body]
pub(crate) fn dehexify(s: &str) -> (r: Result<Vec<u8>, ()>)
    requires
        is_ascii_text(s@),
    ensures
        r is Ok <==> hex_valid(strip_0x(s@)),
        r is Ok ==> r->Ok_0@ == hex_decode(strip_0x(s@)),
{
    match <Vec<u8>>::dehexify(s) {
        Ok(v) => Ok(v),
        Err(_) => Err(()),
    }
}

/// The sr25519 public key that a secret URI derives, if the URI is valid.
pub uninterp spec fn sr25519_public_of(suri: Seq<char>) -> Option<Seq<u8>>;

/// Calls `Pair::from_string` of `sp_core::sr25519` (no password) and takes
/// the public key. The contract claims only that the result is a function of
/// the URI (named `sr25519_public_of`); whether a URI is valid is not stated.
#[verifier::external_body]
pub(crate) fn sr25519_public_from_suri(suri: &str) -> (r: Option<[u8; 32]>)
    ensures
        match r {
            Some(k) => sr25519_public_of(suri@) == Some(k@),
            None => sr25519_public_of(suri@) is None,
        },
{
    match sp_core::sr25519::Pair::from_string(suri, None) {
        Ok(pair) => Some(<[u8; 32]>::from(pair.public())),
        Err(_) => None,
    }
}

/// Calls `IdentifyAccount::into_account` of `sp_runtime::MultiSigner` on an
/// sr25519 key. The contract claims what the crate's source shows: the
/// account identifier is the key's 32 bytes.
#[verifier::external_body]
pub(crate) fn sr25519_into_account(public: &[u8; 32]) -> (r: AccountId)
    ensures
        r == *public,
{
    let signer = sp_runtime::MultiSigner::from(sp_core::sr25519::Public::from_raw(*public));
    let account: sp_runtime::AccountId32 = signer.into_account();
    account.into()
}

/// Calls `TryFrom<&[u8]>` of `sp_core::sr25519::Public`. The contract claims
/// what the crate's source shows: a key for exactly 32 bytes, those bytes.
#[verifier::external_body]
pub(crate) fn sr25519_public_from_slice(bytes: &[u8]) -> (r: Option<[u8; 32]>)
    ensures
        r is Some <==> bytes@.len() == 32,
        r is Some ==> r->Some_0@ == bytes@,
{
    match sp_core::sr25519::Public::try_from(bytes) {
        Ok(public) => Some(<[u8; 32]>::from(public)),
        Err(_) => None,
    }
}

/// The SS58 text of a public key under an address format.
pub uninterp spec fn ss58_of(public: Seq<u8>, version: u16) -> Seq<char>;

/// Calls `Ss58Codec::to_ss58check_with_version` on an sr25519 public key. The
/// contract claims that the text is a function of the key and the format
/// (named `ss58_of`).
#[verifier::external_body]
pub(crate) fn to_ss58check_with_version(public: &[u8; 32], version: u16) -> (r: String)
    ensures
        r@ == ss58_of(public@, version),
{
    sp_core::sr25519::Public::from_raw(*public).to_ss58check_with_version(version.into())
}

/// Calls `Ss58Codec::from_ss58check` of `sp_runtime::AccountId32`. The
/// contract claims what the crate's source shows for a text that
/// `to_ss58check_with_version` wrote under the generic Substrate format (42,
/// a registered format): it decodes back to the same 32 bytes. What any other
/// text gives is not stated.
#[verifier::external_body]
pub(crate) fn account_from_ss58check(s: &str) -> (r: Option<AccountId>)
    ensures
        forall|b: Seq<u8>|
            b.len() == 32 && s@ == #[trigger] ss58_of(b, 42) ==> r is Some && r->Some_0@ == b,
{
    match <sp_runtime::AccountId32 as Ss58Codec>::from_ss58check(s) {
        Ok(account) => Some(account.into()),
        Err(_) => None,
    }
}

} // verus!
