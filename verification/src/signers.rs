//! The two parties of a payment, the multi-signature account they share, and
//! the reference number of the payment.
use vstd::prelude::*;
use crate::bytes::AccountId;
use crate::crypto::{
    blake2_256, blake2_256_spec, decode_from_entropy, encode_account, encode_salted_pair,
    encode_salted_triple,
};

verus! {

/// The salt that goes in front of every multi-signature account derivation:
/// the bytes of `vane/salt`.
pub const VANE_SALT: [u8; 9] = [118, 97, 110, 101, 47, 115, 97, 108, 116];

/// The number of bytes of a reference number.
pub const REFERENCE_LEN: usize = 6;

/// How a dispute over a payment is to be resolved.
#[derive(Clone, Copy, Debug, PartialEq, Eq)]
pub enum Resolver {
    /// A legal team, which is allowed to sign the transaction.
    LegalTeam(AccountId),
    /// A governance vote.
    Governance,
    /// Both (reserved for later use).
    Both(AccountId),
}

/// The accounts allowed to sign for a payment's multi-signature account.
#[derive(Clone, Copy, Debug, PartialEq, Eq)]
pub struct AccountSigners {
    pub payee: AccountId,
    pub payer: AccountId,
    pub resolver: Option<Resolver>,
}

/// The legal team's account of a resolver, if it is a legal team.
pub open spec fn legal_account_spec(resolver: Option<Resolver>) -> Option<AccountId> {
    match resolver {
        Some(Resolver::LegalTeam(a)) => Some(a),
        _ => None,
    }
}

/// The multi-signature account of a set of signers: the BLAKE2b-256 digest of
/// the salt, the payee, the payer and, for a legal-team resolver, the legal
/// team's account.
pub open spec fn multi_id_spec(s: AccountSigners) -> Seq<u8> {
    match legal_account_spec(s.resolver) {
        Some(l) => blake2_256_spec(VANE_SALT@ + s.payee@ + s.payer@ + l@),
        None => blake2_256_spec(VANE_SALT@ + s.payee@ + s.payer@),
    }
}

/// The reference number of a payment: bytes 20 to 25 of the digest of the
/// digests of the payer, the payee and their multi-signature account.
pub open spec fn reference_no_spec(payer: Seq<u8>, payee: Seq<u8>, multi_id: Seq<u8>) -> Seq<u8> {
    blake2_256_spec(
        blake2_256_spec(payer) + blake2_256_spec(payee) + blake2_256_spec(multi_id),
    ).subrange(20, 26)
}

impl AccountSigners {
    /// Signers for a payment from `payer` to `payee`.
    pub fn new(payee: AccountId, payer: AccountId, resolver: Option<Resolver>) -> (r: Self)
        ensures
            r.payee == payee,
            r.payer == payer,
            r.resolver == resolver,
    {
        AccountSigners { payee, payer, resolver }
    }

    /// The payer.
    pub fn get_payer(&self) -> (r: &AccountId)
        ensures
            *r == self.payer,
    {
        &self.payer
    }

    /// The payee.
    pub fn get_payee(&self) -> (r: &AccountId)
        ensures
            *r == self.payee,
    {
        &self.payee
    }

    /// The resolver.
    pub fn get_resolver(&self) -> (r: &Option<Resolver>)
        ensures
            *r == self.resolver,
    {
        &self.resolver
    }

    /// The legal team's account, where the resolver is a legal team.
    pub fn get_legal_account(&self) -> (r: Option<AccountId>)
        ensures
            r == legal_account_spec(self.resolver),
    {
        if let Some(Resolver::LegalTeam(account)) = &self.resolver {
            Some(*account)
        } else {
            None
        }
    }
}

/// The multi-signature account shared by a set of signers.
pub fn derive_multi_id(account_object: &AccountSigners) -> (r: AccountId)
    ensures
        r@ == multi_id_spec(*account_object),
        legal_account_spec(account_object.resolver) is None ==> r@ == blake2_256_spec(
            seq![118u8, 97u8, 110u8, 101u8, 47u8, 115u8, 97u8, 108u8, 116u8] + account_object.payee@ + account_object.payer@,
        ),
{
    let opt_acc3 = match account_object.get_resolver() {
        Some(_resolver) => account_object.get_legal_account(),
        None => None,
    };
    let acc1 = account_object.get_payee();
    let acc2 = account_object.get_payer();
    let entropy = match opt_acc3 {
        Some(acc3) => {
            let encoded = encode_salted_triple(&VANE_SALT, acc1, acc2, &acc3);
            blake2_256(encoded.as_slice())
        }
        None => {
            let encoded = encode_salted_pair(&VANE_SALT, acc1, acc2);
            blake2_256(encoded.as_slice())
        }
    };
    decode_from_entropy(&entropy)
}

/// The reference number of a payment from `payer` to `payee` through `multi_id`.
pub fn derive_reference_no(payer: &AccountId, payee: &AccountId, multi_id: &AccountId) -> (r: Vec<u8>)
    ensures
        r@ == reference_no_spec(payer@, payee@, multi_id@),
        r@ == blake2_256_spec(
            blake2_256_spec(payer@) + blake2_256_spec(payee@) + blake2_256_spec(multi_id@),
        ).subrange(20, 26),
        r@.len() == REFERENCE_LEN,
{
    let h1 = blake2_256(encode_account(payer).as_slice());
    let h2 = blake2_256(encode_account(payee).as_slice());
    let h3 = blake2_256(encode_account(multi_id).as_slice());
    let mut buffer: Vec<u8> = Vec::new();
    crate::bytes::extend_bytes(&mut buffer, h1.as_slice());
    crate::bytes::extend_bytes(&mut buffer, h2.as_slice());
    crate::bytes::extend_bytes(&mut buffer, h3.as_slice());
    let reference = blake2_256(buffer.as_slice());
    let mut r: Vec<u8> = Vec::new();
    let mut i: usize = 20;
    while i < 26
        invariant
            20 <= i <= 26,
            reference@.len() == 32,
            r@ == reference@.subrange(20, i as int),
        decreases 26 - i,
    {
        r.push(reference[i]);
        i = i + 1;
        assert(r@ =~= reference@.subrange(20, i as int));
    }
    assert(buffer@ == blake2_256_spec(payer@) + blake2_256_spec(payee@) + blake2_256_spec(multi_id@));
    r
}

/// The accounts of a cross-chain payment, without a resolver.
#[derive(Clone, Copy, Debug, PartialEq, Eq)]
pub struct PairSigners {
    pub payee: AccountId,
    pub payer: AccountId,
}

/// The multi-signature account of a cross-chain payment: the digest of the
/// salt, the payer and the payee, in that order.
pub open spec fn pair_multi_id_spec(s: PairSigners) -> Seq<u8> {
    blake2_256_spec(VANE_SALT@ + s.payer@ + s.payee@)
}

impl PairSigners {
    /// Signers for a cross-chain payment from `payer` to `payee`.
    pub fn new(payee: AccountId, payer: AccountId) -> (r: Self)
        ensures
            r.payee == payee,
            r.payer == payer,
    {
        PairSigners { payee, payer }
    }

    /// The payer and the payee, in that order.
    pub fn get_accounts(&self) -> (r: (&AccountId, &AccountId))
        ensures
            *r.0 == self.payer,
            *r.1 == self.payee,
    {
        (&self.payer, &self.payee)
    }
}

/// The multi-signature account shared by the two parties of a cross-chain payment.
pub fn derive_pair_multi_id(account_object: &PairSigners) -> (r: AccountId)
    ensures
        r@ == pair_multi_id_spec(*account_object),
        r@ == blake2_256_spec(seq![118u8, 97u8, 110u8, 101u8, 47u8, 115u8, 97u8, 108u8, 116u8] + account_object.payer@ + account_object.payee@),
{
    let (acc1, acc2) = account_object.get_accounts();
    let encoded = encode_salted_pair(&VANE_SALT, acc1, acc2);
    let entropy = blake2_256(encoded.as_slice());
    decode_from_entropy(&entropy)
}

} // verus!
