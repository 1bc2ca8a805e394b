//! The cross-chain payment pallet: a payer's DOT held in reserve on the relay
//! chain is minted here as a derivative into the multi-signature account, and
//! once both parties confirm it is burnt and sent on to the payee on the relay
//! chain. It keeps its signers and receipts in the payment pallet's storage.
use vstd::prelude::*;
use crate::byte_map::{ByteMap, seq_at};
use crate::bytes::{AccountId, BlockNumber, account_eq, account_bytes_key, pair_key, to_vec};
use crate::effects::{CurrencyId, Effect, Event, RelayMessage, Token};
use crate::payment::{
    Confirm, PaymentError, PaymentState, can_lock_payment, pay_multi, payment_locked, plain_signers,
    same_payment_state,
};
use crate::receipt::{TxnReceipt, record_receipts};
use crate::signers::{AccountSigners, derive_multi_id, derive_reference_no, multi_id_spec};

verus! {

/// The amount of the relay token that a confirmed cross-chain payment sends to
/// the payee.
pub const RELAY_TRANSFER_AMOUNT: u128 = 999;

/// The errors of the cross-chain payment pallets.
#[derive(Clone, Copy, Debug, PartialEq, Eq, Structural)]
pub enum XcmError {
    NotEnoughFees,
    UnexpectedError,
    NotSupportedYet,
    NotTheCaller,
    ErrorSendingXcm,
    ReceiptNotFound,
    /// An error of the payment pallet's confirmation rules.
    Payment(PaymentError),
}

/// The decision of a confirmation by `user`, given who confirmed before (`cs`),
/// whether the payer's allowed signers are known and whether they share the
/// confirmers' multi-signature account: an error, or `Ok(false)` for a first
/// confirmation by the payee, or `Ok(true)` for the payer's, which releases
/// the funds.
pub open spec fn confirm_decision(
    cs: Seq<AccountId>,
    user: AccountId,
    who: Confirm,
    has_allowed: bool,
    multis_match: bool,
) -> Result<bool, PaymentError> {
    if cs.len() == 0 {
        if who == Confirm::Payer {
            Err(PaymentError::WaitForPayeeToConfirm)
        } else {
            Ok(false)
        }
    } else if cs[0] == user {
        Err(PaymentError::PayeeAlreadyConfirmed)
    } else if cs.len() > 1 {
        Err(PaymentError::ExceededSigners)
    } else if !has_allowed {
        Err(PaymentError::NotAllowedPayeeOrPaymentNotInitialized)
    } else if !multis_match {
        Err(PaymentError::FailedToMatchAccounts)
    } else {
        Ok(true)
    }
}

/// The decision of a confirmation of a payment kept in the payment pallet.
pub open spec fn payment_confirm_decision(
    s: PaymentState,
    user: AccountId,
    who: Confirm,
    reference_no: Seq<u8>,
) -> Result<bool, PaymentError> {
    let cs = seq_at(s.confirmed_signers@, reference_no);
    let key = user@ + reference_no;
    confirm_decision(
        cs,
        user,
        who,
        s.allowed_signers@.dom().contains(key),
        multi_id_spec(s.allowed_signers@[key]) == multi_id_spec(plain_signers(cs[0], user)),
    )
}

/// `e` is what minting a derivative for a payment of `amount` into the
/// account `m` asks of the runtime: mint the amount, signed by `issuer`, and
/// report it.
pub open spec fn mint_effects(
    e: Seq<Effect>,
    issuer: AccountId,
    asset: CurrencyId,
    m: Seq<u8>,
    amount: u128,
    now: BlockNumber,
) -> bool {
    &&& e.len() == 2
    &&& e[0] matches Effect::MintAsset { issuer: i, asset: a, beneficiary, amount: x }
        && i == issuer && a == asset && beneficiary@ == m && x == amount
    &&& e[1] matches Effect::Deposit(Event::DotXcmTransferInitiated { time, amount: x, multi_id })
        && time == now && x == amount && multi_id@ == m
}

/// What a confirmation by `user` of the cross-chain payment with reference
/// number `reference_no` does to the payment storage (`old` before, `new`
/// after) and returns (`r`), given the chain's sovereign account
/// `para_account`: a refusal changes nothing; the payee's first confirmation
/// is recorded; the payer's is recorded and burns `amount` of `asset_id` in
/// the multi-signature account and sends the payee funds on the relay chain.
pub open spec fn xcm_confirm_outcome(
    new: PaymentState,
    old: PaymentState,
    para_account: Option<AccountId>,
    user: AccountId,
    who: Confirm,
    reference_no: Vec<u8>,
    amount: u128,
    asset_id: CurrencyId,
    now: BlockNumber,
    r: Result<Vec<Effect>, XcmError>,
) -> bool {
    let d = payment_confirm_decision(old, user, who, reference_no@);
    let cs = seq_at(old.confirmed_signers@, reference_no@);
    &&& d is Err ==> {
        &&& r == Err::<Vec<Effect>, XcmError>(XcmError::Payment(d->Err_0))
        &&& same_payment_state(new, old)
    }
    &&& d == Ok::<bool, PaymentError>(false) ==> {
        &&& r is Ok
        &&& r->Ok_0@ == seq![Effect::Deposit(Event::PayeeAddressConfirmedXcm {
            account_id: user,
            timestamp: now,
            reference_no,
        })]
        &&& new.confirmed_signers@ == old.confirmed_signers@.insert(
            reference_no@,
            new.confirmed_signers@[reference_no@],
        )
        &&& new.confirmed_signers@[reference_no@]@ == seq![user]
    }
    &&& d == Ok::<bool, PaymentError>(true) ==> {
        let m = multi_id_spec(plain_signers(cs[0], user));
        &&& r is Ok
        &&& r->Ok_0@.len() == 4
        &&& r->Ok_0@[0] == Effect::Deposit(Event::PayerAddressConfirmedXcm {
            account_id: user,
            timestamp: now,
            reference_no,
        })
        &&& r->Ok_0@[1] matches Effect::BurnAsset { issuer, asset, who: w, amount: x }
            && issuer == para_account->Some_0 && asset == asset_id && w@ == m && x == amount
        &&& r->Ok_0@[2] == Effect::SendToRelay {
            message: RelayMessage::TransferAsset { amount: RELAY_TRANSFER_AMOUNT, beneficiary: cs[0] },
        }
        &&& r->Ok_0@[3] == Effect::Deposit(Event::MessageTransferedToPolkadot)
        &&& new.confirmed_signers@ == old.confirmed_signers@.insert(
            reference_no@,
            new.confirmed_signers@[reference_no@],
        )
        &&& new.confirmed_signers@[reference_no@]@ == seq![cs[0], user]
    }
    &&& d is Ok ==> {
        &&& new.allowed_signers@ == old.allowed_signers@
        &&& new.account_multi_txns@ == old.account_multi_txns@
        &&& new.payee_txn_receipt@ == old.payee_txn_receipt@
        &&& new.payer_txn_receipt@ == old.payer_txn_receipt@
        &&& new.payee_txn_ticket_order@ == old.payee_txn_ticket_order@
        &&& new.payer_txn_ticket_order@ == old.payer_txn_ticket_order@
    }
}

/// What a cross-chain payment of `amount` from `payer` to `payee` does to the
/// payment storage (`old` before, `new` after) and returns (`r`), given the
/// chain's sovereign account `para_account`: for DOT it is recorded and the
/// amount is minted into the multi-signature account; other tokens are
/// refused and change nothing.
pub open spec fn xcm_transfer_outcome(
    new: PaymentState,
    old: PaymentState,
    para_account: Option<AccountId>,
    payer: AccountId,
    payee: AccountId,
    amount: u128,
    currency: Token,
    asset_id: CurrencyId,
    now: BlockNumber,
    r: Result<Vec<Effect>, XcmError>,
) -> bool {
    &&& currency == Token::USDT ==> {
        &&& r == Err::<Vec<Effect>, XcmError>(XcmError::NotSupportedYet)
        &&& same_payment_state(new, old)
    }
    &&& currency == Token::DOT ==> {
        let m = pay_multi(payer, payee);
        &&& r is Ok
        &&& r->Ok_0@.len() == 4
        &&& r->Ok_0@[0] matches Effect::CreateAccount { account } && account@ == m
        &&& r->Ok_0@[1] matches Effect::Deposit(Event::MultisigAccountCreated { time, id })
            && time == now && id@ == m
        &&& mint_effects(r->Ok_0@.skip(2), para_account->Some_0, asset_id, m, amount, now)
        &&& payment_locked(new, old, payer, payee, amount, Some(currency))
    }
}

/// A cross-chain payment can go ahead without a panic: the payee's receipts
/// and the payer's can count it, and for DOT the chain's sovereign account is
/// known.
pub open spec fn can_xcm_transfer(
    s: PaymentState,
    para_account: Option<AccountId>,
    payer: AccountId,
    payee: AccountId,
    amount: u128,
    currency: Token,
) -> bool {
    &&& can_lock_payment(s, payer, payee, amount)
    &&& currency == Token::DOT ==> para_account is Some
}

/// The storage of the cross-chain payment pallet.
pub struct VaneXcmState {
    pub multi_sig_to_payee: ByteMap<AccountId>,
    pub test_storage: ByteMap<u32>,
    pub para_account: Option<AccountId>,
}

/// Whether the first confirmation stored under `reference_no` is by `user`,
/// and how many there are.
pub(crate) fn confirmers_of(confirmed: &ByteMap<Vec<AccountId>>, reference_no: &[u8]) -> (r: (usize, Option<AccountId>))
    ensures
        r.0 == seq_at(confirmed@, reference_no@).len(),
        r.0 > 0 ==> r.1 == Some(seq_at(confirmed@, reference_no@)[0]),
{
    match confirmed.get(reference_no) {
        Some(v) => {
            if v.len() > 0 {
                (v.len(), Some(v[0]))
            } else {
                (0, None)
            }
        }
        None => (0, None),
    }
}

/// The decision of a confirmation by `user` of the payment with reference
/// number `reference_no`, computed from the payment storage.
pub fn payment_confirm_decision_of(
    payment: &PaymentState,
    user: AccountId,
    who: Confirm,
    reference_no: &[u8],
) -> (r: Result<bool, PaymentError>)
    ensures
        r == payment_confirm_decision(*payment, user, who, reference_no@),
{
    let (count, first) = confirmers_of(&payment.confirmed_signers, reference_no);
    if count == 0 {
        return match who {
            Confirm::Payer => Err(PaymentError::WaitForPayeeToConfirm),
            Confirm::Payee => Ok(false),
        };
    }
    let payee = match first {
        Some(a) => a,
        None => { return Err(PaymentError::UnexpectedError); }
    };
    if account_eq(&payee, &user) {
        return Err(PaymentError::PayeeAlreadyConfirmed);
    }
    if count >= 2 {
        return Err(PaymentError::ExceededSigners);
    }
    let allowed_key = account_bytes_key(&user, reference_no);
    let allowed: AccountSigners = match payment.allowed_signers.get(allowed_key.as_slice()) {
        Some(a) => *a,
        None => { return Err(PaymentError::NotAllowedPayeeOrPaymentNotInitialized); }
    };
    let mine = derive_multi_id(&AccountSigners::new(payee, user, None));
    let theirs = derive_multi_id(&allowed);
    if !account_eq(&theirs, &mine) {
        return Err(PaymentError::FailedToMatchAccounts);
    }
    Ok(true)
}

impl VaneXcmState {
    /// The storage at genesis; the chain's sovereign account must be given.
    pub fn genesis_build(para_account: Option<AccountId>) -> (r: Self)
        requires
            para_account is Some,
        ensures
            r.para_account == para_account,
            r.multi_sig_to_payee@ == Map::<Seq<u8>, AccountId>::empty(),
            r.test_storage@ == Map::<Seq<u8>, u32>::empty(),
    {
        VaneXcmState { multi_sig_to_payee: ByteMap::new(), test_storage: ByteMap::new(), para_account }
    }

    /// Records a cross-chain payment of `amount` from `payer` to `payee`: the
    /// signers and receipts as for a payment (with the token as currency), and
    /// the multi-signature account to set up; hands back that account.
    pub fn vane_multisig_record(
        &self,
        payment: &mut PaymentState,
        payer: AccountId,
        payee: AccountId,
        amount: u128,
        currency: Token,
        now: BlockNumber,
    ) -> (r: Result<(AccountId, Vec<Effect>), XcmError>)
        requires
            can_lock_payment(*old(payment), payer, payee, amount),
        ensures
            r is Ok,
            r->Ok_0.0@ == pay_multi(payer, payee),
            r->Ok_0.1@ == seq![
                Effect::CreateAccount { account: r->Ok_0.0 },
                Effect::Deposit(Event::MultisigAccountCreated { time: now, id: r->Ok_0.0 }),
            ],
            payment_locked(*final(payment), *old(payment), payer, payee, amount, Some(currency)),
    {
        let accounts = AccountSigners::new(payee, payer, None);
        let multi_id = derive_multi_id(&accounts);
        let ref_no = derive_reference_no(&payer, &payee, &multi_id);
        payment.allowed_signers.insert(account_bytes_key(&payer, ref_no.as_slice()), accounts);
        record_receipts(
            &mut payment.payee_txn_receipt,
            &mut payment.payer_txn_receipt,
            &payee,
            &payer,
            &multi_id,
            ref_no.as_slice(),
            amount,
            Some(currency),
        );
        let mut effects: Vec<Effect> = Vec::new();
        effects.push(Effect::CreateAccount { account: multi_id });
        effects.push(Effect::Deposit(Event::MultisigAccountCreated { id: multi_id, time: now }));
        assert(effects@ =~= seq![
            Effect::CreateAccount { account: multi_id },
            Effect::Deposit(Event::MultisigAccountCreated { time: now, id: multi_id }),
        ]);
        Ok((multi_id, effects))
    }

    /// Mints `amount` of the derivative `asset_id` into `multi_id`, signed by
    /// the chain's sovereign account.
    pub fn vane_xcm_transfer_dot(
        &self,
        amount: u128,
        multi_id: AccountId,
        asset_id: CurrencyId,
        now: BlockNumber,
    ) -> (r: Result<Vec<Effect>, XcmError>)
        requires
            self.para_account is Some,
        ensures
            r is Ok,
            mint_effects(r->Ok_0@, self.para_account->Some_0, asset_id, multi_id@, amount, now),
    {
        let issuer = match self.para_account {
            Some(a) => a,
            None => { return Err(XcmError::UnexpectedError); }
        };
        let mut effects: Vec<Effect> = Vec::new();
        effects.push(Effect::MintAsset { issuer, asset: asset_id, beneficiary: multi_id, amount });
        effects.push(Effect::Deposit(Event::DotXcmTransferInitiated { time: now, amount, multi_id }));
        Ok(effects)
    }

    /// Burns `amount` of `asset_id` held by `multi_id`, signed by the chain's
    /// sovereign account, and sends the payee a fixed amount of the relay
    /// token.
    pub fn vane_xcm_confirm_transfer_dot(
        &self,
        payer: AccountId,
        payee: AccountId,
        multi_id: AccountId,
        amount: u128,
        asset_id: CurrencyId,
    ) -> (r: Result<Vec<Effect>, XcmError>)
        requires
            self.para_account is Some,
        ensures
            r is Ok,
            r->Ok_0@ == seq![
                Effect::BurnAsset { issuer: self.para_account->Some_0, asset: asset_id, who: multi_id, amount },
                Effect::SendToRelay {
                    message: RelayMessage::TransferAsset { amount: RELAY_TRANSFER_AMOUNT, beneficiary: payee },
                },
                Effect::Deposit(Event::MessageTransferedToPolkadot),
            ],
    {
        let issuer = match self.para_account {
            Some(a) => a,
            None => { return Err(XcmError::UnexpectedError); }
        };
        let mut effects: Vec<Effect> = Vec::new();
        effects.push(Effect::BurnAsset { issuer, asset: asset_id, who: multi_id, amount });
        effects.push(Effect::SendToRelay {
            message: RelayMessage::TransferAsset { amount: RELAY_TRANSFER_AMOUNT, beneficiary: payee },
        });
        effects.push(Effect::Deposit(Event::MessageTransferedToPolkadot));
        assert(effects@ =~= seq![
            Effect::BurnAsset { issuer, asset: asset_id, who: multi_id, amount },
            Effect::SendToRelay {
                message: RelayMessage::TransferAsset { amount: RELAY_TRANSFER_AMOUNT, beneficiary: payee },
            },
            Effect::Deposit(Event::MessageTransferedToPolkadot),
        ]);
        Ok(effects)
    }

    /// Transfers to Asset Hub: not done yet, it does nothing.
    pub fn vane_xcm_transfer_assethub_dot(&self) -> (r: Result<(), XcmError>)
        ensures
            r is Ok,
    {
        Ok(())
    }

    /// Confirmations of transfers to Asset Hub: not done yet, it does nothing.
    pub fn vane_xcm_confirm_transfer_assethub_dot(&self) -> (r: Result<(), XcmError>)
        ensures
            r is Ok,
    {
        Ok(())
    }

    /// A cross-chain payment of `amount` from `payer` to `payee`: recorded,
    /// then, for DOT, minted into the multi-signature account. Other tokens
    /// are refused.
    pub fn vane_transfer(
        &self,
        payment: &mut PaymentState,
        payer: AccountId,
        payee: AccountId,
        amount: u128,
        currency: Token,
        asset_id: CurrencyId,
        now: BlockNumber,
    ) -> (r: Result<Vec<Effect>, XcmError>)
        requires
            can_lock_payment(*old(payment), payer, payee, amount),
            currency == Token::DOT ==> self.para_account is Some,
        ensures
            xcm_transfer_outcome(
                *final(payment),
                *old(payment),
                self.para_account,
                payer,
                payee,
                amount,
                currency,
                asset_id,
                now,
                r,
            ),
    {
        match currency {
            Token::USDT => {
                return Err(XcmError::NotSupportedYet);
            }
            Token::DOT => {}
        }
        let (multi_id, mut effects) = self.vane_multisig_record(payment, payer, payee, amount, currency, now)?;
        let ghost first = effects@;
        let mut more = self.vane_xcm_transfer_dot(amount, multi_id, asset_id, now)?;
        let ghost second = more@;
        effects.append(&mut more);
        assert(effects@.skip(2) =~= second);
        Ok(effects)
    }

    /// A cross-chain payment as `vane_transfer` makes it, where it can go
    /// ahead; `None`, with the storage unchanged, where it would panic.
    pub fn try_vane_transfer(
        &self,
        payment: &mut PaymentState,
        payer: AccountId,
        payee: AccountId,
        amount: u128,
        currency: Token,
        asset_id: CurrencyId,
        now: BlockNumber,
    ) -> (r: Option<Result<Vec<Effect>, XcmError>>)
        ensures
            r is None <==> !can_xcm_transfer(*old(payment), self.para_account, payer, payee, amount, currency),
            r is None ==> same_payment_state(*final(payment), *old(payment)),
            r matches Some(x) ==> xcm_transfer_outcome(
                *final(payment),
                *old(payment),
                self.para_account,
                payer,
                payee,
                amount,
                currency,
                asset_id,
                now,
                x,
            ),
    {
        if !payment.can_lock_payment(&payer, &payee, amount) {
            return None;
        }
        if currency == Token::DOT && self.para_account.is_none() {
            return None;
        }
        Some(self.vane_transfer(payment, payer, payee, amount, currency, asset_id, now))
    }

    /// A confirmation, by `user`, of the cross-chain payment with reference
    /// number `reference_no`, under the payment pallet's rules; the payer's
    /// confirmation burns `amount` of `asset_id` in the multi-signature account
    /// and sends the payee funds on the relay chain.
    pub fn vane_confirm(
        &self,
        payment: &mut PaymentState,
        user: AccountId,
        who: Confirm,
        reference_no: Vec<u8>,
        amount: u128,
        asset_id: CurrencyId,
        now: BlockNumber,
    ) -> (r: Result<Vec<Effect>, XcmError>)
        requires
            payment_confirm_decision(*old(payment), user, who, reference_no@) == Ok::<bool, PaymentError>(true)
                ==> self.para_account is Some,
        ensures
            xcm_confirm_outcome(
                *final(payment),
                *old(payment),
                self.para_account,
                user,
                who,
                reference_no,
                amount,
                asset_id,
                now,
                r,
            ),
    {
        let ref_key = to_vec(reference_no.as_slice());
        let (count, first) = confirmers_of(&payment.confirmed_signers, ref_key.as_slice());
        if count > 0 {
            let payee = match first {
                Some(a) => a,
                None => { return Err(XcmError::UnexpectedError); }
            };
            if account_eq(&payee, &user) {
                return Err(XcmError::Payment(PaymentError::PayeeAlreadyConfirmed));
            }
            if count >= 2 {
                return Err(XcmError::Payment(PaymentError::ExceededSigners));
            }
            let payer = user;
            let confirmed_acc_signers = AccountSigners::new(payee, payer, None);
            let confirmed_multi_id = derive_multi_id(&confirmed_acc_signers);
            let allowed_key = account_bytes_key(&payer, reference_no.as_slice());
            let allowed_signers: AccountSigners = match payment.allowed_signers.get(allowed_key.as_slice()) {
                Some(a) => *a,
                None => {
                    return Err(XcmError::Payment(PaymentError::NotAllowedPayeeOrPaymentNotInitialized));
                }
            };
            let allowed_multi_id = derive_multi_id(&allowed_signers);
            if !account_eq(&confirmed_multi_id, &allowed_multi_id) {
                return Err(XcmError::Payment(PaymentError::FailedToMatchAccounts));
            }
            let mut signers: Vec<AccountId> = Vec::new();
            signers.push(payee);
            signers.push(user);
            let ghost signers_seq = signers@;
            payment.confirmed_signers.insert(ref_key, signers);
            let mut effects: Vec<Effect> = Vec::new();
            effects.push(Effect::Deposit(Event::PayerAddressConfirmedXcm {
                account_id: user,
                timestamp: now,
                reference_no,
            }));
            let mut more = self.vane_xcm_confirm_transfer_dot(payer, payee, allowed_multi_id, amount, asset_id)?;
            effects.append(&mut more);
            proof {
                assert(signers_seq =~= seq![payee, user]);
            }
            Ok(effects)
        } else {
            match who {
                Confirm::Payer => Err(XcmError::Payment(PaymentError::WaitForPayeeToConfirm)),
                Confirm::Payee => {
                    let mut signers: Vec<AccountId> = Vec::new();
                    signers.push(user);
                    let ghost signers_seq = signers@;
                    payment.confirmed_signers.insert(ref_key, signers);
                    let mut effects: Vec<Effect> = Vec::new();
                    effects.push(Effect::Deposit(Event::PayeeAddressConfirmedXcm {
                        account_id: user,
                        timestamp: now,
                        reference_no,
                    }));
                    proof {
                        assert(signers_seq =~= seq![user]);
                    }
                    Ok(effects)
                }
            }
        }
    }

    /// A confirmation as `vane_confirm` makes it, where it can go ahead;
    /// `None`, with the storage unchanged, where the payer's confirmation
    /// would release the funds but the chain's sovereign account is not known.
    pub fn try_vane_confirm(
        &self,
        payment: &mut PaymentState,
        user: AccountId,
        who: Confirm,
        reference_no: Vec<u8>,
        amount: u128,
        asset_id: CurrencyId,
        now: BlockNumber,
    ) -> (r: Option<Result<Vec<Effect>, XcmError>>)
        ensures
            r is None <==> payment_confirm_decision(*old(payment), user, who, reference_no@)
                == Ok::<bool, PaymentError>(true) && self.para_account is None,
            r is None ==> same_payment_state(*final(payment), *old(payment)),
            r matches Some(x) ==> xcm_confirm_outcome(
                *final(payment),
                *old(payment),
                self.para_account,
                user,
                who,
                reference_no,
                amount,
                asset_id,
                now,
                x,
            ),
    {
        let d = payment_confirm_decision_of(payment, user, who, reference_no.as_slice());
        let releases = match d {
            Ok(b) => b,
            Err(_) => false,
        };
        if releases && self.para_account.is_none() {
            return None;
        }
        Some(self.vane_confirm(payment, user, who, reference_no, amount, asset_id, now))
    }

    /// The payer's receipt for a payee, or `ReceiptNotFound`.
    pub fn read_payer_receipt<'a>(
        payment: &'a PaymentState,
        payer: AccountId,
        payee: AccountId,
    ) -> (r: Result<&'a TxnReceipt<Option<Token>>, XcmError>)
        ensures
            payment.payer_txn_receipt@.dom().contains(payer@ + payee@) ==> r is Ok
                && *r->Ok_0 == payment.payer_txn_receipt@[payer@ + payee@],
            !payment.payer_txn_receipt@.dom().contains(payer@ + payee@) ==> r
                == Err::<&TxnReceipt<Option<Token>>, XcmError>(XcmError::ReceiptNotFound),
    {
        match payment.payer_txn_receipt.get(pair_key(&payer, &payee).as_slice()) {
            Some(rc) => Ok(rc),
            None => Err(XcmError::ReceiptNotFound),
        }
    }
}

} // verus!
