//! The cross-chain transfer system pallet: like the cross-chain payment pallet,
//! with storage of its own, signers without a resolver (derived from the payer
//! first), and the multi-currency transactor that locks incoming reserve
//! transfers in the sender's and receiver's multi-signature account.
use vstd::prelude::*;
use crate::byte_map::{ByteMap, seq_at};
use crate::bytes::{AccountId, BlockNumber, account_eq, account_bytes_key, pair_key, to_vec};
use crate::effects::{CurrencyId, Effect, Event, RelayMessage, Token};
use crate::payment::{Confirm, PaymentError};
use crate::receipt::{
    CallExecuted, TxnReceipt, can_top_up, can_top_up_payer, fresh_receipt, payee_receipts_after,
    record_receipts, can_record_payee_receipt, can_record_payer_receipt, topped_up,
};
use crate::signers::{PairSigners, derive_pair_multi_id, derive_reference_no, pair_multi_id_spec, reference_no_spec};
use crate::xcm::{XcmError, confirm_decision, confirmers_of, mint_effects};

verus! {

/// What the relay chain keeps of a confirmed transfer for fees.
pub const RELAY_FEE: u128 = 10_000;

/// The native tokens given to each party of a transfer for its fees.
pub const FEES_AMOUNT: u128 = 100;

/// The existential deposit of DOT derivatives.
pub const DOT_EXISTENTIAL_DEPOSIT: u128 = 1_000_000_000;

/// The storage of the transfer system pallet. `allowed_signers` is keyed by
/// the payer followed by the reference number, `confirmed_signers` by the
/// reference number, `payer_txn_receipt` by the payer followed by the payee,
/// the others by one account.
pub struct TransferSystemState {
    pub account_multi_txns: ByteMap<Vec<CallExecuted>>,
    pub allowed_signers: ByteMap<PairSigners>,
    pub confirmed_signers: ByteMap<Vec<AccountId>>,
    pub payer_txn_receipt: ByteMap<TxnReceipt<CurrencyId>>,
    pub payee_txn_receipt: ByteMap<Vec<TxnReceipt<CurrencyId>>>,
    pub multi_sig_to_payee: ByteMap<AccountId>,
    pub para_account: Option<AccountId>,
}

/// Two states hold the same storage.
pub open spec fn same_transfer_state(a: TransferSystemState, b: TransferSystemState) -> bool {
    &&& a.account_multi_txns@ == b.account_multi_txns@
    &&& a.allowed_signers@ == b.allowed_signers@
    &&& a.confirmed_signers@ == b.confirmed_signers@
    &&& a.payer_txn_receipt@ == b.payer_txn_receipt@
    &&& a.payee_txn_receipt@ == b.payee_txn_receipt@
    &&& a.multi_sig_to_payee@ == b.multi_sig_to_payee@
    &&& a.para_account == b.para_account
}

/// The multi-signature account of a transfer from `payer` to `payee`.
pub open spec fn transfer_multi(payer: AccountId, payee: AccountId) -> Seq<u8> {
    pair_multi_id_spec(PairSigners { payee, payer })
}

/// The reference number of a transfer from `payer` to `payee`.
pub open spec fn transfer_reference(payer: AccountId, payee: AccountId) -> Seq<u8> {
    reference_no_spec(payer@, payee@, transfer_multi(payer, payee))
}

/// The decision of a confirmation of a transfer kept in this pallet's storage.
pub open spec fn transfer_confirm_decision(
    s: TransferSystemState,
    user: AccountId,
    who: Confirm,
    reference_no: Seq<u8>,
) -> Result<bool, PaymentError> {
    let cs = seq_at(s.confirmed_signers@, reference_no);
    let key = user@ + reference_no;
    confirm_decision(
        cs,
        user,
        who,
        s.allowed_signers@.dom().contains(key),
        pair_multi_id_spec(s.allowed_signers@[key]) == pair_multi_id_spec(PairSigners { payee: cs[0], payer: user }),
    )
}

/// The transactor's transfer of `amount` of `currency` from `from` to `to`
/// can go ahead without a panic: the payee's receipts can count it, the
/// payer's receipt for the payee can too, and the chain's sovereign account
/// is known.
pub open spec fn can_transfer(
    s: TransferSystemState,
    from: AccountId,
    to: AccountId,
    amount: u128,
) -> bool {
    &&& can_top_up(seq_at(s.payee_txn_receipt@, to@), transfer_multi(from, to), amount)
    &&& can_top_up_payer(s.payer_txn_receipt@, from@ + to@, amount)
    &&& s.para_account is Some
}

/// What a confirmation by `user` of the transfer with reference number
/// `reference_no` does to the storage (`old` before, `new` after) and returns
/// (`r`): a refusal changes nothing; the payee's first confirmation is
/// recorded; the payer's is refused with `NotEnoughFees` where `amount` does
/// not cover the relay fee, and otherwise is recorded, burns `amount` of
/// `asset_id` in the multi-signature account and asks the relay chain to pay
/// the payee what is left after the relay fee.
pub open spec fn transfer_confirm_outcome(
    new: TransferSystemState,
    old: TransferSystemState,
    user: AccountId,
    who: Confirm,
    reference_no: Vec<u8>,
    amount: u128,
    asset_id: CurrencyId,
    now: BlockNumber,
    r: Result<Vec<Effect>, XcmError>,
) -> bool {
    let d = transfer_confirm_decision(old, user, who, reference_no@);
    let cs = seq_at(old.confirmed_signers@, reference_no@);
    &&& d is Err ==> {
        &&& r == Err::<Vec<Effect>, XcmError>(XcmError::Payment(d->Err_0))
        &&& same_transfer_state(new, old)
    }
    &&& d == Ok::<bool, PaymentError>(false) ==> {
        &&& r is Ok
        &&& r->Ok_0@ == seq![Effect::Deposit(Event::PayeeAddressConfirmedXcm {
            account_id: user,
            timestamp: now,
            reference_no,
        })]
        &&& new.confirmed_signers@[reference_no@]@ == seq![user]
    }
    &&& d == Ok::<bool, PaymentError>(true) && amount < RELAY_FEE ==> {
        &&& r == Err::<Vec<Effect>, XcmError>(XcmError::NotEnoughFees)
        &&& same_transfer_state(new, old)
    }
    &&& d == Ok::<bool, PaymentError>(true) && amount >= RELAY_FEE ==> {
        let m = pair_multi_id_spec(PairSigners { payee: cs[0], payer: user });
        &&& r is Ok
        &&& r->Ok_0@.len() == 4
        &&& r->Ok_0@[0] == Effect::Deposit(Event::PayerAddressConfirmedXcm {
            account_id: user,
            timestamp: now,
            reference_no,
        })
        &&& r->Ok_0@[1] matches Effect::BurnAsset { issuer, asset, who: w, amount: x }
            && issuer == old.para_account->Some_0 && asset == asset_id && w@ == m && x == amount
        &&& r->Ok_0@[2] == Effect::SendToRelay {
            message: RelayMessage::WithdrawBuyDeposit {
                amount: (amount - RELAY_FEE) as u128,
                beneficiary: cs[0],
            },
        }
        &&& r->Ok_0@[3] == Effect::Deposit(Event::MessageTransferedToPolkadot)
        &&& new.confirmed_signers@[reference_no@]@ == seq![cs[0], user]
    }
    &&& (d == Ok::<bool, PaymentError>(false) || (d == Ok::<bool, PaymentError>(true) && amount >= RELAY_FEE)) ==> {
        &&& new.confirmed_signers@ == old.confirmed_signers@.insert(
            reference_no@,
            new.confirmed_signers@[reference_no@],
        )
        &&& new.account_multi_txns@ == old.account_multi_txns@
        &&& new.allowed_signers@ == old.allowed_signers@
        &&& new.payer_txn_receipt@ == old.payer_txn_receipt@
        &&& new.payee_txn_receipt@ == old.payee_txn_receipt@
        &&& new.multi_sig_to_payee@ == old.multi_sig_to_payee@
        &&& new.para_account == old.para_account
    }
}

/// What the transactor's transfer of `amount` of `currency_id` from `from` to
/// `to` does to the storage (`old` before, `new` after) and returns (`r`):
/// the funds go to the parties' multi-signature account, each party gets
/// native tokens for fees, and the transfer is recorded like a payment.
pub open spec fn transfer_recorded(
    new: TransferSystemState,
    old: TransferSystemState,
    currency_id: CurrencyId,
    from: AccountId,
    to: AccountId,
    amount: u128,
    now: BlockNumber,
    r: Result<Vec<Effect>, XcmError>,
) -> bool {
    let m = transfer_multi(from, to);
    let para = old.para_account->Some_0;
    &&& r is Ok
    &&& r->Ok_0@.len() == 5
    &&& r->Ok_0@[0] matches Effect::CreateAccount { account } && account@ == m
    &&& r->Ok_0@[1] == Effect::FundFees { from: para, to: from, amount: FEES_AMOUNT }
    &&& r->Ok_0@[2] == Effect::FundFees { from: para, to: to, amount: FEES_AMOUNT }
    &&& r->Ok_0@[3] matches Effect::TransferAsset { from: f, asset, to: t, amount: x }
        && f == from && asset == currency_id && t@ == m && x == amount
    &&& r->Ok_0@[4] matches Effect::Deposit(Event::XcmTokenTransferInitiated { time, amount: x, multi_id, token })
        && time == now && x == amount && multi_id@ == m && token == currency_id
    &&& transfer_storage_recorded(new, old, currency_id, from, to, amount)
}

/// `new` is `old` with a transfer of `amount` of `currency_id` from `from` to
/// `to` recorded like a payment: the two allowed as signers under `from` and
/// the reference number, and the receipts of both parties counting it.
pub open spec fn transfer_storage_recorded(
    new: TransferSystemState,
    old: TransferSystemState,
    currency_id: CurrencyId,
    from: AccountId,
    to: AccountId,
    amount: u128,
) -> bool {
    let m = transfer_multi(from, to);
    let rf = transfer_reference(from, to);
    &&& new.allowed_signers@ == old.allowed_signers@.insert(
        from@ + rf,
        PairSigners { payee: to, payer: from },
    )
    &&& new.payee_txn_receipt@ == old.payee_txn_receipt@.insert(
        to@,
        new.payee_txn_receipt@[to@],
    )
    &&& payee_receipts_after(
        new.payee_txn_receipt@[to@]@,
        seq_at(old.payee_txn_receipt@, to@),
        to,
        from,
        m,
        rf,
        amount,
        currency_id,
    )
    &&& old.payer_txn_receipt@.dom().contains(from@ + to@) ==> {
        &&& new.payer_txn_receipt@ == old.payer_txn_receipt@.insert(
            from@ + to@,
            new.payer_txn_receipt@[from@ + to@],
        )
        &&& topped_up(new.payer_txn_receipt@[from@ + to@], old.payer_txn_receipt@[from@ + to@], amount)
    }
    &&& !old.payer_txn_receipt@.dom().contains(from@ + to@) ==> {
        &&& new.payer_txn_receipt@ == old.payer_txn_receipt@.insert(
            from@ + to@,
            new.payer_txn_receipt@[from@ + to@],
        )
        &&& fresh_receipt(new.payer_txn_receipt@[from@ + to@], to, from, m, rf, amount, currency_id)
    }
    &&& new.confirmed_signers@ == old.confirmed_signers@
    &&& new.account_multi_txns@ == old.account_multi_txns@
    &&& new.multi_sig_to_payee@ == old.multi_sig_to_payee@
    &&& new.para_account == old.para_account
}

/// What a cross-chain payment of `amount` from `payer` to `payee` through
/// this pallet does to the storage (`old` before, `new` after) and returns
/// (`r`): for DOT it is recorded, the parties' multi-signature account is set
/// up, and `amount` of `asset_id` is minted into it; other tokens are refused
/// and change nothing.
pub open spec fn transfer_system_transfer_outcome(
    new: TransferSystemState,
    old: TransferSystemState,
    payer: AccountId,
    payee: AccountId,
    amount: u128,
    currency: Token,
    asset_id: CurrencyId,
    now: BlockNumber,
    r: Result<Vec<Effect>, XcmError>,
) -> bool {
    &&& currency == Token::USDT ==> {
        &&& r == Err::<Vec<Effect>, XcmError>(XcmError::NotSupportedYet)
        &&& same_transfer_state(new, old)
    }
    &&& currency == Token::DOT ==> {
        let m = transfer_multi(payer, payee);
        &&& r is Ok
        &&& r->Ok_0@.len() == 4
        &&& r->Ok_0@[0] matches Effect::CreateAccount { account } && account@ == m
        &&& r->Ok_0@[1] matches Effect::Deposit(Event::MultisigAccountCreated { time, id })
            && time == now && id@ == m
        &&& mint_effects(r->Ok_0@.skip(2), old.para_account->Some_0, asset_id, m, amount, now)
        &&& transfer_storage_recorded(new, old, asset_id, payer, payee, amount)
    }
}

/// A cross-chain payment through this pallet can go ahead without a panic:
/// the parties' receipts can count it, and for DOT the chain's sovereign
/// account is known.
pub open spec fn can_transfer_system_transfer(
    s: TransferSystemState,
    payer: AccountId,
    payee: AccountId,
    amount: u128,
    currency: Token,
) -> bool {
    &&& can_top_up(seq_at(s.payee_txn_receipt@, payee@), transfer_multi(payer, payee), amount)
    &&& can_top_up_payer(s.payer_txn_receipt@, payer@ + payee@, amount)
    &&& currency == Token::DOT ==> s.para_account is Some
}

/// What can make an asset withdrawal impossible.
#[derive(Clone, Copy, Debug, PartialEq, Eq, Structural)]
pub enum WithdrawConsequence {
    BalanceLow,
    WouldDie,
    UnknownAsset,
    Underflow,
    Overflow,
    Frozen,
    ReducedToZero(u128),
    Success,
}

/// The errors of the assets pallet that a withdrawal check reports.
#[derive(Clone, Copy, Debug, PartialEq, Eq, Structural)]
pub enum AssetError {
    BalanceLow,
    WouldDie,
    Unknown,
    Frozen,
    MinBalanceZero,
}

/// The error that a withdrawal check reports for a consequence.
pub open spec fn withdraw_error(c: WithdrawConsequence) -> Result<(), AssetError> {
    match c {
        WithdrawConsequence::BalanceLow => Err(AssetError::BalanceLow),
        WithdrawConsequence::WouldDie => Err(AssetError::WouldDie),
        WithdrawConsequence::UnknownAsset => Err(AssetError::Unknown),
        WithdrawConsequence::Underflow => Err(AssetError::Unknown),
        WithdrawConsequence::Overflow => Err(AssetError::Unknown),
        WithdrawConsequence::Frozen => Err(AssetError::Frozen),
        WithdrawConsequence::ReducedToZero(_) => Err(AssetError::MinBalanceZero),
        WithdrawConsequence::Success => Ok(()),
    }
}

/// The decision of a confirmation by `user` of the transfer with reference
/// number `reference_no`, computed from the storage.
pub fn transfer_confirm_decision_of(
    s: &TransferSystemState,
    user: AccountId,
    who: Confirm,
    reference_no: &[u8],
) -> (r: Result<bool, PaymentError>)
    ensures
        r == transfer_confirm_decision(*s, user, who, reference_no@),
{
    let (count, first) = confirmers_of(&s.confirmed_signers, reference_no);
    if count == 0 {
        return match who {
            Confirm::Payer => Err(PaymentError::WaitForPayeeToConfirm),
            Confirm::Payee => Ok(false),
        };
    }
    let payee = match first {
        Some(a) => a,
        None => { return Err(PaymentError::UnexpectedError); }
    };
    if account_eq(&payee, &user) {
        return Err(PaymentError::PayeeAlreadyConfirmed);
    }
    if count >= 2 {
        return Err(PaymentError::ExceededSigners);
    }
    let allowed_key = account_bytes_key(&user, reference_no);
    let allowed: PairSigners = match s.allowed_signers.get(allowed_key.as_slice()) {
        Some(a) => *a,
        None => { return Err(PaymentError::NotAllowedPayeeOrPaymentNotInitialized); }
    };
    let mine = derive_pair_multi_id(&PairSigners::new(payee, user));
    let theirs = derive_pair_multi_id(&allowed);
    if !account_eq(&theirs, &mine) {
        return Err(PaymentError::FailedToMatchAccounts);
    }
    Ok(true)
}

impl TransferSystemState {
    /// The storage at genesis; the chain's sovereign account must be given.
    pub fn genesis_build(para_account: Option<AccountId>) -> (r: Self)
        requires
            para_account is Some,
        ensures
            r.para_account == para_account,
            r.account_multi_txns@ == Map::<Seq<u8>, Vec<CallExecuted>>::empty(),
            r.allowed_signers@ == Map::<Seq<u8>, PairSigners>::empty(),
            r.confirmed_signers@ == Map::<Seq<u8>, Vec<AccountId>>::empty(),
            r.payer_txn_receipt@ == Map::<Seq<u8>, TxnReceipt<CurrencyId>>::empty(),
            r.payee_txn_receipt@ == Map::<Seq<u8>, Vec<TxnReceipt<CurrencyId>>>::empty(),
            r.multi_sig_to_payee@ == Map::<Seq<u8>, AccountId>::empty(),
    {
        TransferSystemState {
            account_multi_txns: ByteMap::new(),
            allowed_signers: ByteMap::new(),
            confirmed_signers: ByteMap::new(),
            payer_txn_receipt: ByteMap::new(),
            payee_txn_receipt: ByteMap::new(),
            multi_sig_to_payee: ByteMap::new(),
            para_account,
        }
    }

    /// Mints `amount` of the derivative `asset_id` into `multi_id`, signed by
    /// the chain's sovereign account.
    pub fn vane_xcm_transfer_dot(
        &self,
        amount: u128,
        multi_id: AccountId,
        asset_id: CurrencyId,
        now: BlockNumber,
    ) -> (r: Result<Vec<Effect>, XcmError>)
        requires
            self.para_account is Some,
        ensures
            r is Ok,
            mint_effects(r->Ok_0@, self.para_account->Some_0, asset_id, multi_id@, amount, now),
    {
        let issuer = match self.para_account {
            Some(a) => a,
            None => { return Err(XcmError::UnexpectedError); }
        };
        let mut effects: Vec<Effect> = Vec::new();
        effects.push(Effect::MintAsset { issuer, asset: asset_id, beneficiary: multi_id, amount });
        effects.push(Effect::Deposit(Event::DotXcmTransferInitiated { time: now, amount, multi_id }));
        Ok(effects)
    }

    /// Burns `amount` of `asset_id` held by `multi_id`, signed by the chain's
    /// sovereign account, and asks the relay chain to pay the payee the amount
    /// less the relay fee: withdraw it, buy execution with it, deposit
    /// everything to the payee. An amount that does not cover the relay fee is
    /// refused with `NotEnoughFees`.
    pub fn vane_xcm_confirm_transfer_dot(
        &self,
        payer: AccountId,
        payee: AccountId,
        multi_id: AccountId,
        amount: u128,
        asset_id: CurrencyId,
    ) -> (r: Result<Vec<Effect>, XcmError>)
        requires
            self.para_account is Some,
        ensures
            amount < RELAY_FEE ==> r == Err::<Vec<Effect>, XcmError>(XcmError::NotEnoughFees),
            amount >= RELAY_FEE ==> (r is Ok && r->Ok_0@ == seq![
                Effect::BurnAsset { issuer: self.para_account->Some_0, asset: asset_id, who: multi_id, amount },
                Effect::SendToRelay {
                    message: RelayMessage::WithdrawBuyDeposit { amount: (amount - RELAY_FEE) as u128, beneficiary: payee },
                },
                Effect::Deposit(Event::MessageTransferedToPolkadot),
            ]),
    {
        let issuer = match self.para_account {
            Some(a) => a,
            None => { return Err(XcmError::UnexpectedError); }
        };
        if amount < RELAY_FEE {
            return Err(XcmError::NotEnoughFees);
        }
        let new_amount = amount - RELAY_FEE;
        let mut effects: Vec<Effect> = Vec::new();
        effects.push(Effect::BurnAsset { issuer, asset: asset_id, who: multi_id, amount });
        effects.push(Effect::SendToRelay {
            message: RelayMessage::WithdrawBuyDeposit { amount: new_amount, beneficiary: payee },
        });
        effects.push(Effect::Deposit(Event::MessageTransferedToPolkadot));
        assert(effects@ =~= seq![
            Effect::BurnAsset { issuer, asset: asset_id, who: multi_id, amount },
            Effect::SendToRelay {
                message: RelayMessage::WithdrawBuyDeposit { amount: new_amount, beneficiary: payee },
            },
            Effect::Deposit(Event::MessageTransferedToPolkadot),
        ]);
        Ok(effects)
    }

    /// Transfers to Asset Hub: not done yet, it does nothing.
    pub fn vane_xcm_transfer_assethub_dot(&self) -> (r: Result<(), XcmError>)
        ensures
            r is Ok,
    {
        Ok(())
    }

    /// Confirmations of transfers to Asset Hub: not done yet, it does nothing.
    pub fn vane_xcm_confirm_transfer_assethub_dot(&self) -> (r: Result<(), XcmError>)
        ensures
            r is Ok,
    {
        Ok(())
    }

    /// A confirmation by `user` of the transfer with reference number
    /// `reference_no`, under the payment pallet's rules; the payer's
    /// confirmation burns `amount` of `asset_id` in the multi-signature account
    /// and asks the relay chain to pay the payee.
    pub fn vane_confirm(
        &mut self,
        user: AccountId,
        who: Confirm,
        reference_no: Vec<u8>,
        amount: u128,
        asset_id: CurrencyId,
        now: BlockNumber,
    ) -> (r: Result<Vec<Effect>, XcmError>)
        requires
            transfer_confirm_decision(*old(self), user, who, reference_no@) == Ok::<bool, PaymentError>(true)
                ==> old(self).para_account is Some,
        ensures
            transfer_confirm_outcome(*final(self), *old(self), user, who, reference_no, amount, asset_id, now, r),
    {
        let ref_key = to_vec(reference_no.as_slice());
        let (count, first) = confirmers_of(&self.confirmed_signers, ref_key.as_slice());
        if count > 0 {
            let payee = match first {
                Some(a) => a,
                None => { return Err(XcmError::UnexpectedError); }
            };
            if account_eq(&payee, &user) {
                return Err(XcmError::Payment(PaymentError::PayeeAlreadyConfirmed));
            }
            if count >= 2 {
                return Err(XcmError::Payment(PaymentError::ExceededSigners));
            }
            let payer = user;
            let confirmed_acc_signers = PairSigners::new(payee, payer);
            let confirmed_multi_id = derive_pair_multi_id(&confirmed_acc_signers);
            let allowed_key = account_bytes_key(&payer, reference_no.as_slice());
            let allowed_signers: PairSigners = match self.allowed_signers.get(allowed_key.as_slice()) {
                Some(a) => *a,
                None => {
                    return Err(XcmError::Payment(PaymentError::NotAllowedPayeeOrPaymentNotInitialized));
                }
            };
            let allowed_multi_id = derive_pair_multi_id(&allowed_signers);
            if !account_eq(&confirmed_multi_id, &allowed_multi_id) {
                return Err(XcmError::Payment(PaymentError::FailedToMatchAccounts));
            }
            let mut more = self.vane_xcm_confirm_transfer_dot(payer, payee, allowed_multi_id, amount, asset_id)?;
            let mut signers: Vec<AccountId> = Vec::new();
            signers.push(payee);
            signers.push(user);
            let ghost signers_seq = signers@;
            self.confirmed_signers.insert(ref_key, signers);
            let mut effects: Vec<Effect> = Vec::new();
            effects.push(Effect::Deposit(Event::PayerAddressConfirmedXcm {
                account_id: user,
                timestamp: now,
                reference_no,
            }));
            effects.append(&mut more);
            proof {
                assert(signers_seq =~= seq![payee, user]);
            }
            Ok(effects)
        } else {
            match who {
                Confirm::Payer => Err(XcmError::Payment(PaymentError::WaitForPayeeToConfirm)),
                Confirm::Payee => {
                    let mut signers: Vec<AccountId> = Vec::new();
                    signers.push(user);
                    let ghost signers_seq = signers@;
                    self.confirmed_signers.insert(ref_key, signers);
                    let mut effects: Vec<Effect> = Vec::new();
                    effects.push(Effect::Deposit(Event::PayeeAddressConfirmedXcm {
                        account_id: user,
                        timestamp: now,
                        reference_no,
                    }));
                    proof {
                        assert(signers_seq =~= seq![user]);
                    }
                    Ok(effects)
                }
            }
        }
    }

    /// A confirmation as `vane_confirm` makes it, where it can go ahead;
    /// `None`, with the storage unchanged, where the payer's confirmation
    /// would release the funds but the chain's sovereign account is not known.
    pub fn try_vane_confirm(
        &mut self,
        user: AccountId,
        who: Confirm,
        reference_no: Vec<u8>,
        amount: u128,
        asset_id: CurrencyId,
        now: BlockNumber,
    ) -> (r: Option<Result<Vec<Effect>, XcmError>>)
        ensures
            r is None <==> transfer_confirm_decision(*old(self), user, who, reference_no@)
                == Ok::<bool, PaymentError>(true) && old(self).para_account is None,
            r is None ==> same_transfer_state(*final(self), *old(self)),
            r matches Some(x) ==> transfer_confirm_outcome(
                *final(self),
                *old(self),
                user,
                who,
                reference_no,
                amount,
                asset_id,
                now,
                x,
            ),
    {
        let d = transfer_confirm_decision_of(self, user, who, reference_no.as_slice());
        let releases = match d {
            Ok(b) => b,
            Err(_) => false,
        };
        if releases && self.para_account.is_none() {
            return None;
        }
        Some(self.vane_confirm(user, who, reference_no, amount, asset_id, now))
    }

    /// Whether the transactor's transfer of `amount` from `from` to `to` goes
    /// ahead without a panic.
    pub fn can_transfer(&self, from: &AccountId, to: &AccountId, amount: u128) -> (r: bool)
        ensures
            r == can_transfer(*self, *from, *to, amount),
    {
        let signers = PairSigners::new(*to, *from);
        let multi_id = derive_pair_multi_id(&signers);
        if !can_record_payee_receipt(&self.payee_txn_receipt, to, &multi_id, amount) {
            return false;
        }
        can_record_payer_receipt(&self.payer_txn_receipt, from, to, amount) && self.para_account.is_some()
    }

    /// The multi-currency transfer of `amount` of `currency_id` from `from` to
    /// `to`: the funds go to the two parties' multi-signature account instead,
    /// recorded like a payment, after each party is given native tokens for
    /// fees by the chain's sovereign account.
    pub fn multi_currency_transfer(
        &mut self,
        currency_id: CurrencyId,
        from: AccountId,
        to: AccountId,
        amount: u128,
        now: BlockNumber,
    ) -> (r: Result<Vec<Effect>, XcmError>)
        requires
            can_transfer(*old(self), from, to, amount),
        ensures
            transfer_recorded(*final(self), *old(self), currency_id, from, to, amount, now, r),
    {
        let para_account = match self.para_account {
            Some(a) => a,
            None => { return Err(XcmError::UnexpectedError); }
        };
        let account_signers = PairSigners::new(to, from);
        let multi_id = derive_pair_multi_id(&account_signers);
        let mut effects: Vec<Effect> = Vec::new();
        effects.push(Effect::CreateAccount { account: multi_id });
        let ref_no = derive_reference_no(&from, &to, &multi_id);
        self.allowed_signers.insert(account_bytes_key(&from, ref_no.as_slice()), account_signers);
        record_receipts(
            &mut self.payee_txn_receipt,
            &mut self.payer_txn_receipt,
            &to,
            &from,
            &multi_id,
            ref_no.as_slice(),
            amount,
            currency_id,
        );
        effects.push(Effect::FundFees { from: para_account, to: from, amount: FEES_AMOUNT });
        effects.push(Effect::FundFees { from: para_account, to: to, amount: FEES_AMOUNT });
        effects.push(Effect::TransferAsset { from, asset: currency_id, to: multi_id, amount });
        effects.push(Effect::Deposit(Event::XcmTokenTransferInitiated {
            time: now,
            amount,
            multi_id,
            token: currency_id,
        }));
        Ok(effects)
    }

    /// The transactor's transfer as `multi_currency_transfer` makes it, where
    /// it can go ahead; `None`, with the storage unchanged, where it would
    /// panic.
    pub fn try_multi_currency_transfer(
        &mut self,
        currency_id: CurrencyId,
        from: AccountId,
        to: AccountId,
        amount: u128,
        now: BlockNumber,
    ) -> (r: Option<Result<Vec<Effect>, XcmError>>)
        ensures
            r is None <==> !can_transfer(*old(self), from, to, amount),
            r is None ==> same_transfer_state(*final(self), *old(self)),
            r matches Some(x) ==> transfer_recorded(*final(self), *old(self), currency_id, from, to, amount, now, x),
    {
        if !self.can_transfer(&from, &to, amount) {
            return None;
        }
        Some(self.multi_currency_transfer(currency_id, from, to, amount, now))
    }

    /// Records a cross-chain payment of `amount` of `asset_id` from `payer` to
    /// `payee` like a payment, and hands back the parties' multi-signature
    /// account with the work that sets it up.
    fn transfer_multisig_record(
        &mut self,
        payer: AccountId,
        payee: AccountId,
        amount: u128,
        asset_id: CurrencyId,
        now: BlockNumber,
    ) -> (r: (AccountId, Vec<Effect>))
        requires
            can_top_up(seq_at(old(self).payee_txn_receipt@, payee@), transfer_multi(payer, payee), amount),
            can_top_up_payer(old(self).payer_txn_receipt@, payer@ + payee@, amount),
        ensures
            r.0@ == transfer_multi(payer, payee),
            r.1@ == seq![
                Effect::CreateAccount { account: r.0 },
                Effect::Deposit(Event::MultisigAccountCreated { time: now, id: r.0 }),
            ],
            transfer_storage_recorded(*final(self), *old(self), asset_id, payer, payee, amount),
    {
        let accounts = PairSigners::new(payee, payer);
        let multi_id = derive_pair_multi_id(&accounts);
        let ref_no = derive_reference_no(&payer, &payee, &multi_id);
        self.allowed_signers.insert(account_bytes_key(&payer, ref_no.as_slice()), accounts);
        record_receipts(
            &mut self.payee_txn_receipt,
            &mut self.payer_txn_receipt,
            &payee,
            &payer,
            &multi_id,
            ref_no.as_slice(),
            amount,
            asset_id,
        );
        let mut effects: Vec<Effect> = Vec::new();
        effects.push(Effect::CreateAccount { account: multi_id });
        effects.push(Effect::Deposit(Event::MultisigAccountCreated { time: now, id: multi_id }));
        assert(effects@ =~= seq![
            Effect::CreateAccount { account: multi_id },
            Effect::Deposit(Event::MultisigAccountCreated { time: now, id: multi_id }),
        ]);
        (multi_id, effects)
    }

    /// A cross-chain payment of `amount` from `payer` to `payee` through this
    /// pallet: for DOT it is recorded and `amount` of `asset_id` is minted
    /// into the parties' multi-signature account. Other tokens are refused.
    pub fn vane_transfer(
        &mut self,
        payer: AccountId,
        payee: AccountId,
        amount: u128,
        currency: Token,
        asset_id: CurrencyId,
        now: BlockNumber,
    ) -> (r: Result<Vec<Effect>, XcmError>)
        requires
            can_transfer_system_transfer(*old(self), payer, payee, amount, currency),
        ensures
            transfer_system_transfer_outcome(*final(self), *old(self), payer, payee, amount, currency, asset_id, now, r),
    {
        match currency {
            Token::USDT => {
                return Err(XcmError::NotSupportedYet);
            }
            Token::DOT => {}
        }
        let (multi_id, mut effects) = self.transfer_multisig_record(payer, payee, amount, asset_id, now);
        let mut more = self.vane_xcm_transfer_dot(amount, multi_id, asset_id, now)?;
        let ghost second = more@;
        effects.append(&mut more);
        assert(effects@.skip(2) =~= second);
        Ok(effects)
    }

    /// A cross-chain payment as `vane_transfer` makes it, where it can go
    /// ahead; `None`, with the storage unchanged, where it would panic.
    pub fn try_vane_transfer(
        &mut self,
        payer: AccountId,
        payee: AccountId,
        amount: u128,
        currency: Token,
        asset_id: CurrencyId,
        now: BlockNumber,
    ) -> (r: Option<Result<Vec<Effect>, XcmError>>)
        ensures
            r is None <==> !can_transfer_system_transfer(*old(self), payer, payee, amount, currency),
            r is None ==> same_transfer_state(*final(self), *old(self)),
            r matches Some(x) ==> transfer_system_transfer_outcome(
                *final(self),
                *old(self),
                payer,
                payee,
                amount,
                currency,
                asset_id,
                now,
                x,
            ),
    {
        let multi_id = derive_pair_multi_id(&PairSigners::new(payee, payer));
        if !can_record_payee_receipt(&self.payee_txn_receipt, &payee, &multi_id, amount) {
            return None;
        }
        if !can_record_payer_receipt(&self.payer_txn_receipt, &payer, &payee, amount) {
            return None;
        }
        if currency == Token::DOT && self.para_account.is_none() {
            return None;
        }
        Some(self.vane_transfer(payer, payee, amount, currency, asset_id, now))
    }

    /// The existential deposit of a currency; only DOT has one.
    pub fn minimum_balance(currency_id: CurrencyId) -> (r: u128)
        requires
            currency_id == CurrencyId::DOT,
        ensures
            r == DOT_EXISTENTIAL_DEPOSIT,
    {
        DOT_EXISTENTIAL_DEPOSIT
    }

    /// Whether `value` can be slashed from an account whose balance is
    /// `free_balance`: always for nothing, otherwise where the balance covers it.
    pub fn can_slash(value: u128, free_balance: u128) -> (r: bool)
        ensures
            r == (value == 0 || free_balance >= value),
    {
        if value == 0 {
            return true;
        }
        free_balance >= value
    }

    /// The result of a withdrawal check, from what the assets pallet says a
    /// withdrawal would lead to.
    pub fn ensure_can_withdraw(consequence: WithdrawConsequence) -> (r: Result<(), AssetError>)
        ensures
            r == withdraw_error(consequence),
    {
        match consequence {
            WithdrawConsequence::BalanceLow => Err(AssetError::BalanceLow),
            WithdrawConsequence::WouldDie => Err(AssetError::WouldDie),
            WithdrawConsequence::UnknownAsset => Err(AssetError::Unknown),
            WithdrawConsequence::Underflow => Err(AssetError::Unknown),
            WithdrawConsequence::Overflow => Err(AssetError::Unknown),
            WithdrawConsequence::Frozen => Err(AssetError::Frozen),
            WithdrawConsequence::ReducedToZero(_) => Err(AssetError::MinBalanceZero),
            WithdrawConsequence::Success => Ok(()),
        }
    }

    /// A deposit of exactly `amount` of `currency_id` to `receiver`.
    pub fn deposit(currency_id: CurrencyId, receiver: AccountId, amount: u128) -> (r: Effect)
        ensures
            r == (Effect::DepositAsset { asset: currency_id, who: receiver, amount }),
    {
        Effect::DepositAsset { asset: currency_id, who: receiver, amount }
    }

    /// A withdrawal of exactly `amount` of `currency_id` from `who`.
    pub fn withdraw(currency_id: CurrencyId, who: AccountId, amount: u128) -> (r: Effect)
        ensures
            r == (Effect::WithdrawAsset { asset: currency_id, who, amount }),
    {
        Effect::WithdrawAsset { asset: currency_id, who, amount }
    }
}

} // verus!
