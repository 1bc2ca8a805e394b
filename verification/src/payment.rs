//! The payment pallet: a payer locks funds in a multi-signature account shared
//! with the payee; the payee confirms, then the payer, and the funds go to the
//! payee.
use vstd::prelude::*;
use crate::byte_map::{ByteMap, seq_at, push_to_list};
use crate::bytes::{AccountId, BlockNumber, account_eq, account_key, account_bytes_key, to_vec};
use crate::crypto::{blake2_256, blake2_256_spec, decode_from_entropy, encode_account_pair};
use crate::effects::{Effect, Event, ResolverChoice, Token};
use crate::order::OrderState;
use crate::receipt::{
    CallExecuted, TxnReceipt, TxnTicketOrder, can_top_up, payee_receipts_after, fresh_receipt,
    record_receipts, can_record_payee_receipt, can_record_payer_receipt, can_top_up_payer, topped_up,
};
use crate::register::RegisterState;
use crate::signers::{AccountSigners, derive_multi_id, derive_reference_no, multi_id_spec, reference_no_spec};

verus! {

/// The most accounts that can confirm one payment.
pub const MAX_SIGNERS: usize = 2;

/// Who confirms a payment.
#[derive(Clone, Copy, Debug, PartialEq, Eq, Structural)]
pub enum Confirm {
    Payer,
    Payee,
}

/// Why a refund is asked for.
#[derive(Clone, Copy, Debug, PartialEq, Eq, Structural)]
pub enum RevertReasons {
    WrongPayeeAddress,
    ChangeOfDecision,
    PayeeMisbehaviour,
}

/// A payee's reason to let funds through when a payer misbehaves.
#[derive(Clone, Copy, Debug, PartialEq, Eq, Structural)]
pub enum PayeeReason {
    PayerMisbehaviour,
}

/// The errors of the payment pallet.
#[derive(Clone, Copy, Debug, PartialEq, Eq, Structural)]
pub enum PaymentError {
    UnexpectedError,
    FailedToMatchAccounts,
    MultiAccountExists,
    ExceededSigners,
    AccountAlreadyExist,
    WaitForPayeeToConfirm,
    WaitForPayerToConfirm,
    PayerAlreadyConfirmed,
    PayeeAlreadyConfirmed,
    NotAllowedPayeeOrPaymentNotInitialized,
    MultiSigCallFailed,
    ProductNotFound,
    OrderNotFound,
}

/// The storage of the payment pallet.
///
/// `allowed_signers` and `payer_txn_receipt` are keyed by the payer followed
/// by the reference number and by the payer followed by the payee;
/// `confirmed_signers` by the reference number; the others by one account.
pub struct PaymentState {
    pub allowed_signers: ByteMap<AccountSigners>,
    pub confirmed_signers: ByteMap<Vec<AccountId>>,
    pub account_multi_txns: ByteMap<Vec<CallExecuted>>,
    pub payee_txn_receipt: ByteMap<Vec<TxnReceipt<Option<Token>>>>,
    pub payer_txn_receipt: ByteMap<TxnReceipt<Option<Token>>>,
    pub payee_txn_ticket_order: ByteMap<Vec<TxnTicketOrder>>,
    pub payer_txn_ticket_order: ByteMap<Vec<TxnTicketOrder>>,
}

/// Two states hold the same storage.
pub open spec fn same_payment_state(a: PaymentState, b: PaymentState) -> bool {
    &&& a.allowed_signers@ == b.allowed_signers@
    &&& a.confirmed_signers@ == b.confirmed_signers@
    &&& a.account_multi_txns@ == b.account_multi_txns@
    &&& a.payee_txn_receipt@ == b.payee_txn_receipt@
    &&& a.payer_txn_receipt@ == b.payer_txn_receipt@
    &&& a.payee_txn_ticket_order@ == b.payee_txn_ticket_order@
    &&& a.payer_txn_ticket_order@ == b.payer_txn_ticket_order@
}

/// The signers of a payment from `payer` to `payee`, with no resolver.
pub open spec fn plain_signers(payee: AccountId, payer: AccountId) -> AccountSigners {
    AccountSigners { payee, payer, resolver: None }
}

/// The multi-signature account of a payment from `payer` to `payee`.
pub open spec fn pay_multi(payer: AccountId, payee: AccountId) -> Seq<u8> {
    multi_id_spec(plain_signers(payee, payer))
}

/// The reference number of a payment from `payer` to `payee`.
pub open spec fn pay_reference(payer: AccountId, payee: AccountId) -> Seq<u8> {
    reference_no_spec(payer@, payee@, pay_multi(payer, payee))
}

/// `e` is what locking a payment of `amount` from `payer` to `payee` asks of
/// the runtime: set up the multi-signature account, report it, move the funds
/// into it keeping the payer alive, and report that.
pub open spec fn lock_effects(
    e: Seq<Effect>,
    payer: AccountId,
    payee: AccountId,
    amount: u128,
    now: BlockNumber,
) -> bool {
    let m = pay_multi(payer, payee);
    &&& e.len() == 4
    &&& e[0] matches Effect::CreateAccount { account } && account@ == m
    &&& e[1] matches Effect::Deposit(Event::MultiAccountCreated { account_id, timestamp })
        && account_id@ == m && timestamp == now
    &&& e[2] matches Effect::Transfer { from, to, amount: a, keep_alive }
        && from == payer && to@ == m && a == amount && keep_alive
    &&& e[3] matches Effect::Deposit(Event::BalanceTransferredAndLocked { to_multi_id, from, timestamp, reference_no })
        && to_multi_id@ == m && from == payer && timestamp == now
        && reference_no@ == pay_reference(payer, payee)
}

/// `new` is `old` with a payment of `amount` from `payer` to `payee` locked:
/// its signers allowed under the payer and the reference number, and the
/// receipts of both parties updated.
pub open spec fn payment_locked(
    new: PaymentState,
    old: PaymentState,
    payer: AccountId,
    payee: AccountId,
    amount: u128,
    currency: Option<Token>,
) -> bool {
    let m = pay_multi(payer, payee);
    let rf = pay_reference(payer, payee);
    &&& new.allowed_signers@ == old.allowed_signers@.insert(payer@ + rf, plain_signers(payee, payer))
    &&& new.payee_txn_receipt@ == old.payee_txn_receipt@.insert(payee@, new.payee_txn_receipt@[payee@])
    &&& payee_receipts_after(
        new.payee_txn_receipt@[payee@]@,
        seq_at(old.payee_txn_receipt@, payee@),
        payee,
        payer,
        m,
        rf,
        amount,
        currency,
    )
    &&& old.payer_txn_receipt@.dom().contains(payer@ + payee@) ==> {
        &&& new.payer_txn_receipt@ == old.payer_txn_receipt@.insert(
            payer@ + payee@,
            new.payer_txn_receipt@[payer@ + payee@],
        )
        &&& topped_up(new.payer_txn_receipt@[payer@ + payee@], old.payer_txn_receipt@[payer@ + payee@], amount)
    }
    &&& !old.payer_txn_receipt@.dom().contains(payer@ + payee@) ==> {
        &&& new.payer_txn_receipt@ == old.payer_txn_receipt@.insert(
            payer@ + payee@,
            new.payer_txn_receipt@[payer@ + payee@],
        )
        &&& fresh_receipt(new.payer_txn_receipt@[payer@ + payee@], payee, payer, m, rf, amount, currency)
    }
    &&& new.confirmed_signers@ == old.confirmed_signers@
    &&& new.account_multi_txns@ == old.account_multi_txns@
    &&& new.payee_txn_ticket_order@ == old.payee_txn_ticket_order@
    &&& new.payer_txn_ticket_order@ == old.payer_txn_ticket_order@
}

/// `new` is `old` with an order payment of `amount` from `payer` to `payee`
/// locked: its signers allowed under the payer and the reference number, and
/// a ticket for it added to the payee's list and to the payer's list for the
/// payee; the confirmations, records and receipts stay as they were.
pub open spec fn order_payment_locked(
    new: PaymentState,
    old: PaymentState,
    payer: AccountId,
    payee: AccountId,
    amount: u128,
) -> bool {
    &&& new.allowed_signers@ == old.allowed_signers@.insert(
        payer@ + pay_reference(payer, payee),
        plain_signers(payee, payer),
    )
    &&& new.payee_txn_ticket_order@ == old.payee_txn_ticket_order@.insert(
        payee@,
        new.payee_txn_ticket_order@[payee@],
    )
    &&& new.payee_txn_ticket_order@[payee@]@.drop_last() == seq_at(old.payee_txn_ticket_order@, payee@)
    &&& new.payee_txn_ticket_order@[payee@]@.len() == seq_at(old.payee_txn_ticket_order@, payee@).len() + 1
    &&& ({
        let t = new.payee_txn_ticket_order@[payee@]@.last();
        t.payee == payee && t.payer == payer && t.amount == amount
            && t.reference_no@ == pay_reference(payer, payee)
    })
    &&& new.payer_txn_ticket_order@ == old.payer_txn_ticket_order@.insert(
        payer@ + payee@,
        new.payer_txn_ticket_order@[payer@ + payee@],
    )
    &&& new.payer_txn_ticket_order@[payer@ + payee@]@.drop_last() == seq_at(old.payer_txn_ticket_order@, payer@ + payee@)
    &&& new.payer_txn_ticket_order@[payer@ + payee@]@.len() == seq_at(old.payer_txn_ticket_order@, payer@ + payee@).len() + 1
    &&& ({
        let t = new.payer_txn_ticket_order@[payer@ + payee@]@.last();
        t.payee == payee && t.payer == payer && t.amount == amount
            && t.reference_no@ == pay_reference(payer, payee)
    })
    &&& new.confirmed_signers@ == old.confirmed_signers@
    &&& new.account_multi_txns@ == old.account_multi_txns@
    &&& new.payee_txn_receipt@ == old.payee_txn_receipt@
    &&& new.payer_txn_receipt@ == old.payer_txn_receipt@
}

/// What a payment of `amount` from `payer` to `payee` does to the storage
/// (`old` before, `new` after) and returns (`r`): without a resolver it is
/// locked and reported as submitted; with one, nothing happens.
pub open spec fn vane_pay_outcome(
    new: PaymentState,
    old: PaymentState,
    payer: AccountId,
    payee: AccountId,
    amount: u128,
    resolver: Option<ResolverChoice>,
    now: BlockNumber,
    r: Result<Vec<Effect>, PaymentError>,
) -> bool {
    &&& r is Ok
    &&& resolver is Some ==> r->Ok_0@.len() == 0 && same_payment_state(new, old)
    &&& resolver is None ==> {
        &&& r->Ok_0@.len() == 5
        &&& lock_effects(r->Ok_0@.take(4), payer, payee, amount, now)
        &&& r->Ok_0@[4] == Effect::Deposit(Event::SubmittedPayment {
            from_account: payer,
            to_account: payee,
            amount,
            resolver: None,
            timestamp: now,
        })
        &&& payment_locked(new, old, payer, payee, amount, None)
    }
}

/// The payee's receipts and the payer's receipt for the payee can count a
/// payment of `amount` from `payer`.
pub open spec fn can_lock_payment(s: PaymentState, payer: AccountId, payee: AccountId, amount: u128) -> bool {
    &&& can_top_up(seq_at(s.payee_txn_receipt@, payee@), pay_multi(payer, payee), amount)
    &&& can_top_up_payer(s.payer_txn_receipt@, payer@ + payee@, amount)
}

/// `r` is the record of funds leaving the account of `allowed_multi` for `payee`.
pub open spec fn executed_record(
    r: CallExecuted,
    payer: AccountId,
    payee: AccountId,
    allowed_multi: Seq<u8>,
    confirmed_multi: Seq<u8>,
    now: BlockNumber,
) -> bool {
    &&& r.payer == payer
    &&& r.payee == payee
    &&& r.allowed_multi_id@ == allowed_multi
    &&& r.confirmed_multi_id@ == confirmed_multi
    &&& r.proof@ == blake2_256_spec(allowed_multi + confirmed_multi)
    &&& r.time == now
}

/// What a confirmation of the payment with reference number `reference_no`
/// by `user` leads to, from storage `old` to storage `new` with result `r`.
pub open spec fn confirm_outcome(
    new: PaymentState,
    old: PaymentState,
    user: AccountId,
    who: Confirm,
    reference_no: Vec<u8>,
    now: BlockNumber,
    r: Result<Vec<Effect>, PaymentError>,
) -> bool
{
    let cs = seq_at(old.confirmed_signers@, reference_no@);
    let key = user@ + reference_no@;
    let mine = plain_signers(cs[0], user);
    let allowed = old.allowed_signers@[key];
    &&& (cs.len() == 0 && who == Confirm::Payer) ==> {
        &&& r == Err::<Vec<Effect>, PaymentError>(PaymentError::WaitForPayeeToConfirm)
        &&& same_payment_state(new, old)
    }
    &&& (cs.len() == 0 && who == Confirm::Payee) ==> {
        &&& r is Ok
        &&& r->Ok_0@ == seq![Effect::Deposit(Event::PayeeAddressConfirmed {
            account_id: user,
            timestamp: now,
            reference_no,
        })]
        &&& new.confirmed_signers@ == old.confirmed_signers@.insert(
            reference_no@,
            new.confirmed_signers@[reference_no@],
        )
        &&& new.confirmed_signers@[reference_no@]@ == seq![user]
        &&& new.allowed_signers@ == old.allowed_signers@
        &&& new.account_multi_txns@ == old.account_multi_txns@
        &&& new.payee_txn_receipt@ == old.payee_txn_receipt@
        &&& new.payer_txn_receipt@ == old.payer_txn_receipt@
        &&& new.payee_txn_ticket_order@ == old.payee_txn_ticket_order@
        &&& new.payer_txn_ticket_order@ == old.payer_txn_ticket_order@
    }
    &&& (cs.len() > 0 && cs[0] == user) ==> {
        &&& r == Err::<Vec<Effect>, PaymentError>(PaymentError::PayeeAlreadyConfirmed)
        &&& same_payment_state(new, old)
    }
    &&& (cs.len() > 1 && cs[0] != user) ==> {
        &&& r == Err::<Vec<Effect>, PaymentError>(PaymentError::ExceededSigners)
        &&& same_payment_state(new, old)
    }
    &&& (cs.len() == 1 && cs[0] != user && !old.allowed_signers@.dom().contains(key)) ==> {
        &&& r == Err::<Vec<Effect>, PaymentError>(PaymentError::NotAllowedPayeeOrPaymentNotInitialized)
        &&& same_payment_state(new, old)
    }
    &&& (cs.len() == 1 && cs[0] != user && old.allowed_signers@.dom().contains(key)
        && multi_id_spec(allowed) != multi_id_spec(mine)) ==> {
        &&& r == Err::<Vec<Effect>, PaymentError>(PaymentError::FailedToMatchAccounts)
        &&& same_payment_state(new, old)
    }
    &&& (cs.len() == 1 && cs[0] != user && old.allowed_signers@.dom().contains(key)
        && multi_id_spec(allowed) == multi_id_spec(mine)) ==> {
        let m = multi_id_spec(mine);
        &&& r is Ok
        &&& r->Ok_0@.len() == 3
        &&& r->Ok_0@[0] == Effect::Deposit(Event::PayerAddressConfirmed {
            account_id: user,
            timestamp: now,
            reference_no,
        })
        &&& r->Ok_0@[1] matches Effect::TransferAll { from, to, keep_alive }
            && from@ == m && to == cs[0] && !keep_alive
        &&& r->Ok_0@[2] matches Effect::Deposit(Event::CallExecuted { multi_id, timestamp })
            && multi_id@ == m && timestamp == now
        &&& new.confirmed_signers@ == old.confirmed_signers@.insert(
            reference_no@,
            new.confirmed_signers@[reference_no@],
        )
        &&& new.confirmed_signers@[reference_no@]@ == seq![cs[0], user]
        &&& new.account_multi_txns@ == old.account_multi_txns@.insert(
            user@,
            new.account_multi_txns@[user@],
        )
        &&& new.account_multi_txns@[user@]@.drop_last() == seq_at(old.account_multi_txns@, user@)
        &&& new.account_multi_txns@[user@]@.len() == seq_at(old.account_multi_txns@, user@).len() + 1
        &&& executed_record(new.account_multi_txns@[user@]@.last(), user, cs[0], m, m, now)
        &&& new.allowed_signers@ == old.allowed_signers@
        &&& new.payee_txn_receipt@ == old.payee_txn_receipt@
        &&& new.payer_txn_receipt@ == old.payer_txn_receipt@
        &&& new.payee_txn_ticket_order@ == old.payee_txn_ticket_order@
        &&& new.payer_txn_ticket_order@ == old.payer_txn_ticket_order@
    }
}

/// Some product in `s` has id `item_no`.
pub open spec fn has_product(s: Seq<crate::register::ProductProfile>, item_no: u32) -> bool {
exists|i: int| 0 <= i < s.len() && s[i].product_id == item_no
}

/// Order `i` is the first in `s` numbered `order_no`.
pub open spec fn first_order_numbered(s: Seq<crate::order::Order>, order_no: u32, i: int) -> bool {
    &&& 0 <= i < s.len()
    &&& s[i].order_no == order_no
    &&& forall|j: int| 0 <= j < i ==> s[j].order_no != order_no
}

/// Reference `k` is the first in `refs` by `buyer` for item `item_no`.
pub open spec fn first_matching_ref(refs: Seq<(AccountId, u32, u32)>, buyer: AccountId, item_no: u32, k: int) -> bool {
    &&& 0 <= k < refs.len()
    &&& refs[k].0 == buyer
    &&& refs[k].1 == item_no
    &&& forall|j: int| 0 <= j < k ==> !(refs[j].0 == buyer && refs[j].1 == item_no)
}

/// The position of the first reference in `v` by `buyer` for item
/// `item_no`, if there is one.
fn position_of_matching_ref(v: &Vec<(AccountId, u32, u32)>, buyer: &AccountId, item_no: u32) -> (r: Option<usize>)
    ensures
        match r {
            Some(k) => first_matching_ref(v@, *buyer, item_no, k as int),
            None => forall|j: int| 0 <= j < v@.len() ==> !(v@[j].0 == *buyer && v@[j].1 == item_no),
        },
{
    let n = v.len();
    let mut i: usize = 0;
    while i < n
        invariant
            n == v@.len(),
            i <= n,
            forall|j: int| 0 <= j < i ==> !(v@[j].0 == *buyer && v@[j].1 == item_no),
        decreases n - i,
    {
        if account_eq(&v[i].0, buyer) && v[i].1 == item_no {
            return Some(i);
        }
        i = i + 1;
    }
    None
}

/// The position of the first order in `v` numbered `order_no`, if there is one.
fn position_of_order_numbered(v: &Vec<crate::order::Order>, order_no: u32) -> (r: Option<usize>)
    ensures
        match r {
            Some(i) => first_order_numbered(v@, order_no, i as int),
            None => forall|j: int| 0 <= j < v@.len() ==> v@[j].order_no != order_no,
        },
{
    let n = v.len();
    let mut i: usize = 0;
    while i < n
        invariant
            n == v@.len(),
            i <= n,
            forall|j: int| 0 <= j < i ==> v@[j].order_no != order_no,
        decreases n - i,
    {
        if v[i].order_no == order_no {
            return Some(i);
        }
        i = i + 1;
    }
    None
}

/// A copy of a list of accounts.
fn copy_accounts(v: &Vec<AccountId>) -> (r: Vec<AccountId>)
    ensures
        r@ == v@,
{
    let mut r: Vec<AccountId> = Vec::new();
    let n = v.len();
    let mut i: usize = 0;
    while i < n
        invariant
            n == v@.len(),
            i <= n,
            r@ == v@.subrange(0, i as int),
        decreases n - i,
    {
        r.push(v[i]);
        i = i + 1;
        assert(r@ =~= v@.subrange(0, i as int));
    }
    assert(v@.subrange(0, n as int) =~= v@);
    r
}

/// The multi-signature account to set up: the runtime registers it in the
/// system's account storage unless it is there already.
pub fn create_multi_account(multi_id: AccountId) -> (r: Effect)
    ensures
        r == (Effect::CreateAccount { account: multi_id }),
{
    Effect::CreateAccount { account: multi_id }
}

impl PaymentState {
    /// Empty storage.
    pub fn new() -> (r: Self)
        ensures
            r.allowed_signers@ == Map::<Seq<u8>, AccountSigners>::empty(),
            r.confirmed_signers@ == Map::<Seq<u8>, Vec<AccountId>>::empty(),
            r.account_multi_txns@ == Map::<Seq<u8>, Vec<CallExecuted>>::empty(),
            r.payee_txn_receipt@ == Map::<Seq<u8>, Vec<TxnReceipt<Option<Token>>>>::empty(),
            r.payer_txn_receipt@ == Map::<Seq<u8>, TxnReceipt<Option<Token>>>::empty(),
            r.payee_txn_ticket_order@ == Map::<Seq<u8>, Vec<TxnTicketOrder>>::empty(),
            r.payer_txn_ticket_order@ == Map::<Seq<u8>, Vec<TxnTicketOrder>>::empty(),
    {
        PaymentState {
            allowed_signers: ByteMap::new(),
            confirmed_signers: ByteMap::new(),
            account_multi_txns: ByteMap::new(),
            payee_txn_receipt: ByteMap::new(),
            payer_txn_receipt: ByteMap::new(),
            payee_txn_ticket_order: ByteMap::new(),
            payer_txn_ticket_order: ByteMap::new(),
        }
    }

    /// Whether a payment of `amount` from `payer` to `payee` can be locked
    /// (rather than panic on a full or overflowing receipt).
    pub fn can_lock_payment(&self, payer: &AccountId, payee: &AccountId, amount: u128) -> (r: bool)
        ensures
            r == can_lock_payment(*self, *payer, *payee, amount),
    {
        let accounts = AccountSigners::new(*payee, *payer, None);
        let multi_id = derive_multi_id(&accounts);
        can_record_payee_receipt(&self.payee_txn_receipt, payee, &multi_id, amount)
            && can_record_payer_receipt(&self.payer_txn_receipt, payer, payee, amount)
    }

    /// Locks a payment of `amount` from `payer` to `payee` without a resolver:
    /// allows the two as signers, records the receipts, and asks the runtime to
    /// set up the multi-signature account and move the funds into it.
    pub fn inner_vane_pay_wo_resolver(
        &mut self,
        payer: AccountId,
        payee: AccountId,
        amount: u128,
        currency: Option<Token>,
        now: BlockNumber,
    ) -> (r: Result<Vec<Effect>, PaymentError>)
        requires
            can_lock_payment(*old(self), payer, payee, amount),
        ensures
            r is Ok,
            lock_effects(r->Ok_0@, payer, payee, amount, now),
            payment_locked(*final(self), *old(self), payer, payee, amount, currency),
    {
        let accounts = AccountSigners::new(payee, payer, None);
        let multi_id = derive_multi_id(&accounts);
        let ref_no = derive_reference_no(&payer, &payee, &multi_id);
        self.allowed_signers.insert(account_bytes_key(&payer, ref_no.as_slice()), accounts);
        record_receipts(
            &mut self.payee_txn_receipt,
            &mut self.payer_txn_receipt,
            &payee,
            &payer,
            &multi_id,
            ref_no.as_slice(),
            amount,
            currency,
        );
        let mut effects: Vec<Effect> = Vec::new();
        effects.push(create_multi_account(multi_id));
        effects.push(Effect::Deposit(Event::MultiAccountCreated { account_id: multi_id, timestamp: now }));
        effects.push(Effect::Transfer { from: payer, to: multi_id, amount, keep_alive: true });
        effects.push(Effect::Deposit(Event::BalanceTransferredAndLocked {
            to_multi_id: multi_id,
            from: payer,
            timestamp: now,
            reference_no: ref_no,
        }));
        Ok(effects)
    }

    /// A payment of `amount` from `payer` to `payee`. Without a resolver it is
    /// locked and reported as submitted; with one, nothing happens.
    pub fn vane_pay(
        &mut self,
        payer: AccountId,
        payee: AccountId,
        amount: u128,
        resolver: Option<ResolverChoice>,
        now: BlockNumber,
    ) -> (r: Result<Vec<Effect>, PaymentError>)
        requires
            resolver is None ==> can_lock_payment(*old(self), payer, payee, amount),
        ensures
            vane_pay_outcome(*final(self), *old(self), payer, payee, amount, resolver, now, r),
    {
        match resolver {
            None => {
                let mut effects = self.inner_vane_pay_wo_resolver(payer, payee, amount, None, now)?;
                let ghost locked = effects@;
                effects.push(Effect::Deposit(Event::SubmittedPayment {
                    from_account: payer,
                    to_account: payee,
                    amount,
                    resolver: None,
                    timestamp: now,
                }));
                assert(effects@.take(4) =~= locked);
                Ok(effects)
            }
            Some(_) => Ok(Vec::new()),
        }
    }

    /// A payment as `vane_pay` makes it, where the payee's receipts can count
    /// it; `None`, with the storage unchanged, where they cannot (a full list
    /// of transactions or a total that would overflow).
    pub fn try_vane_pay(
        &mut self,
        payer: AccountId,
        payee: AccountId,
        amount: u128,
        resolver: Option<ResolverChoice>,
        now: BlockNumber,
    ) -> (r: Option<Result<Vec<Effect>, PaymentError>>)
        ensures
            r is None <==> resolver is None && !can_lock_payment(*old(self), payer, payee, amount),
            r is None ==> same_payment_state(*final(self), *old(self)),
            r matches Some(x) ==> vane_pay_outcome(*final(self), *old(self), payer, payee, amount, resolver, now, x),
    {
        if resolver.is_none() && !self.can_lock_payment(&payer, &payee, amount) {
            return None;
        }
        Some(self.vane_pay(payer, payee, amount, resolver, now))
    }

    /// Locks an order payment of `amount` from `payer` to `payee`: allows the
    /// two as signers, adds a ticket for each, and asks the runtime to set up
    /// the multi-signature account and move the funds into it.
    pub fn inner_vane_order_pay_wo_resolver(
        &mut self,
        payer: AccountId,
        payee: AccountId,
        amount: u128,
        now: BlockNumber,
    ) -> (r: Result<Vec<Effect>, PaymentError>)
        ensures
            r is Ok,
            lock_effects(r->Ok_0@, payer, payee, amount, now),
            order_payment_locked(*final(self), *old(self), payer, payee, amount),
    {
        let accounts = AccountSigners::new(payee, payer, None);
        let multi_id = derive_multi_id(&accounts);
        let ref_no = derive_reference_no(&payer, &payee, &multi_id);
        self.allowed_signers.insert(account_bytes_key(&payer, ref_no.as_slice()), accounts);
        let payee_ticket = TxnTicketOrder::new(payee, payer, to_vec(ref_no.as_slice()), amount);
        let payer_ticket = TxnTicketOrder::new(payee, payer, to_vec(ref_no.as_slice()), amount);
        push_to_list(&mut self.payee_txn_ticket_order, account_key(&payee), payee_ticket);
        push_to_list(&mut self.payer_txn_ticket_order, crate::bytes::pair_key(&payer, &payee), payer_ticket);
        proof {
            let m1 = self.payee_txn_ticket_order@;
            assert(m1 =~= old(self).payee_txn_ticket_order@.insert(payee@, m1[payee@]));
            assert(m1[payee@]@.drop_last() =~= seq_at(old(self).payee_txn_ticket_order@, payee@));
            let m2 = self.payer_txn_ticket_order@;
            assert(m2 =~= old(self).payer_txn_ticket_order@.insert(payer@ + payee@, m2[payer@ + payee@]));
            assert(m2[payer@ + payee@]@.drop_last() =~= seq_at(old(self).payer_txn_ticket_order@, payer@ + payee@));
        }
        let mut effects: Vec<Effect> = Vec::new();
        effects.push(create_multi_account(multi_id));
        effects.push(Effect::Deposit(Event::MultiAccountCreated { account_id: multi_id, timestamp: now }));
        effects.push(Effect::Transfer { from: payer, to: multi_id, amount, keep_alive: true });
        effects.push(Effect::Deposit(Event::BalanceTransferredAndLocked {
            to_multi_id: multi_id,
            from: payer,
            timestamp: now,
            reference_no: ref_no,
        }));
        Ok(effects)
    }

    /// Records that funds left the multi-signature account `allowed_multi_id`
    /// for `payee`, and asks the runtime to move its whole balance there.
    pub fn dispatch_transfer_call(
        &mut self,
        proof: [u8; 32],
        payer: AccountId,
        payee: AccountId,
        allowed_multi_id: AccountId,
        confirmed_multi_id: AccountId,
        now: BlockNumber,
    ) -> (r: Result<Vec<Effect>, PaymentError>)
        ensures
            r is Ok,
            r->Ok_0@ == seq![
                Effect::TransferAll { from: allowed_multi_id, to: payee, keep_alive: false },
                Effect::Deposit(Event::CallExecuted { multi_id: confirmed_multi_id, timestamp: now }),
            ],
            final(self).account_multi_txns@ == old(self).account_multi_txns@.insert(
                payer@,
                final(self).account_multi_txns@[payer@],
            ),
            final(self).account_multi_txns@[payer@]@ == seq_at(old(self).account_multi_txns@, payer@).push(
                CallExecuted {
                    payer,
                    payee,
                    allowed_multi_id,
                    confirmed_multi_id,
                    proof,
                    time: now,
                },
            ),
            final(self).allowed_signers@ == old(self).allowed_signers@,
            final(self).confirmed_signers@ == old(self).confirmed_signers@,
            final(self).payee_txn_receipt@ == old(self).payee_txn_receipt@,
            final(self).payer_txn_receipt@ == old(self).payer_txn_receipt@,
            final(self).payee_txn_ticket_order@ == old(self).payee_txn_ticket_order@,
            final(self).payer_txn_ticket_order@ == old(self).payer_txn_ticket_order@,
    {
        let mut effects: Vec<Effect> = Vec::new();
        effects.push(Effect::TransferAll { from: allowed_multi_id, to: payee, keep_alive: false });
        let call_exe_object = CallExecuted::new(payer, payee, allowed_multi_id, confirmed_multi_id, proof, now);
        push_to_list(&mut self.account_multi_txns, account_key(&payer), call_exe_object);
        proof {
            let m = self.account_multi_txns@;
            assert(m =~= old(self).account_multi_txns@.insert(payer@, m[payer@]));
        }
        effects.push(Effect::Deposit(Event::CallExecuted { multi_id: confirmed_multi_id, timestamp: now }));
        assert(effects@ =~= seq![
            Effect::TransferAll { from: allowed_multi_id, to: payee, keep_alive: false },
            Effect::Deposit(Event::CallExecuted { multi_id: confirmed_multi_id, timestamp: now }),
        ]);
        Ok(effects)
    }

    /// A confirmation of the payment with reference number `reference_no` by
    /// `user`. The first account to confirm must say it is the payee; the
    /// second, another account, is taken as the payer. When the payer's
    /// allowed signers for the reference share a multi-signature account with
    /// the two that confirmed, its funds go to the payee.
    pub fn confirm_pay(
        &mut self,
        user: AccountId,
        who: Confirm,
        reference_no: Vec<u8>,
        now: BlockNumber,
    ) -> (r: Result<Vec<Effect>, PaymentError>)
        ensures
            confirm_outcome(*final(self), *old(self), user, who, reference_no, now, r),
    {
        let ref_key = to_vec(reference_no.as_slice());
        let b_vec: Vec<AccountId> = match self.confirmed_signers.get(ref_key.as_slice()) {
            Some(v) => copy_accounts(v),
            None => Vec::new(),
        };
        if b_vec.len() > 0 {
            if account_eq(&b_vec[0], &user) {
                return Err(PaymentError::PayeeAlreadyConfirmed);
            }
            if b_vec.len() >= MAX_SIGNERS {
                return Err(PaymentError::ExceededSigners);
            }
            let payee = b_vec[0];
            let payer = user;
            let confirmed_acc_signers = AccountSigners::new(payee, payer, None);
            let confirmed_multi_id = derive_multi_id(&confirmed_acc_signers);
            let allowed_key = account_bytes_key(&payer, reference_no.as_slice());
            let allowed_signers: AccountSigners = match self.allowed_signers.get(allowed_key.as_slice()) {
                Some(a) => *a,
                None => {
                    return Err(PaymentError::NotAllowedPayeeOrPaymentNotInitialized);
                }
            };
            let allowed_multi_id = derive_multi_id(&allowed_signers);
            if !account_eq(&confirmed_multi_id, &allowed_multi_id) {
                return Err(PaymentError::FailedToMatchAccounts);
            }
            let mut signers = b_vec;
            signers.push(user);
            let ghost signers_seq = signers@;
            self.confirmed_signers.insert(ref_key, signers);
            let mut effects: Vec<Effect> = Vec::new();
            effects.push(Effect::Deposit(Event::PayerAddressConfirmed {
                account_id: user,
                timestamp: now,
                reference_no,
            }));
            let encoded_proof = encode_account_pair(&allowed_multi_id, &confirmed_multi_id);
            let proof = decode_from_entropy(&blake2_256(encoded_proof.as_slice()));
            let mut more = self.dispatch_transfer_call(
                proof,
                payer,
                payee,
                allowed_multi_id,
                confirmed_multi_id,
                now,
            )?;
            let ghost first = effects@[0];
            effects.append(&mut more);
            proof {
                assert(signers_seq =~= seq![payee, user]);
                let m = self.account_multi_txns@;
                assert(m[user@]@.drop_last() =~= seq_at(old(self).account_multi_txns@, user@));
            }
            Ok(effects)
        } else {
            match who {
                Confirm::Payer => Err(PaymentError::WaitForPayeeToConfirm),
                Confirm::Payee => {
                    let mut signers: Vec<AccountId> = Vec::new();
                    signers.push(user);
                    let ghost signers_seq = signers@;
                    self.confirmed_signers.insert(ref_key, signers);
                    let mut effects: Vec<Effect> = Vec::new();
                    effects.push(Effect::Deposit(Event::PayeeAddressConfirmed {
                        account_id: user,
                        timestamp: now,
                        reference_no,
                    }));
                    proof {
                        assert(signers_seq =~= seq![user]);
                    }
                    Ok(effects)
                }
            }
        }
    }

    /// A payment for an order of item `item_no` of `seller` by `buyer_id`.
    /// Without a resolver: the item must be one of the seller's products; the
    /// order number is taken from the seller's first order reference by this
    /// buyer for this item, the order with that number must be among the
    /// buyer's (else `OrderNotFound`), and its amount is locked from its payer
    /// to its payee and reported. With a resolver, nothing happens.
    pub fn vane_order_pay(
        &mut self,
        register: &RegisterState,
        orders: &OrderState,
        buyer_id: AccountId,
        seller: AccountId,
        item_no: u32,
        resolver: Option<ResolverChoice>,
        now: BlockNumber,
    ) -> (r: Result<Vec<Effect>, PaymentError>)
        ensures
            resolver is Some ==> r is Ok && r->Ok_0@.len() == 0 && same_payment_state(*final(self), *old(self)),
            ({
                let products = seq_at(register.payee_products@, seller@);
                let refs = seq_at(orders.payee_order_ref@, seller@);
                let buyer_orders = seq_at(orders.payer_order@, buyer_id@);
                &&& (resolver is None && !has_product(products, item_no)) ==> {
                    &&& r == Err::<Vec<Effect>, PaymentError>(PaymentError::ProductNotFound)
                    &&& same_payment_state(*final(self), *old(self))
                }
                &&& (resolver is None && has_product(products, item_no)
                    && (forall|k: int| !#[trigger] first_matching_ref(refs, buyer_id, item_no, k))) ==> {
                    &&& r == Err::<Vec<Effect>, PaymentError>(PaymentError::OrderNotFound)
                    &&& same_payment_state(*final(self), *old(self))
                }
                &&& forall|k: int| resolver is None && has_product(products, item_no)
                    && #[trigger] first_matching_ref(refs, buyer_id, item_no, k)
                    && (forall|i: int| !#[trigger] first_order_numbered(buyer_orders, refs[k].2, i)) ==> {
                    &&& r == Err::<Vec<Effect>, PaymentError>(PaymentError::OrderNotFound)
                    &&& same_payment_state(*final(self), *old(self))
                }
                &&& forall|k: int, i: int| resolver is None && has_product(products, item_no)
                    && #[trigger] first_matching_ref(refs, buyer_id, item_no, k)
                    && #[trigger] first_order_numbered(buyer_orders, refs[k].2, i) ==> {
                    let order = buyer_orders[i];
                    &&& r is Ok
                    &&& r->Ok_0@.len() == 5
                    &&& lock_effects(r->Ok_0@.take(4), order.payer_id, order.payee_id, order.amount, now)
                    &&& r->Ok_0@[4] == Effect::Deposit(Event::SubmittedOrderPayment {
                        from_account: order.payer_id,
                        to_account: order.payee_id,
                        amount: order.amount,
                        resolver: None,
                        timestamp: now,
                    })
                    &&& order_payment_locked(*final(self), *old(self), order.payer_id, order.payee_id, order.amount)
                }
            }),
    {
        match resolver {
            Some(_) => { return Ok(Vec::new()); }
            None => {}
        }
        let ghost refs_s = seq_at(orders.payee_order_ref@, seller@);
        let ghost buyer_orders = seq_at(orders.payer_order@, buyer_id@);
        let seller_key = account_key(&seller);
        let found = match register.payee_products.get(seller_key.as_slice()) {
            Some(products) => crate::register::position_of_product(products, item_no).is_some(),
            None => false,
        };
        if !found {
            return Err(PaymentError::ProductNotFound);
        }
        let order_no: u32 = match orders.payee_order_ref.get(seller_key.as_slice()) {
            Some(refs) => {
                assert(refs@ == refs_s);
                match position_of_matching_ref(refs, &buyer_id, item_no) {
                    Some(k) => {
                        proof {
                            assert forall|j: int| #[trigger] first_matching_ref(refs_s, buyer_id, item_no, j)
                                implies j == k as int by {
                                if j < k as int {
                                    assert(!(refs_s[j].0 == buyer_id && refs_s[j].1 == item_no));
                                } else if j > k as int {
                                    assert(!(refs_s[k as int].0 == buyer_id && refs_s[k as int].1 == item_no));
                                }
                            }
                        }
                        refs[k].2
                    }
                    None => { return Err(PaymentError::OrderNotFound); }
                }
            }
            None => {
                assert(refs_s.len() == 0);
                return Err(PaymentError::OrderNotFound);
            }
        };
        let order = match orders.payer_order.get(account_key(&buyer_id).as_slice()) {
            Some(v) => match position_of_order_numbered(v, order_no) {
                Some(i) => {
                    proof {
                        assert forall|k: int| #[trigger] first_order_numbered(buyer_orders, order_no, k)
                            implies k == i as int by {
                            if k < i as int {
                                assert(buyer_orders[k].order_no != order_no);
                            } else if k > i as int {
                                assert(buyer_orders[i as int].order_no != order_no);
                            }
                        }
                    }
                    v[i]
                }
                None => { return Err(PaymentError::OrderNotFound); }
            },
            None => { return Err(PaymentError::OrderNotFound); }
        };
        let mut effects = self.inner_vane_order_pay_wo_resolver(order.payer_id, order.payee_id, order.amount, now)?;
        let ghost locked = effects@;
        effects.push(Effect::Deposit(Event::SubmittedOrderPayment {
            from_account: order.payer_id,
            to_account: order.payee_id,
            resolver: None,
            timestamp: now,
            amount: order.amount,
        }));
        assert(effects@.take(4) =~= locked);
        Ok(effects)
    }

    /// A refund request: it changes nothing.
    pub fn revert_fund(&mut self, reason: RevertReasons) -> (r: Result<Vec<Effect>, PaymentError>)
        ensures
            r is Ok,
            r->Ok_0@.len() == 0,
            same_payment_state(*final(self), *old(self)),
    {
        Ok(Vec::new())
    }
}

} // verus!
