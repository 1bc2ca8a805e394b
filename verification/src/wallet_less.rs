//! Payments placed on behalf of users by a delegated signer.
use vstd::prelude::*;
use crate::byte_map::{ByteMap, seq_at, push_to_list};
use crate::bytes::{AccountId, BlockNumber, account_eq, to_vec};
use crate::effects::{Effect, ResolverChoice};
use crate::payment::{
    Confirm, PaymentError, PaymentState, can_lock_payment, confirm_outcome, lock_effects,
    payment_locked, same_payment_state,
};

verus! {

/// Where a call comes from.
#[derive(Clone, Copy, Debug, PartialEq, Eq)]
pub enum Origin {
    /// The chain's root authority.
    Root,
    /// An account that signed it.
    Signed(AccountId),
    /// No one.
    Unsigned,
}

/// A payment call placed on a user's behalf.
#[derive(Debug)]
pub enum PaymentCalls {
    VanePay { signer: AccountId, payee: AccountId, amount: u128, resolver: Option<ResolverChoice> },
    ConfirmPay { signer: AccountId, who: Confirm, reference: Vec<u8> },
}

/// The errors of the delegated-signer pallet.
#[derive(Clone, Copy, Debug, PartialEq, Eq, Structural)]
pub enum WalletLessError {
    CallPlacingFailed,
    UnAuthorized,
    CallDispatchFailed,
    UnexpectedError,
    /// The origin is not the one the call needs.
    BadOrigin,
}

/// The storage of the delegated-signer pallet: the accounts that asked for
/// calls, the calls placed under each password, and the delegated signer.
pub struct WalletLessState {
    pub track_accounts: Vec<AccountId>,
    pub payment_call_mem_pool: ByteMap<Vec<PaymentCalls>>,
    pub delegated_signer: Option<AccountId>,
}

/// The confirmation that the code `who` stands for: `2` for the payer, any
/// other code for the payee.
pub open spec fn confirm_of(who: u8) -> Confirm {
    if who == 2 {
        Confirm::Payer
    } else {
        Confirm::Payee
    }
}

/// What placing a payment of `amount` from `signer` to `payee` by `caller`
/// under `password` does to the pallet's storage (`old` before, `new` after),
/// to the payment storage (`old_payment`, `new_payment`) and returns (`r`).
pub open spec fn placed_vane_pay_outcome(
    new: WalletLessState,
    old: WalletLessState,
    new_payment: PaymentState,
    old_payment: PaymentState,
    caller: AccountId,
    signer: AccountId,
    payee: AccountId,
    amount: u128,
    password: Vec<u8>,
    now: BlockNumber,
    r: Result<Vec<Effect>, WalletLessError>,
) -> bool {
    &&& old.delegated_signer != Some(caller) ==> {
        &&& r == Err::<Vec<Effect>, WalletLessError>(WalletLessError::UnAuthorized)
        &&& new.payment_call_mem_pool@ == old.payment_call_mem_pool@
        &&& same_payment_state(new_payment, old_payment)
    }
    &&& old.delegated_signer == Some(caller) ==> {
        &&& r is Ok
        &&& r->Ok_0@.len() == 5
        &&& lock_effects(r->Ok_0@.take(4), signer, payee, amount, now)
        &&& payment_locked(new_payment, old_payment, signer, payee, amount, None)
        &&& new.payment_call_mem_pool@ == old.payment_call_mem_pool@.insert(
            password@,
            new.payment_call_mem_pool@[password@],
        )
        &&& new.payment_call_mem_pool@[password@]@.drop_last()
            == seq_at(old.payment_call_mem_pool@, password@)
        &&& new.payment_call_mem_pool@[password@]@.len()
            == seq_at(old.payment_call_mem_pool@, password@).len() + 1
        &&& new.payment_call_mem_pool@[password@]@.last() == (PaymentCalls::VanePay {
            signer,
            payee,
            amount,
            resolver: None,
        })
    }
    &&& new.delegated_signer == old.delegated_signer
    &&& new.track_accounts@ == old.track_accounts@
}

impl WalletLessState {
    /// Empty storage.
    pub fn new() -> (r: Self)
        ensures
            r.track_accounts@.len() == 0,
            r.payment_call_mem_pool@ == Map::<Seq<u8>, Vec<PaymentCalls>>::empty(),
            r.delegated_signer is None,
    {
        WalletLessState {
            track_accounts: Vec::new(),
            payment_call_mem_pool: ByteMap::new(),
            delegated_signer: None,
        }
    }

    /// Registration of the delegator: it does nothing.
    pub fn register_delegator() -> (r: Result<(), &'static str>)
        ensures
            r is Ok,
    {
        Ok(())
    }

    /// Sets the delegated signer; only the root authority may.
    pub fn set_delegated_signer(&mut self, origin: Origin, account: AccountId) -> (r: Result<(), WalletLessError>)
        ensures
            origin != Origin::Root ==> r == Err::<(), WalletLessError>(WalletLessError::BadOrigin)
                && final(self).delegated_signer == old(self).delegated_signer,
            origin == Origin::Root ==> r is Ok && final(self).delegated_signer == Some(account),
            final(self).track_accounts@ == old(self).track_accounts@,
            final(self).payment_call_mem_pool@ == old(self).payment_call_mem_pool@,
    {
        match origin {
            Origin::Root => {
                self.delegated_signer = Some(account);
                Ok(())
            }
            _ => Err(WalletLessError::BadOrigin),
        }
    }

    /// `caller` places a payment of `amount` from `signer` to `payee` under
    /// `password`. Only the delegated signer may (with none delegated, nobody
    /// may: `UnAuthorized`); the call is kept under the
    /// password and the payment is made as if `signer` had asked for it.
    pub fn place_vane_pay(
        &mut self,
        payment: &mut PaymentState,
        caller: AccountId,
        signer: AccountId,
        payee: AccountId,
        amount: u128,
        password: Vec<u8>,
        now: crate::bytes::BlockNumber,
    ) -> (r: Result<Vec<Effect>, WalletLessError>)
        requires
            old(self).delegated_signer == Some(caller) ==> can_lock_payment(*old(payment), signer, payee, amount),
        ensures
            placed_vane_pay_outcome(
                *final(self),
                *old(self),
                *final(payment),
                *old(payment),
                caller,
                signer,
                payee,
                amount,
                password,
                now,
                r,
            ),
    {
        let d_signer = match self.delegated_signer {
            Some(d) => d,
            None => { return Err(WalletLessError::UnAuthorized); }
        };
        if !account_eq(&caller, &d_signer) {
            return Err(WalletLessError::UnAuthorized);
        }
        let call = PaymentCalls::VanePay { signer, payee, amount, resolver: None };
        push_to_list(&mut self.payment_call_mem_pool, password, call);
        proof {
            let m = self.payment_call_mem_pool@;
            assert(m =~= old(self).payment_call_mem_pool@.insert(password@, m[password@]));
            assert(m[password@]@.drop_last() =~= seq_at(old(self).payment_call_mem_pool@, password@));
        }
        match payment.vane_pay(signer, payee, amount, None, now) {
            Ok(effects) => Ok(effects),
            Err(_) => Err(WalletLessError::CallDispatchFailed),
        }
    }

    /// A payment placed as `place_vane_pay` places it, where it can go ahead;
    /// `None`, with both storages unchanged, where the caller is the delegated
    /// signer but the parties' receipts cannot count the payment.
    pub fn try_place_vane_pay(
        &mut self,
        payment: &mut PaymentState,
        caller: AccountId,
        signer: AccountId,
        payee: AccountId,
        amount: u128,
        password: Vec<u8>,
        now: BlockNumber,
    ) -> (r: Option<Result<Vec<Effect>, WalletLessError>>)
        ensures
            r is None <==> old(self).delegated_signer == Some(caller)
                && !can_lock_payment(*old(payment), signer, payee, amount),
            r is None ==> same_payment_state(*final(payment), *old(payment))
                && final(self).payment_call_mem_pool@ == old(self).payment_call_mem_pool@
                && final(self).delegated_signer == old(self).delegated_signer
                && final(self).track_accounts@ == old(self).track_accounts@,
            r matches Some(x) ==> placed_vane_pay_outcome(
                *final(self),
                *old(self),
                *final(payment),
                *old(payment),
                caller,
                signer,
                payee,
                amount,
                password,
                now,
                x,
            ),
    {
        let delegated = match self.delegated_signer {
            Some(d) => account_eq(&caller, &d),
            None => false,
        };
        if delegated && !payment.can_lock_payment(&signer, &payee, amount) {
            return None;
        }
        Some(self.place_vane_pay(payment, caller, signer, payee, amount, password, now))
    }

    /// `caller` places a confirmation by `signer` of the payment with
    /// reference number `reference` under `password`; `who` is `2` for the
    /// payer and any other code for the payee. Only the delegated signer may
    /// (with none delegated, nobody may); where the confirmation is refused the whole call fails with
    /// `CallDispatchFailed` and nothing is kept.
    pub fn place_vane_confirm(
        &mut self,
        payment: &mut PaymentState,
        caller: AccountId,
        signer: AccountId,
        reference: Vec<u8>,
        who: u8,
        password: Vec<u8>,
        now: BlockNumber,
    ) -> (r: Result<Vec<Effect>, WalletLessError>)
        ensures
            old(self).delegated_signer != Some(caller) ==> {
                &&& r == Err::<Vec<Effect>, WalletLessError>(WalletLessError::UnAuthorized)
                &&& final(self).payment_call_mem_pool@ == old(self).payment_call_mem_pool@
                &&& same_payment_state(*final(payment), *old(payment))
            },
            old(self).delegated_signer == Some(caller) ==> exists|inner: Result<Vec<Effect>, PaymentError>| {
                &&& confirm_outcome(*final(payment), *old(payment), signer, confirm_of(who), reference, now, inner)
                &&& inner is Err ==> {
                    &&& r == Err::<Vec<Effect>, WalletLessError>(WalletLessError::CallDispatchFailed)
                    &&& final(self).payment_call_mem_pool@ == old(self).payment_call_mem_pool@
                }
                &&& inner is Ok ==> {
                    &&& r == Ok::<Vec<Effect>, WalletLessError>(inner->Ok_0)
                    &&& final(self).payment_call_mem_pool@ == old(self).payment_call_mem_pool@.insert(
                        password@,
                        final(self).payment_call_mem_pool@[password@],
                    )
                    &&& final(self).payment_call_mem_pool@[password@]@.drop_last()
                        == seq_at(old(self).payment_call_mem_pool@, password@)
                    &&& final(self).payment_call_mem_pool@[password@]@.len()
                        == seq_at(old(self).payment_call_mem_pool@, password@).len() + 1
                    &&& final(self).payment_call_mem_pool@[password@]@.last() matches PaymentCalls::ConfirmPay {
                        signer: s,
                        who: w,
                        reference: rf,
                    } && s == signer && w == confirm_of(who) && rf@ == reference@
                }
            },
            final(self).delegated_signer == old(self).delegated_signer,
            final(self).track_accounts@ == old(self).track_accounts@,
    {
        let d_signer = match self.delegated_signer {
            Some(d) => d,
            None => { return Err(WalletLessError::UnAuthorized); }
        };
        if !account_eq(&caller, &d_signer) {
            return Err(WalletLessError::UnAuthorized);
        }
        let confirm = if who == 1 {
            Confirm::Payee
        } else if who == 2 {
            Confirm::Payer
        } else {
            Confirm::Payee
        };
        let call = PaymentCalls::ConfirmPay { signer, who: confirm, reference: to_vec(reference.as_slice()) };
        let ghost reference_v = reference;
        let inner = payment.confirm_pay(signer, confirm, reference, now);
        match inner {
            Ok(effects) => {
                push_to_list(&mut self.payment_call_mem_pool, password, call);
                proof {
                    let m = self.payment_call_mem_pool@;
                    assert(m =~= old(self).payment_call_mem_pool@.insert(password@, m[password@]));
                    assert(m[password@]@.drop_last() =~= seq_at(old(self).payment_call_mem_pool@, password@));
                }
                Ok(effects)
            }
            Err(_) => {
                proof {
                    crate::payment_laws::law_refused_confirmation_changes_nothing(
                        *payment, *old(payment), signer, confirm, reference_v, now, inner);
                }
                Err(WalletLessError::CallDispatchFailed)
            }
        }
    }

    /// A revert placed on a user's behalf: it does nothing.
    pub fn place_vane_revert(&mut self, signer: AccountId) -> (r: Result<(), WalletLessError>)
        ensures
            r is Ok,
            final(self).payment_call_mem_pool@ == old(self).payment_call_mem_pool@,
            final(self).delegated_signer == old(self).delegated_signer,
            final(self).track_accounts@ == old(self).track_accounts@,
    {
        Ok(())
    }
}

} // verus!
