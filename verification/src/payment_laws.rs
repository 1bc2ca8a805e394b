//! What holds of the payment pallet across calls.
use vstd::prelude::*;
use crate::byte_map::seq_at;
use crate::bytes::{AccountId, BlockNumber};
use crate::crypto::blake2_256_spec;
use crate::effects::{Effect, Token};
use crate::payment::{
    Confirm, PaymentError, PaymentState, confirm_outcome, order_payment_locked, pay_multi, pay_reference,
    payment_locked, plain_signers, same_payment_state,
};
use crate::receipt::{first_receipt_for, law_payee_receipts_stay_one_per_multi, no_receipt_for, one_receipt_per_multi};

verus! {

/// A payment locked from `payer` to a different `payee`, under a reference
/// number that nobody had confirmed yet, is released once the payee confirms
/// as payee and then the payer confirms: both confirmations succeed, the two
/// are recorded as its confirmers in that order, and the second asks the
/// runtime to move the whole balance of their multi-signature account to the
/// payee.
pub proof fn law_locked_payment_released_after_both_confirm(
    s0: PaymentState,
    s1: PaymentState,
    s2: PaymentState,
    s3: PaymentState,
    payer: AccountId,
    payee: AccountId,
    amount: u128,
    currency: Option<Token>,
    reference_no: Vec<u8>,
    who: Confirm,
    t2: BlockNumber,
    t3: BlockNumber,
    r2: Result<Vec<Effect>, PaymentError>,
    r3: Result<Vec<Effect>, PaymentError>,
)
    requires
        payer != payee,
        seq_at(s0.confirmed_signers@, pay_reference(payer, payee)).len() == 0,
        payment_locked(s1, s0, payer, payee, amount, currency),
        reference_no@ == pay_reference(payer, payee),
        confirm_outcome(s2, s1, payee, Confirm::Payee, reference_no, t2, r2),
        confirm_outcome(s3, s2, payer, who, reference_no, t3, r3),
    ensures
        r2 is Ok,
        r3 is Ok,
        s3.confirmed_signers@[reference_no@]@ == seq![payee, payer],
        r3->Ok_0@[1] matches Effect::TransferAll { from, to, keep_alive }
            && from@ == pay_multi(payer, payee) && to == payee && !keep_alive,
{
    let key = payer@ + reference_no@;
    assert(s1.allowed_signers@.dom().contains(key));
    assert(s1.allowed_signers@[key] == plain_signers(payee, payer));
    assert(seq_at(s2.confirmed_signers@, reference_no@) =~= seq![payee]);
    assert(s2.allowed_signers@ == s1.allowed_signers@);
}

/// An order payment locked from `payer` to a different `payee`, under a
/// reference number that nobody had confirmed yet, is released by the same
/// two confirmations as any payment: the payee's, then the payer's, which asks
/// the runtime to move the whole balance of their multi-signature account to
/// the payee.
pub proof fn law_order_payment_released_after_both_confirm(
    s0: PaymentState,
    s1: PaymentState,
    s2: PaymentState,
    s3: PaymentState,
    payer: AccountId,
    payee: AccountId,
    amount: u128,
    reference_no: Vec<u8>,
    who: Confirm,
    t2: BlockNumber,
    t3: BlockNumber,
    r2: Result<Vec<Effect>, PaymentError>,
    r3: Result<Vec<Effect>, PaymentError>,
)
    requires
        payer != payee,
        seq_at(s0.confirmed_signers@, pay_reference(payer, payee)).len() == 0,
        order_payment_locked(s1, s0, payer, payee, amount),
        reference_no@ == pay_reference(payer, payee),
        confirm_outcome(s2, s1, payee, Confirm::Payee, reference_no, t2, r2),
        confirm_outcome(s3, s2, payer, who, reference_no, t3, r3),
    ensures
        r2 is Ok,
        r3 is Ok,
        s3.confirmed_signers@[reference_no@]@ == seq![payee, payer],
        r3->Ok_0@[1] matches Effect::TransferAll { from, to, keep_alive }
            && from@ == pay_multi(payer, payee) && to == payee && !keep_alive,
{
    let key = payer@ + reference_no@;
    assert(s1.allowed_signers@.dom().contains(key));
    assert(s1.allowed_signers@[key] == plain_signers(payee, payer));
    assert(seq_at(s2.confirmed_signers@, reference_no@) =~= seq![payee]);
    assert(s2.allowed_signers@ == s1.allowed_signers@);
}

/// A confirmation that is refused leaves the storage as it was.
pub proof fn law_refused_confirmation_changes_nothing(
    new: PaymentState,
    old: PaymentState,
    user: AccountId,
    who: Confirm,
    reference_no: Vec<u8>,
    now: BlockNumber,
    r: Result<Vec<Effect>, PaymentError>,
)
    requires
        confirm_outcome(new, old, user, who, reference_no, now, r),
        r is Err,
    ensures
        same_payment_state(new, old),
{
}

/// No payment ever has more than two confirmers, and whoever confirmed a
/// payment first stays its first confirmer.
pub proof fn law_confirmers_bounded_and_first_kept(
    new: PaymentState,
    old: PaymentState,
    user: AccountId,
    who: Confirm,
    reference_no: Vec<u8>,
    now: BlockNumber,
    r: Result<Vec<Effect>, PaymentError>,
)
    requires
        confirm_outcome(new, old, user, who, reference_no, now, r),
        forall|k: Seq<u8>| #[trigger] old.confirmed_signers@.dom().contains(k)
            ==> old.confirmed_signers@[k]@.len() <= 2,
    ensures
        forall|k: Seq<u8>| #[trigger] new.confirmed_signers@.dom().contains(k)
            ==> new.confirmed_signers@[k]@.len() <= 2,
        forall|k: Seq<u8>| #[trigger] seq_at(old.confirmed_signers@, k).len() > 0
            ==> seq_at(new.confirmed_signers@, k).len() > 0
                && seq_at(new.confirmed_signers@, k)[0] == seq_at(old.confirmed_signers@, k)[0],
{
}

/// Two payments of `a1` and then `a2` from `payer` to `payee`, where the
/// payee had no receipt for their multi-signature account yet, leave the
/// payee one receipt for that account, at the end of the list, with a total
/// of `a1 + a2` and only the second payment in its list of transactions; the
/// payer's receipt for the payee, new with the first payment, likewise holds
/// `a1 + a2` and only the second payment.
pub proof fn law_payments_accumulate_in_payee_receipt(
    s0: PaymentState,
    s1: PaymentState,
    s2: PaymentState,
    payer: AccountId,
    payee: AccountId,
    a1: u128,
    a2: u128,
    currency: Option<Token>,
)
    requires
        no_receipt_for(seq_at(s0.payee_txn_receipt@, payee@), pay_multi(payer, payee)),
        !s0.payer_txn_receipt@.dom().contains(payer@ + payee@),
        payment_locked(s1, s0, payer, payee, a1, currency),
        payment_locked(s2, s1, payer, payee, a2, currency),
    ensures
        ({
            let i = seq_at(s0.payee_txn_receipt@, payee@).len() as int;
            let v = s2.payee_txn_receipt@[payee@]@;
            &&& first_receipt_for(v, pay_multi(payer, payee), i)
            &&& v.len() == i + 1
            &&& v[i].amount == a1 + a2
            &&& v[i].no_txn@ == seq![a2]
            &&& s2.payer_txn_receipt@[payer@ + payee@].amount == a1 + a2
            &&& s2.payer_txn_receipt@[payer@ + payee@].no_txn@ == seq![a2]
        }),
{
    let m = pay_multi(payer, payee);
    let i = seq_at(s0.payee_txn_receipt@, payee@).len() as int;
    let v1 = s1.payee_txn_receipt@[payee@]@;
    assert(seq_at(s1.payee_txn_receipt@, payee@) == v1);
    assert(first_receipt_for(v1, m, i));
    assert(v1[i].no_txn@ == Seq::<u128>::empty());
    assert(seq![a2] =~= Seq::<u128>::empty().push(a2));
}

/// Where every payee's receipts hold at most one receipt per
/// multi-signature account, they still do after a payment is locked.
pub proof fn law_payment_keeps_one_receipt_per_multi(
    s0: PaymentState,
    s1: PaymentState,
    payer: AccountId,
    payee: AccountId,
    amount: u128,
    currency: Option<Token>,
)
    requires
        forall|k: Seq<u8>| #[trigger] s0.payee_txn_receipt@.dom().contains(k)
            ==> one_receipt_per_multi(s0.payee_txn_receipt@[k]@),
        payment_locked(s1, s0, payer, payee, amount, currency),
    ensures
        forall|k: Seq<u8>| #[trigger] s1.payee_txn_receipt@.dom().contains(k)
            ==> one_receipt_per_multi(s1.payee_txn_receipt@[k]@),
{
    let old_list = seq_at(s0.payee_txn_receipt@, payee@);
    assert(one_receipt_per_multi(old_list));
    law_payee_receipts_stay_one_per_multi(
        s1.payee_txn_receipt@[payee@]@,
        old_list,
        payee,
        payer,
        pay_multi(payer, payee),
        pay_reference(payer, payee),
        amount,
        currency,
    );
}

/// The multi-signature account of a payment from `payer` to `payee` is the
/// BLAKE2b-256 digest of the salt `vane/salt`, the payee and the payer; its
/// reference number is bytes 20 to 25 of the digest of the digests of the
/// payer, the payee and that account. The bytes hashed for the account tell
/// every pair of parties apart: two payments between different (payer,
/// payee) pairs hash different bytes.
pub proof fn law_payment_account_and_reference_hash_both_parties(
    payer: AccountId,
    payee: AccountId,
    other_payer: AccountId,
    other_payee: AccountId,
)
    ensures
        pay_multi(payer, payee) == blake2_256_spec(seq![118u8, 97u8, 110u8, 101u8, 47u8, 115u8, 97u8, 108u8, 116u8] + payee@ + payer@),
        pay_reference(payer, payee) == blake2_256_spec(
            blake2_256_spec(payer@) + blake2_256_spec(payee@) + blake2_256_spec(pay_multi(payer, payee)),
        ).subrange(20, 26),
        payer != other_payer || payee != other_payee ==> seq![118u8, 97u8, 110u8, 101u8, 47u8, 115u8, 97u8, 108u8, 116u8] + payee@ + payer@ != seq![118u8, 97u8, 110u8, 101u8, 47u8, 115u8, 97u8, 108u8, 116u8] + other_payee@
            + other_payer@,
{
    let x = seq![118u8, 97u8, 110u8, 101u8, 47u8, 115u8, 97u8, 108u8, 116u8] + payee@ + payer@;
    let y = seq![118u8, 97u8, 110u8, 101u8, 47u8, 115u8, 97u8, 108u8, 116u8] + other_payee@ + other_payer@;
    if x == y {
        assert(payee@ =~= x.subrange(9, 41));
        assert(other_payee@ =~= y.subrange(9, 41));
        assert(payer@ =~= x.subrange(41, 73));
        assert(other_payer@ =~= y.subrange(41, 73));
        assert(payee == other_payee);
        assert(payer == other_payer);
    }
}

/// Locking a payment from `payer` to `payee` changes the allowed signers
/// under one key only: the payer followed by the reference number of that
/// payment. The signers allowed for every other payment stay as they were.
pub proof fn law_locking_leaves_other_payments_signers(
    s0: PaymentState,
    s1: PaymentState,
    payer: AccountId,
    payee: AccountId,
    amount: u128,
    currency: Option<Token>,
    key: Seq<u8>,
)
    requires
        payment_locked(s1, s0, payer, payee, amount, currency),
        key != payer@ + pay_reference(payer, payee),
    ensures
        s1.allowed_signers@.dom().contains(key) == s0.allowed_signers@.dom().contains(key),
        s0.allowed_signers@.dom().contains(key) ==> s1.allowed_signers@[key] == s0.allowed_signers@[key],
        s1.allowed_signers@[payer@ + pay_reference(payer, payee)] == plain_signers(payee, payer),
{
}

/// A payment that already has two or more confirmers is never released
/// again: every further confirmation is refused and changes nothing; one by
/// anybody but the first confirmer is refused with `ExceededSigners`.
pub proof fn law_confirmed_payment_not_released_again(
    new: PaymentState,
    old: PaymentState,
    user: AccountId,
    who: Confirm,
    reference_no: Vec<u8>,
    now: BlockNumber,
    r: Result<Vec<Effect>, PaymentError>,
)
    requires
        confirm_outcome(new, old, user, who, reference_no, now, r),
        seq_at(old.confirmed_signers@, reference_no@).len() >= 2,
    ensures
        r is Err,
        same_payment_state(new, old),
        user != seq_at(old.confirmed_signers@, reference_no@)[0]
            ==> r == Err::<Vec<Effect>, PaymentError>(PaymentError::ExceededSigners),
{
}

} // verus!
