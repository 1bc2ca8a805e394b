//! What holds of the cross-chain payment pallets across calls.
use vstd::prelude::*;
use crate::byte_map::seq_at;
use crate::crypto::blake2_256_spec;
use crate::bytes::{AccountId, BlockNumber};
use crate::effects::{CurrencyId, Effect, RelayMessage, Token};
use crate::payment::{Confirm, PaymentError, PaymentState, pay_multi, pay_reference, payment_locked, plain_signers, same_payment_state};
use crate::receipt::{first_receipt_for, law_payee_receipts_stay_one_per_multi, no_receipt_for, one_receipt_per_multi};
use crate::signers::PairSigners;
use crate::transfer_system::{
    RELAY_FEE, TransferSystemState, same_transfer_state, transfer_confirm_outcome, transfer_multi,
    transfer_recorded, transfer_reference, transfer_storage_recorded,
};
use crate::xcm::{RELAY_TRANSFER_AMOUNT, XcmError, xcm_confirm_outcome};

verus! {

/// A cross-chain payment in DOT locked from `payer` to a different `payee`,
/// under a reference number that nobody had confirmed yet, is released once
/// the payee confirms as payee and then the payer confirms: both
/// confirmations succeed, the two are recorded as its confirmers in that
/// order, and the second burns what it names in the pair's multi-signature
/// account and sends the payee funds on the relay chain.
pub proof fn law_xcm_payment_released_after_both_confirm(
    s0: PaymentState,
    s1: PaymentState,
    s2: PaymentState,
    s3: PaymentState,
    para_account: Option<AccountId>,
    payer: AccountId,
    payee: AccountId,
    amount: u128,
    reference_no: Vec<u8>,
    who: Confirm,
    a2: u128,
    a3: u128,
    asset: CurrencyId,
    t2: BlockNumber,
    t3: BlockNumber,
    r2: Result<Vec<Effect>, XcmError>,
    r3: Result<Vec<Effect>, XcmError>,
)
    requires
        payer != payee,
        para_account is Some,
        seq_at(s0.confirmed_signers@, pay_reference(payer, payee)).len() == 0,
        payment_locked(s1, s0, payer, payee, amount, Some(Token::DOT)),
        reference_no@ == pay_reference(payer, payee),
        xcm_confirm_outcome(s2, s1, para_account, payee, Confirm::Payee, reference_no, a2, asset, t2, r2),
        xcm_confirm_outcome(s3, s2, para_account, payer, who, reference_no, a3, asset, t3, r3),
    ensures
        r2 is Ok,
        r3 is Ok,
        s3.confirmed_signers@[reference_no@]@ == seq![payee, payer],
        (r3->Ok_0@[1] matches Effect::BurnAsset { asset: x, who: w, amount: y, .. }
            && x == asset && w@ == pay_multi(payer, payee) && y == a3),
        r3->Ok_0@[2] == (Effect::SendToRelay {
            message: RelayMessage::TransferAsset { amount: RELAY_TRANSFER_AMOUNT, beneficiary: payee },
        }),
{
    let key = payer@ + reference_no@;
    assert(s1.allowed_signers@.dom().contains(key));
    assert(s1.allowed_signers@[key] == plain_signers(payee, payer));
    assert(seq_at(s2.confirmed_signers@, reference_no@) =~= seq![payee]);
    assert(s2.allowed_signers@ == s1.allowed_signers@);
}

/// A confirmation of a cross-chain payment that is refused leaves the payment
/// storage as it was.
pub proof fn law_refused_xcm_confirmation_changes_nothing(
    new: PaymentState,
    old: PaymentState,
    para_account: Option<AccountId>,
    user: AccountId,
    who: Confirm,
    reference_no: Vec<u8>,
    amount: u128,
    asset: CurrencyId,
    now: BlockNumber,
    r: Result<Vec<Effect>, XcmError>,
)
    requires
        xcm_confirm_outcome(new, old, para_account, user, who, reference_no, amount, asset, now, r),
        r is Err,
    ensures
        same_payment_state(new, old),
{
}

/// A transfer from `from` to a different `to`, under a reference number that
/// nobody had confirmed yet, is released once `to` confirms as payee and then
/// `from` confirms: both confirmations succeed, the two are recorded as its
/// confirmers in that order, and the second burns what it names in the
/// pair's multi-signature account and asks the relay chain to pay `to` that
/// amount less the relay fee.
pub proof fn law_transfer_released_after_both_confirm(
    s0: TransferSystemState,
    s1: TransferSystemState,
    s2: TransferSystemState,
    s3: TransferSystemState,
    currency: CurrencyId,
    from: AccountId,
    to: AccountId,
    amount: u128,
    t1: BlockNumber,
    r1: Result<Vec<Effect>, XcmError>,
    reference_no: Vec<u8>,
    who: Confirm,
    a2: u128,
    a3: u128,
    asset: CurrencyId,
    t2: BlockNumber,
    t3: BlockNumber,
    r2: Result<Vec<Effect>, XcmError>,
    r3: Result<Vec<Effect>, XcmError>,
)
    requires
        from != to,
        s0.para_account is Some,
        seq_at(s0.confirmed_signers@, transfer_reference(from, to)).len() == 0,
        transfer_recorded(s1, s0, currency, from, to, amount, t1, r1),
        reference_no@ == transfer_reference(from, to),
        transfer_confirm_outcome(s2, s1, to, Confirm::Payee, reference_no, a2, asset, t2, r2),
        transfer_confirm_outcome(s3, s2, from, who, reference_no, a3, asset, t3, r3),
        a3 >= RELAY_FEE,
    ensures
        r1 is Ok,
        r2 is Ok,
        r3 is Ok,
        s3.confirmed_signers@[reference_no@]@ == seq![to, from],
        (r3->Ok_0@[1] matches Effect::BurnAsset { asset: x, who: w, amount: y, .. }
            && x == asset && w@ == transfer_multi(from, to) && y == a3),
        r3->Ok_0@[2] == (Effect::SendToRelay {
            message: RelayMessage::WithdrawBuyDeposit { amount: (a3 - RELAY_FEE) as u128, beneficiary: to },
        }),
{
    let key = from@ + reference_no@;
    assert(s1.allowed_signers@.dom().contains(key));
    assert(s1.allowed_signers@[key] == PairSigners { payee: to, payer: from });
    assert(seq_at(s1.confirmed_signers@, reference_no@) =~= seq_at(s0.confirmed_signers@, reference_no@));
    assert(seq_at(s2.confirmed_signers@, reference_no@) =~= seq![to]);
    assert(s2.allowed_signers@ == s1.allowed_signers@);
}

/// A confirmation of a transfer that is refused leaves the storage as it was.
pub proof fn law_refused_transfer_confirmation_changes_nothing(
    new: TransferSystemState,
    old: TransferSystemState,
    user: AccountId,
    who: Confirm,
    reference_no: Vec<u8>,
    amount: u128,
    asset: CurrencyId,
    now: BlockNumber,
    r: Result<Vec<Effect>, XcmError>,
)
    requires
        transfer_confirm_outcome(new, old, user, who, reference_no, amount, asset, now, r),
        r is Err,
    ensures
        same_transfer_state(new, old),
{
}

/// No transfer ever has more than two confirmers, and whoever confirmed a
/// transfer first stays its first confirmer.
pub proof fn law_transfer_confirmers_bounded_and_first_kept(
    new: TransferSystemState,
    old: TransferSystemState,
    user: AccountId,
    who: Confirm,
    reference_no: Vec<u8>,
    amount: u128,
    asset: CurrencyId,
    now: BlockNumber,
    r: Result<Vec<Effect>, XcmError>,
)
    requires
        transfer_confirm_outcome(new, old, user, who, reference_no, amount, asset, now, r),
        forall|k: Seq<u8>| #[trigger] old.confirmed_signers@.dom().contains(k)
            ==> old.confirmed_signers@[k]@.len() <= 2,
    ensures
        forall|k: Seq<u8>| #[trigger] new.confirmed_signers@.dom().contains(k)
            ==> new.confirmed_signers@[k]@.len() <= 2,
        forall|k: Seq<u8>| #[trigger] seq_at(old.confirmed_signers@, k).len() > 0
            ==> seq_at(new.confirmed_signers@, k).len() > 0
                && seq_at(new.confirmed_signers@, k)[0] == seq_at(old.confirmed_signers@, k)[0],
{
}

/// No cross-chain payment ever has more than two confirmers, and whoever
/// confirmed one first stays its first confirmer.
pub proof fn law_xcm_confirmers_bounded_and_first_kept(
    new: PaymentState,
    old: PaymentState,
    para_account: Option<AccountId>,
    user: AccountId,
    who: Confirm,
    reference_no: Vec<u8>,
    amount: u128,
    asset: CurrencyId,
    now: BlockNumber,
    r: Result<Vec<Effect>, XcmError>,
)
    requires
        xcm_confirm_outcome(new, old, para_account, user, who, reference_no, amount, asset, now, r),
        forall|k: Seq<u8>| #[trigger] old.confirmed_signers@.dom().contains(k)
            ==> old.confirmed_signers@[k]@.len() <= 2,
    ensures
        forall|k: Seq<u8>| #[trigger] new.confirmed_signers@.dom().contains(k)
            ==> new.confirmed_signers@[k]@.len() <= 2,
        forall|k: Seq<u8>| #[trigger] seq_at(old.confirmed_signers@, k).len() > 0
            ==> seq_at(new.confirmed_signers@, k).len() > 0
                && seq_at(new.confirmed_signers@, k)[0] == seq_at(old.confirmed_signers@, k)[0],
{
}

/// Two transfers of `a1` and then `a2` from `from` to `to`, where `to` had no
/// receipt for their multi-signature account yet, leave `to` one receipt for
/// that account, at the end of the list, with a total of `a1 + a2` and only
/// the second transfer in its list of transactions; the payer's receipt for
/// `to`, new with the first transfer, likewise holds `a1 + a2` and only the
/// second transfer.
pub proof fn law_transfers_accumulate_in_payee_receipt(
    s0: TransferSystemState,
    s1: TransferSystemState,
    s2: TransferSystemState,
    currency: CurrencyId,
    from: AccountId,
    to: AccountId,
    a1: u128,
    a2: u128,
    t1: BlockNumber,
    t2: BlockNumber,
    r1: Result<Vec<Effect>, XcmError>,
    r2: Result<Vec<Effect>, XcmError>,
)
    requires
        no_receipt_for(seq_at(s0.payee_txn_receipt@, to@), transfer_multi(from, to)),
        !s0.payer_txn_receipt@.dom().contains(from@ + to@),
        transfer_recorded(s1, s0, currency, from, to, a1, t1, r1),
        transfer_recorded(s2, s1, currency, from, to, a2, t2, r2),
    ensures
        ({
            let i = seq_at(s0.payee_txn_receipt@, to@).len() as int;
            let v = s2.payee_txn_receipt@[to@]@;
            &&& first_receipt_for(v, transfer_multi(from, to), i)
            &&& v.len() == i + 1
            &&& v[i].amount == a1 + a2
            &&& v[i].no_txn@ == seq![a2]
            &&& s2.payer_txn_receipt@[from@ + to@].amount == a1 + a2
            &&& s2.payer_txn_receipt@[from@ + to@].no_txn@ == seq![a2]
        }),
{
    let m = transfer_multi(from, to);
    let i = seq_at(s0.payee_txn_receipt@, to@).len() as int;
    let v1 = s1.payee_txn_receipt@[to@]@;
    assert(seq_at(s1.payee_txn_receipt@, to@) == v1);
    assert(first_receipt_for(v1, m, i));
    assert(v1[i].no_txn@ == Seq::<u128>::empty());
    assert(seq![a2] =~= Seq::<u128>::empty().push(a2));
}

/// Where every payee's receipts in the transfer system hold at most one
/// receipt per multi-signature account, they still do after a transfer is
/// recorded (by the transactor or by a cross-chain payment).
pub proof fn law_transfer_keeps_one_receipt_per_multi(
    s0: TransferSystemState,
    s1: TransferSystemState,
    currency: CurrencyId,
    from: AccountId,
    to: AccountId,
    amount: u128,
)
    requires
        forall|k: Seq<u8>| #[trigger] s0.payee_txn_receipt@.dom().contains(k)
            ==> one_receipt_per_multi(s0.payee_txn_receipt@[k]@),
        transfer_storage_recorded(s1, s0, currency, from, to, amount),
    ensures
        forall|k: Seq<u8>| #[trigger] s1.payee_txn_receipt@.dom().contains(k)
            ==> one_receipt_per_multi(s1.payee_txn_receipt@[k]@),
{
    let old_list = seq_at(s0.payee_txn_receipt@, to@);
    assert(one_receipt_per_multi(old_list));
    law_payee_receipts_stay_one_per_multi(
        s1.payee_txn_receipt@[to@]@,
        old_list,
        to,
        from,
        transfer_multi(from, to),
        transfer_reference(from, to),
        amount,
        currency,
    );
}

/// The multi-signature account of a transfer from `from` to `to` is the
/// BLAKE2b-256 digest of the salt `vane/salt`, the payer and the payee, in that
/// order; its reference number is bytes 20 to 25 of the digest of the digests
/// of the payer, the payee and that account. The bytes hashed for the account
/// tell every pair of parties apart: transfers between different (payer,
/// payee) pairs hash different bytes.
pub proof fn law_transfer_account_hashes_salt_payer_payee(
    from: AccountId,
    to: AccountId,
    other_from: AccountId,
    other_to: AccountId,
)
    ensures
        transfer_multi(from, to) == blake2_256_spec(seq![118u8, 97u8, 110u8, 101u8, 47u8, 115u8, 97u8, 108u8, 116u8] + from@ + to@),
        transfer_reference(from, to) == blake2_256_spec(
            blake2_256_spec(from@) + blake2_256_spec(to@) + blake2_256_spec(transfer_multi(from, to)),
        ).subrange(20, 26),
        from != other_from || to != other_to ==> seq![118u8, 97u8, 110u8, 101u8, 47u8, 115u8, 97u8, 108u8, 116u8] + from@ + to@ != seq![118u8, 97u8, 110u8, 101u8, 47u8, 115u8, 97u8, 108u8, 116u8] + other_from@ + other_to@,
{
    let x = seq![118u8, 97u8, 110u8, 101u8, 47u8, 115u8, 97u8, 108u8, 116u8] + from@ + to@;
    let y = seq![118u8, 97u8, 110u8, 101u8, 47u8, 115u8, 97u8, 108u8, 116u8] + other_from@ + other_to@;
    if x == y {
        assert(from@ =~= x.subrange(9, 41));
        assert(other_from@ =~= y.subrange(9, 41));
        assert(to@ =~= x.subrange(41, 73));
        assert(other_to@ =~= y.subrange(41, 73));
        assert(from == other_from);
        assert(to == other_to);
    }
}

/// A cross-chain payment that already has two or more confirmers is never
/// released again: every further confirmation is refused and changes
/// nothing, so nothing is burnt or sent; one by anybody but the first
/// confirmer is refused with `ExceededSigners`.
pub proof fn law_confirmed_xcm_payment_not_released_again(
    new: PaymentState,
    old: PaymentState,
    para_account: Option<AccountId>,
    user: AccountId,
    who: Confirm,
    reference_no: Vec<u8>,
    amount: u128,
    asset: CurrencyId,
    now: BlockNumber,
    r: Result<Vec<Effect>, XcmError>,
)
    requires
        xcm_confirm_outcome(new, old, para_account, user, who, reference_no, amount, asset, now, r),
        seq_at(old.confirmed_signers@, reference_no@).len() >= 2,
    ensures
        r is Err,
        same_payment_state(new, old),
        user != seq_at(old.confirmed_signers@, reference_no@)[0]
            ==> r == Err::<Vec<Effect>, XcmError>(XcmError::Payment(PaymentError::ExceededSigners)),
{
}

/// A transfer that already has two or more confirmers is never released
/// again: every further confirmation is refused and leaves the storage
/// unchanged, so nothing is burnt or sent; one by anybody but the first
/// confirmer is refused with `ExceededSigners`.
pub proof fn law_confirmed_transfer_not_released_again(
    new: TransferSystemState,
    old: TransferSystemState,
    user: AccountId,
    who: Confirm,
    reference_no: Vec<u8>,
    amount: u128,
    asset: CurrencyId,
    now: BlockNumber,
    r: Result<Vec<Effect>, XcmError>,
)
    requires
        transfer_confirm_outcome(new, old, user, who, reference_no, amount, asset, now, r),
        seq_at(old.confirmed_signers@, reference_no@).len() >= 2,
    ensures
        r is Err,
        same_transfer_state(new, old),
        user != seq_at(old.confirmed_signers@, reference_no@)[0]
            ==> r == Err::<Vec<Effect>, XcmError>(XcmError::Payment(PaymentError::ExceededSigners)),
{
}

} // verus!
