//! Receipts of payments, kept for the payee and for the payer.
use vstd::prelude::*;
use crate::byte_map::{ByteMap, seq_at, take_list};
use crate::bytes::{AccountId, BlockNumber, account_eq, account_key, pair_key, to_vec};
use crate::effects::XcmStatus;

verus! {

/// How many transactions a receipt can count.
pub const MAX_NO_TXNS: usize = 20;

/// A receipt of the payments from a payer to a payee through their
/// multi-signature account; `C` is the kind of currency it names.
#[derive(Debug)]
pub struct TxnReceipt<C> {
    pub payee: AccountId,
    pub payer: AccountId,
    pub multi_id: AccountId,
    pub amount: u128,
    pub reference_no: Vec<u8>,
    pub currency: C,
    pub no_txn: Vec<u128>,
    pub xcm_status: XcmStatus,
}

/// `r` is a new receipt with the given fields: no transaction counted yet,
/// and its transfer still to be confirmed.
pub open spec fn fresh_receipt<C>(
    r: TxnReceipt<C>,
    payee: AccountId,
    payer: AccountId,
    multi_id: Seq<u8>,
    reference_no: Seq<u8>,
    amount: u128,
    currency: C,
) -> bool {
    &&& r.payee == payee
    &&& r.payer == payer
    &&& r.multi_id@ == multi_id
    &&& r.amount == amount
    &&& r.reference_no@ == reference_no
    &&& r.currency == currency
    &&& r.no_txn@ == Seq::<u128>::empty()
    &&& r.xcm_status == XcmStatus::Tbc
}

/// `new` is `old` with one more payment of `amount` counted.
pub open spec fn topped_up<C>(new: TxnReceipt<C>, old: TxnReceipt<C>, amount: u128) -> bool {
    &&& new.payee == old.payee
    &&& new.payer == old.payer
    &&& new.multi_id == old.multi_id
    &&& new.amount == old.amount + amount
    &&& new.reference_no == old.reference_no
    &&& new.currency == old.currency
    &&& new.no_txn@ == old.no_txn@.push(amount)
    &&& new.xcm_status == old.xcm_status
}

/// Receipt `i` is the first in `s` for `multi_id`.
pub open spec fn first_receipt_for<C>(s: Seq<TxnReceipt<C>>, multi_id: Seq<u8>, i: int) -> bool {
    &&& 0 <= i < s.len()
    &&& s[i].multi_id@ == multi_id
    &&& forall|j: int| 0 <= j < i ==> s[j].multi_id@ != multi_id
}

/// No receipt in `s` is for `multi_id`.
pub open spec fn no_receipt_for<C>(s: Seq<TxnReceipt<C>>, multi_id: Seq<u8>) -> bool {
    forall|j: int| 0 <= j < s.len() ==> s[j].multi_id@ != multi_id
}

/// Counting one more payment of `amount` in the first receipt of `s` for
/// `multi_id` neither overflows its list of transactions nor its total.
pub open spec fn can_top_up<C>(s: Seq<TxnReceipt<C>>, multi_id: Seq<u8>, amount: u128) -> bool {
    forall|i: int| #[trigger] first_receipt_for(s, multi_id, i)
        ==> s[i].no_txn@.len() < MAX_NO_TXNS && s[i].amount + amount <= u128::MAX
}

/// Counting one more payment of `amount` in the payer's receipt stored under
/// `key` in `m`, if there is one, neither overflows its list of transactions
/// nor its total.
pub open spec fn can_top_up_payer<C>(m: Map<Seq<u8>, TxnReceipt<C>>, key: Seq<u8>, amount: u128) -> bool {
    m.dom().contains(key) ==> m[key].no_txn@.len() < MAX_NO_TXNS && m[key].amount + amount <= u128::MAX
}

/// No two receipts in `s` are for the same multi-signature account.
pub open spec fn one_receipt_per_multi<C>(s: Seq<TxnReceipt<C>>) -> bool {
    forall|i: int, j: int| 0 <= i < j < s.len() ==> s[i].multi_id@ != s[j].multi_id@
}

/// The payee's receipts `new` after a payment of `amount` through `multi_id`:
/// the first receipt for `multi_id` counts it, or, with none, a fresh receipt
/// is added at the end.
pub open spec fn payee_receipts_after<C>(
    new: Seq<TxnReceipt<C>>,
    old: Seq<TxnReceipt<C>>,
    payee: AccountId,
    payer: AccountId,
    multi_id: Seq<u8>,
    reference_no: Seq<u8>,
    amount: u128,
    currency: C,
) -> bool {
    &&& forall|i: int| #[trigger] first_receipt_for(old, multi_id, i) ==> {
        &&& new.len() == old.len()
        &&& topped_up(new[i], old[i], amount)
        &&& forall|j: int| 0 <= j < old.len() && j != i ==> new[j] == old[j]
    }
    &&& no_receipt_for(old, multi_id) ==> {
        &&& new.len() == old.len() + 1
        &&& forall|j: int| 0 <= j < old.len() ==> new[j] == old[j]
        &&& fresh_receipt(new[old.len() as int], payee, payer, multi_id, reference_no, amount, currency)
    }
}

impl<C: Copy> TxnReceipt<C> {
    /// A new receipt. Its list of transactions starts empty: the transaction
    /// given here is not counted.
    pub fn new(
        payee: AccountId,
        payer: AccountId,
        multi_id: AccountId,
        ref_no: Vec<u8>,
        amount: u128,
        txn: u128,
        currency: C,
    ) -> (r: Self)
        ensures
            fresh_receipt(r, payee, payer, multi_id@, ref_no@, amount, currency),
            r.reference_no == ref_no,
    {
        let no_txn: Vec<u128> = Vec::new();
        TxnReceipt {
            payee,
            payer,
            reference_no: ref_no,
            amount,
            currency,
            no_txn,
            xcm_status: XcmStatus::Tbc,
            multi_id,
        }
    }

    /// Counts one more transaction of `txn`.
    pub fn update_txn(&mut self, txn: u128)
        requires
            old(self).no_txn@.len() < MAX_NO_TXNS,
        ensures
            final(self).no_txn@ == old(self).no_txn@.push(txn),
            final(self).payee == old(self).payee,
            final(self).payer == old(self).payer,
            final(self).multi_id == old(self).multi_id,
            final(self).amount == old(self).amount,
            final(self).reference_no == old(self).reference_no,
            final(self).currency == old(self).currency,
            final(self).xcm_status == old(self).xcm_status,
    {
        self.no_txn.push(txn);
    }

    /// Adds `amount` to the total.
    pub fn update_amount(&mut self, amount: u128)
        requires
            old(self).amount + amount <= u128::MAX,
        ensures
            final(self).amount == old(self).amount + amount,
            final(self).payee == old(self).payee,
            final(self).payer == old(self).payer,
            final(self).multi_id == old(self).multi_id,
            final(self).reference_no == old(self).reference_no,
            final(self).currency == old(self).currency,
            final(self).no_txn == old(self).no_txn,
            final(self).xcm_status == old(self).xcm_status,
    {
        self.amount = self.amount + amount;
    }
}

/// The position of the first receipt in `v` for `multi_id`, if there is one.
pub fn position_of_receipt<C>(v: &Vec<TxnReceipt<C>>, multi_id: &AccountId) -> (r: Option<usize>)
    ensures
        match r {
            Some(i) => first_receipt_for(v@, multi_id@, i as int),
            None => no_receipt_for(v@, multi_id@),
        },
{
    let n = v.len();
    let mut i: usize = 0;
    while i < n
        invariant
            n == v@.len(),
            i <= n,
            forall|j: int| 0 <= j < i ==> v@[j].multi_id@ != multi_id@,
        decreases n - i,
    {
        if account_eq(&v[i].multi_id, multi_id) {
            return Some(i);
        }
        i = i + 1;
    }
    None
}

/// Whether `record_receipts` can count a payment of `amount` through
/// `multi_id` in the receipts of `payee` without overflowing.
pub fn can_record_payee_receipt<C>(
    payee_receipts: &ByteMap<Vec<TxnReceipt<C>>>,
    payee: &AccountId,
    multi_id: &AccountId,
    amount: u128,
) -> (r: bool)
    ensures
        r == can_top_up(seq_at(payee_receipts@, payee@), multi_id@, amount),
{
    let key = account_key(payee);
    match payee_receipts.get(key.as_slice()) {
        Some(v) => match position_of_receipt(v, multi_id) {
            Some(i) => {
                let ok = v[i].no_txn.len() < MAX_NO_TXNS && v[i].amount <= u128::MAX - amount;
                proof {
                    assert forall|k: int| #[trigger] first_receipt_for(v@, multi_id@, k)
                        implies k == i as int by {
                        if k < i as int {
                            assert(v@[k].multi_id@ != multi_id@);
                        } else if k > i as int {
                            assert(v@[i as int].multi_id@ != multi_id@);
                        }
                    }
                }
                ok
            }
            None => true,
        },
        None => true,
    }
}

/// Records a payment of `amount` from `payer` to `payee` through `multi_id`:
/// the payee's first receipt for `multi_id` counts it (or a fresh receipt is
/// added), and the payer's receipt for the payee counts it too (or a fresh
/// receipt is stored).
pub fn record_receipts<C: Copy>(
    payee_receipts: &mut ByteMap<Vec<TxnReceipt<C>>>,
    payer_receipts: &mut ByteMap<TxnReceipt<C>>,
    payee: &AccountId,
    payer: &AccountId,
    multi_id: &AccountId,
    reference_no: &[u8],
    amount: u128,
    currency: C,
)
    requires
        can_top_up(seq_at(old(payee_receipts)@, payee@), multi_id@, amount),
        can_top_up_payer(old(payer_receipts)@, payer@ + payee@, amount),
    ensures
        final(payee_receipts)@ == old(payee_receipts)@.insert(payee@, final(payee_receipts)@[payee@]),
        payee_receipts_after(
            final(payee_receipts)@[payee@]@,
            seq_at(old(payee_receipts)@, payee@),
            *payee,
            *payer,
            multi_id@,
            reference_no@,
            amount,
            currency,
        ),
        old(payer_receipts)@.dom().contains(payer@ + payee@) ==> {
            &&& final(payer_receipts)@ == old(payer_receipts)@.insert(
                payer@ + payee@,
                final(payer_receipts)@[payer@ + payee@],
            )
            &&& topped_up(final(payer_receipts)@[payer@ + payee@], old(payer_receipts)@[payer@ + payee@], amount)
        },
        !old(payer_receipts)@.dom().contains(payer@ + payee@) ==> {
            &&& final(payer_receipts)@ == old(payer_receipts)@.insert(
                payer@ + payee@,
                final(payer_receipts)@[payer@ + payee@],
            )
            &&& fresh_receipt(
                final(payer_receipts)@[payer@ + payee@],
                *payee,
                *payer,
                multi_id@,
                reference_no@,
                amount,
                currency,
            )
        },
{
    // The payee's receipts.
    let payee_key = account_key(payee);
    let mut p_vec = take_list(payee_receipts, payee_key.as_slice());
    let ghost old_vec = p_vec@;
    match position_of_receipt(&p_vec, multi_id) {
        Some(idx) => {
            let mut receipt = p_vec.remove(idx);
            receipt.update_txn(amount);
            receipt.update_amount(amount);
            p_vec.insert(idx, receipt);
            proof {
                assert forall|j: int| 0 <= j < old_vec.len() && j != idx as int
                    implies p_vec@[j] == old_vec[j] by {
                }
                assert forall|i: int| #[trigger] first_receipt_for(old_vec, multi_id@, i)
                    implies i == idx as int by {
                    if i < idx as int {
                        assert(old_vec[i].multi_id@ != multi_id@);
                    } else if i > idx as int {
                        assert(old_vec[idx as int].multi_id@ != multi_id@);
                    }
                }
            }
        }
        None => {
            let receipt = TxnReceipt::new(
                *payee,
                *payer,
                *multi_id,
                to_vec(reference_no),
                amount,
                amount,
                currency,
            );
            p_vec.push(receipt);
        }
    }
    let ghost new_vec = p_vec@;
    payee_receipts.insert(payee_key, p_vec);
    proof {
        assert(old(payee_receipts)@.remove(payee@).insert(payee@, final(payee_receipts)@[payee@])
            =~= old(payee_receipts)@.insert(payee@, final(payee_receipts)@[payee@]));
    }
    // The payer's receipt.
    let payer_key = pair_key(payer, payee);
    match payer_receipts.remove(payer_key.as_slice()) {
        Some(mut receipt) => {
            receipt.update_txn(amount);
            receipt.update_amount(amount);
            payer_receipts.insert(payer_key, receipt);
            proof {
                assert(old(payer_receipts)@.remove(payer@ + payee@).insert(
                    payer@ + payee@,
                    final(payer_receipts)@[payer@ + payee@],
                ) =~= old(payer_receipts)@.insert(payer@ + payee@, final(payer_receipts)@[payer@ + payee@]));
            }
        }
        None => {
            let receipt = TxnReceipt::new(
                *payee,
                *payer,
                *multi_id,
                to_vec(reference_no),
                amount,
                amount,
                currency,
            );
            payer_receipts.insert(payer_key, receipt);
        }
    }
}

/// Whether `record_receipts` can count a payment of `amount` in the payer's
/// receipt for the payee without overflowing.
pub fn can_record_payer_receipt<C>(
    payer_receipts: &ByteMap<TxnReceipt<C>>,
    payer: &AccountId,
    payee: &AccountId,
    amount: u128,
) -> (r: bool)
    ensures
        r == can_top_up_payer(payer_receipts@, payer@ + payee@, amount),
{
    match payer_receipts.get(pair_key(payer, payee).as_slice()) {
        Some(rc) => rc.no_txn.len() < MAX_NO_TXNS && rc.amount <= u128::MAX - amount,
        None => true,
    }
}

/// A record of funds leaving a multi-signature account.
#[derive(Clone, Copy, Debug, PartialEq, Eq)]
pub struct CallExecuted {
    pub payer: AccountId,
    pub payee: AccountId,
    pub allowed_multi_id: AccountId,
    pub confirmed_multi_id: AccountId,
    pub proof: [u8; 32],
    pub time: BlockNumber,
}

impl CallExecuted {
    /// A record with the given fields.
    pub fn new(
        payer: AccountId,
        payee: AccountId,
        allowed_multi_id: AccountId,
        confirmed_multi_id: AccountId,
        proof: [u8; 32],
        time: BlockNumber,
    ) -> (r: Self)
        ensures
            r == (CallExecuted { payer, payee, allowed_multi_id, confirmed_multi_id, proof, time }),
    {
        CallExecuted { payer, payee, allowed_multi_id, confirmed_multi_id, proof, time }
    }
}

/// A pending payment for an order.
#[derive(Debug)]
pub struct TxnTicketOrder {
    pub payee: AccountId,
    pub payer: AccountId,
    pub amount: u128,
    pub reference_no: Vec<u8>,
}

impl TxnTicketOrder {
    /// A ticket with the given fields.
    pub fn new(payee: AccountId, payer: AccountId, ref_no: Vec<u8>, amount: u128) -> (r: Self)
        ensures
            r.payee == payee,
            r.payer == payer,
            r.reference_no == ref_no,
            r.amount == amount,
    {
        TxnTicketOrder { payee, payer, reference_no: ref_no, amount }
    }
}

/// A payee whose receipts hold at most one receipt per multi-signature
/// account still does after a payment is counted in them: the payment tops up
/// the receipt for its account, or adds one where there is none.
pub proof fn law_payee_receipts_stay_one_per_multi<C>(
    new: Seq<TxnReceipt<C>>,
    old: Seq<TxnReceipt<C>>,
    payee: AccountId,
    payer: AccountId,
    multi_id: Seq<u8>,
    reference_no: Seq<u8>,
    amount: u128,
    currency: C,
)
    requires
        one_receipt_per_multi(old),
        payee_receipts_after(new, old, payee, payer, multi_id, reference_no, amount, currency),
    ensures
        one_receipt_per_multi(new),
{
    if no_receipt_for(old, multi_id) {
        assert forall|i: int, j: int| 0 <= i < j < new.len() implies new[i].multi_id@ != new[j].multi_id@ by {
            if j == old.len() {
                assert(new[i] == old[i]);
            } else {
                assert(new[i] == old[i]);
                assert(new[j] == old[j]);
            }
        }
    } else {
        let k = choose|k: int| 0 <= k < old.len() && old[k].multi_id@ == multi_id;
        assert(first_receipt_for(old, multi_id, k)) by {
            assert forall|j: int| 0 <= j < k implies old[j].multi_id@ != multi_id by {
                assert(old[j].multi_id@ != old[k].multi_id@);
            }
        }
        assert forall|i: int, j: int| 0 <= i < j < new.len() implies new[i].multi_id@ != new[j].multi_id@ by {
            if i != k {
                assert(new[i] == old[i]);
            }
            if j != k {
                assert(new[j] == old[j]);
            }
            assert(old[i].multi_id@ != old[j].multi_id@);
        }
    }
}

} // verus!
