use vane::byte_map::{push_to_list, take_list, ByteMap};
use vane::bytes::{account_bytes_key, account_eq, account_key, bytes_eq, extend_bytes, pair_key, to_vec};
use vane::effects::{failure_handling, CurrencyId, Effect, Event, FailureHandling, RelayMessage, XcmStatus};
use vane::receipt::{
    can_record_payee_receipt, can_record_payer_receipt, position_of_receipt, record_receipts, CallExecuted, TxnReceipt, TxnTicketOrder,
    MAX_NO_TXNS,
};

#[test]
fn byte_map_reads_what_was_written() {
    let mut m: ByteMap<u32> = ByteMap::new();
    assert!(!m.contains_key(b"a"));
    m.insert(b"a".to_vec(), 1);
    m.insert(b"b".to_vec(), 2);
    m.insert(b"a".to_vec(), 3);
    assert_eq!(m.get(b"a"), Some(&3));
    assert_eq!(m.get(b"b"), Some(&2));
    assert_eq!(m.get(b"c"), None);
    assert_eq!(m.remove(b"a"), Some(3));
    assert!(!m.contains_key(b"a"));
    assert_eq!(m.remove(b"a"), None);
}

#[test]
fn lists_in_a_byte_map() {
    let mut m: ByteMap<Vec<u8>> = ByteMap::new();
    push_to_list(&mut m, b"k".to_vec(), 1);
    push_to_list(&mut m, b"k".to_vec(), 2);
    assert_eq!(m.get(b"k"), Some(&vec![1u8, 2]));
    assert_eq!(take_list(&mut m, b"k"), vec![1u8, 2]);
    assert!(take_list(&mut m, b"k").is_empty());
}

#[test]
fn byte_helpers() {
    assert!(bytes_eq(b"abc", b"abc"));
    assert!(!bytes_eq(b"abc", b"abd"));
    assert!(!bytes_eq(b"ab", b"abc"));
    assert!(account_eq(&[1u8; 32], &[1u8; 32]));
    assert!(!account_eq(&[1u8; 32], &[2u8; 32]));
    assert_eq!(to_vec(b"xy"), b"xy".to_vec());
    let mut out = b"x".to_vec();
    extend_bytes(&mut out, b"yz");
    assert_eq!(out, b"xyz".to_vec());
    assert_eq!(account_key(&[7u8; 32]), vec![7u8; 32]);
    assert_eq!(pair_key(&[1u8; 32], &[2u8; 32]), [[1u8; 32], [2u8; 32]].concat());
    let mut expected = vec![1u8; 32];
    expected.extend_from_slice(b"ref");
    assert_eq!(account_bytes_key(&[1u8; 32], b"ref"), expected);
}

#[test]
fn receipt_starts_without_transactions() {
    let mut r = TxnReceipt::new([2u8; 32], [1u8; 32], [3u8; 32], b"ref".to_vec(), 10, 10, CurrencyId::DOT);
    assert!(r.no_txn.is_empty());
    assert_eq!(r.xcm_status, XcmStatus::Tbc);
    assert_eq!(r.amount, 10);
    r.update_txn(5);
    r.update_amount(5);
    assert_eq!(r.no_txn, vec![5u128]);
    assert_eq!(r.amount, 15);
}

#[test]
fn receipts_recorded_for_both_parties() {
    let mut payee: ByteMap<Vec<TxnReceipt<CurrencyId>>> = ByteMap::new();
    let mut payer: ByteMap<TxnReceipt<CurrencyId>> = ByteMap::new();
    let (to, from, multi) = ([2u8; 32], [1u8; 32], [3u8; 32]);
    assert!(can_record_payee_receipt(&payee, &to, &multi, 10));
    record_receipts(&mut payee, &mut payer, &to, &from, &multi, b"ref", 10, CurrencyId::USDT);
    record_receipts(&mut payee, &mut payer, &to, &from, &multi, b"ref", 4, CurrencyId::USDT);
    let list = payee.get(&to).unwrap();
    assert_eq!(list.len(), 1);
    assert_eq!(list[0].amount, 14);
    assert_eq!(list[0].no_txn, vec![4u128]);
    assert_eq!(position_of_receipt(list, &multi), Some(0));
    assert_eq!(position_of_receipt(list, &[9u8; 32]), None);
    assert_eq!(payer.get(&pair_key(&from, &to)).unwrap().amount, 14);
    assert_eq!(payer.get(&pair_key(&from, &to)).unwrap().no_txn, vec![4u128]);
    assert!(can_record_payer_receipt(&payer, &from, &to, 1));
    assert!(!can_record_payer_receipt(&payer, &from, &to, u128::MAX));
    assert!(!can_record_payee_receipt(&payee, &to, &multi, u128::MAX));
    assert_eq!(MAX_NO_TXNS, 20);
}

#[test]
fn records_and_tickets_keep_their_fields() {
    let c = CallExecuted::new([1u8; 32], [2u8; 32], [3u8; 32], [4u8; 32], [5u8; 32], 6);
    assert_eq!(c.confirmed_multi_id, [4u8; 32]);
    assert_eq!(c.time, 6);
    let t = TxnTicketOrder::new([2u8; 32], [1u8; 32], b"r".to_vec(), 9);
    assert_eq!(t.payee, [2u8; 32]);
    assert_eq!(t.amount, 9);
    assert_eq!(t.reference_no, b"r".to_vec());
}

#[test]
fn failure_handling_of_each_effect() {
    let a = [1u8; 32];
    assert_eq!(failure_handling(&Effect::Deposit(Event::MessageTransferedToPolkadot)), FailureHandling::CannotFail);
    assert_eq!(failure_handling(&Effect::CreateAccount { account: a }), FailureHandling::CannotFail);
    assert_eq!(
        failure_handling(&Effect::Transfer { from: a, to: a, amount: 1, keep_alive: true }),
        FailureHandling::PassThrough
    );
    assert_eq!(
        failure_handling(&Effect::TransferAll { from: a, to: a, keep_alive: false }),
        FailureHandling::MultiSigCallFailed
    );
    assert_eq!(failure_handling(&Effect::FundFees { from: a, to: a, amount: 1 }), FailureHandling::Panic);
    assert_eq!(
        failure_handling(&Effect::WithdrawAsset { asset: CurrencyId::DOT, who: a, amount: 1 }),
        FailureHandling::FailedToTransactAsset
    );
    assert_eq!(
        failure_handling(&Effect::SendToRelay { message: RelayMessage::TransferAsset { amount: 1, beneficiary: a } }),
        FailureHandling::ErrorSendingXcm
    );
}
