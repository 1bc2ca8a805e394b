use vane::effects::{Effect, Event, ResolverChoice};
use vane::payment::{Confirm, PaymentError, PaymentState, RevertReasons};
use vane::signers::{derive_multi_id, derive_reference_no, AccountSigners, Resolver, REFERENCE_LEN};

const ALICE: [u8; 32] = [1u8; 32];
const BOB: [u8; 32] = [2u8; 32];
const CHARLIE: [u8; 32] = [3u8; 32];

fn multi_of(payer: [u8; 32], payee: [u8; 32]) -> [u8; 32] {
    derive_multi_id(&AccountSigners::new(payee, payer, None))
}

fn reference_of(payer: [u8; 32], payee: [u8; 32]) -> Vec<u8> {
    derive_reference_no(&payer, &payee, &multi_of(payer, payee))
}

#[test]
fn multi_id_depends_on_both_parties_and_their_roles() {
    let ab = multi_of(ALICE, BOB);
    let ba = multi_of(BOB, ALICE);
    let ac = multi_of(ALICE, CHARLIE);
    assert_ne!(ab, ba);
    assert_ne!(ab, ac);
    assert_eq!(ab, multi_of(ALICE, BOB));
    assert_ne!(ab, ALICE);
    assert_ne!(ab, BOB);
}

#[test]
fn multi_id_with_a_legal_resolver_differs() {
    let plain = derive_multi_id(&AccountSigners::new(BOB, ALICE, None));
    let legal = derive_multi_id(&AccountSigners::new(BOB, ALICE, Some(Resolver::LegalTeam(CHARLIE))));
    let governance = derive_multi_id(&AccountSigners::new(BOB, ALICE, Some(Resolver::Governance)));
    assert_ne!(plain, legal);
    assert_eq!(plain, governance);
}

#[test]
fn reference_number_is_six_bytes_and_depends_on_the_parties() {
    let r1 = reference_of(ALICE, BOB);
    let r2 = reference_of(BOB, ALICE);
    assert_eq!(r1.len(), REFERENCE_LEN);
    assert_eq!(r1.len(), 6);
    assert_ne!(r1, r2);
    assert_eq!(r1, reference_of(ALICE, BOB));
}

#[test]
fn vane_pay_locks_the_payment_and_reports_it() {
    let mut s = PaymentState::new();
    let effects = s.vane_pay(ALICE, BOB, 1000, None, 7).unwrap();
    let multi = multi_of(ALICE, BOB);
    assert_eq!(effects.len(), 5);
    assert!(matches!(effects[0], Effect::CreateAccount { account } if account == multi));
    assert!(matches!(effects[1], Effect::Deposit(Event::MultiAccountCreated { account_id, timestamp: 7 }) if account_id == multi));
    assert!(matches!(effects[2], Effect::Transfer { from, to, amount: 1000, keep_alive: true } if from == ALICE && to == multi));
    match &effects[3] {
        Effect::Deposit(Event::BalanceTransferredAndLocked { to_multi_id, from, timestamp, reference_no }) => {
            assert_eq!(*to_multi_id, multi);
            assert_eq!(*from, ALICE);
            assert_eq!(*timestamp, 7);
            assert_eq!(*reference_no, reference_of(ALICE, BOB));
        }
        other => panic!("unexpected effect {:?}", other),
    }
    assert!(matches!(effects[4], Effect::Deposit(Event::SubmittedPayment { from_account, to_account, amount: 1000, resolver: None, timestamp: 7 }) if from_account == ALICE && to_account == BOB));
    let mut key = ALICE.to_vec();
    key.extend_from_slice(&BOB);
    let receipt = s.payer_txn_receipt.get(&key).unwrap();
    assert_eq!(receipt.amount, 1000);
    assert_eq!(receipt.multi_id, multi);
    assert_eq!(receipt.reference_no, reference_of(ALICE, BOB));
    assert!(receipt.no_txn.is_empty());
}

#[test]
fn vane_pay_with_a_resolver_does_nothing() {
    let mut s = PaymentState::new();
    let effects = s.vane_pay(ALICE, BOB, 1000, Some(ResolverChoice::LegalTeam), 7).unwrap();
    assert!(effects.is_empty());
    assert!(s.payer_txn_receipt.get(&[ALICE, BOB].concat()).is_none());
}

#[test]
fn payments_accumulate_in_payee_receipt() {
    let mut s = PaymentState::new();
    s.vane_pay(ALICE, BOB, 1000, None, 1).unwrap();
    s.vane_pay(ALICE, BOB, 500, None, 2).unwrap();
    let receipts = s.payee_txn_receipt.get(&BOB).unwrap();
    assert_eq!(receipts.len(), 1);
    assert_eq!(receipts[0].amount, 1500);
    assert_eq!(receipts[0].no_txn, vec![500u128]);
    let payer_receipt = s.payer_txn_receipt.get(&[ALICE, BOB].concat()).unwrap();
    assert_eq!(payer_receipt.amount, 1500);
    assert_eq!(payer_receipt.no_txn, vec![500u128]);
}

#[test]
fn locked_payment_released_after_both_confirm() {
    let mut s = PaymentState::new();
    s.vane_pay(ALICE, BOB, 1000, None, 1).unwrap();
    let reference = reference_of(ALICE, BOB);
    let first = s.confirm_pay(BOB, Confirm::Payee, reference.clone(), 2).unwrap();
    assert_eq!(first.len(), 1);
    assert!(matches!(&first[0], Effect::Deposit(Event::PayeeAddressConfirmed { account_id, timestamp: 2, .. }) if *account_id == BOB));
    let second = s.confirm_pay(ALICE, Confirm::Payer, reference.clone(), 3).unwrap();
    assert_eq!(second.len(), 3);
    assert!(matches!(&second[0], Effect::Deposit(Event::PayerAddressConfirmed { account_id, timestamp: 3, .. }) if *account_id == ALICE));
    let multi = multi_of(ALICE, BOB);
    assert!(matches!(second[1], Effect::TransferAll { from, to, keep_alive: false } if from == multi && to == BOB));
    assert!(matches!(second[2], Effect::Deposit(Event::CallExecuted { multi_id, timestamp: 3 }) if multi_id == multi));
    assert_eq!(s.confirmed_signers.get(&reference).unwrap(), &vec![BOB, ALICE]);
    let records = s.account_multi_txns.get(&ALICE).unwrap();
    assert_eq!(records.len(), 1);
    assert_eq!(records[0].payee, BOB);
    assert_eq!(records[0].allowed_multi_id, multi);
}

#[test]
fn payer_must_wait_for_payee() {
    let mut s = PaymentState::new();
    s.vane_pay(ALICE, BOB, 1000, None, 1).unwrap();
    let reference = reference_of(ALICE, BOB);
    assert_eq!(s.confirm_pay(ALICE, Confirm::Payer, reference.clone(), 2).unwrap_err(), PaymentError::WaitForPayeeToConfirm);
    assert!(s.confirmed_signers.get(&reference).is_none());
}

#[test]
fn payee_cannot_confirm_twice() {
    let mut s = PaymentState::new();
    s.vane_pay(ALICE, BOB, 1000, None, 1).unwrap();
    let reference = reference_of(ALICE, BOB);
    s.confirm_pay(BOB, Confirm::Payee, reference.clone(), 2).unwrap();
    assert_eq!(s.confirm_pay(BOB, Confirm::Payee, reference.clone(), 3).unwrap_err(), PaymentError::PayeeAlreadyConfirmed);
    assert_eq!(s.confirmed_signers.get(&reference).unwrap(), &vec![BOB]);
}

#[test]
fn third_confirmation_exceeds_signers() {
    let mut s = PaymentState::new();
    s.vane_pay(ALICE, BOB, 1000, None, 1).unwrap();
    let reference = reference_of(ALICE, BOB);
    s.confirm_pay(BOB, Confirm::Payee, reference.clone(), 2).unwrap();
    s.confirm_pay(ALICE, Confirm::Payer, reference.clone(), 3).unwrap();
    assert_eq!(s.confirm_pay(CHARLIE, Confirm::Payer, reference.clone(), 4).unwrap_err(), PaymentError::ExceededSigners);
}

#[test]
fn stranger_as_payer_is_not_allowed() {
    let mut s = PaymentState::new();
    s.vane_pay(ALICE, BOB, 1000, None, 1).unwrap();
    let reference = reference_of(ALICE, BOB);
    s.confirm_pay(BOB, Confirm::Payee, reference.clone(), 2).unwrap();
    assert_eq!(
        s.confirm_pay(CHARLIE, Confirm::Payer, reference.clone(), 3).unwrap_err(),
        PaymentError::NotAllowedPayeeOrPaymentNotInitialized
    );
    assert_eq!(s.confirmed_signers.get(&reference).unwrap(), &vec![BOB]);
}

#[test]
fn wrong_payee_fails_to_match_accounts() {
    let mut s = PaymentState::new();
    s.vane_pay(ALICE, BOB, 1000, None, 1).unwrap();
    let reference = reference_of(ALICE, BOB);
    s.confirm_pay(CHARLIE, Confirm::Payee, reference.clone(), 2).unwrap();
    assert_eq!(s.confirm_pay(ALICE, Confirm::Payer, reference.clone(), 3).unwrap_err(), PaymentError::FailedToMatchAccounts);
}

#[test]
fn revert_fund_changes_nothing() {
    let mut s = PaymentState::new();
    s.vane_pay(ALICE, BOB, 1000, None, 1).unwrap();
    let effects = s.revert_fund(RevertReasons::ChangeOfDecision).unwrap();
    assert!(effects.is_empty());
    assert_eq!(s.payer_txn_receipt.get(&[ALICE, BOB].concat()).unwrap().amount, 1000);
}

#[test]
fn dispatch_transfer_call_records_the_call() {
    let mut s = PaymentState::new();
    let multi = multi_of(ALICE, BOB);
    let effects = s.dispatch_transfer_call([9u8; 32], ALICE, BOB, multi, multi, 5).unwrap();
    assert_eq!(effects.len(), 2);
    assert!(matches!(effects[0], Effect::TransferAll { from, to, keep_alive: false } if from == multi && to == BOB));
    let records = s.account_multi_txns.get(&ALICE).unwrap();
    assert_eq!(records[0].proof, [9u8; 32]);
    assert_eq!(records[0].time, 5);
}

#[test]
fn try_vane_pay_locks_like_vane_pay() {
    let mut s = PaymentState::new();
    let effects = s.try_vane_pay(ALICE, BOB, 10, None, 1).unwrap().unwrap();
    assert_eq!(effects.len(), 5);
    assert!(s.try_vane_pay(ALICE, BOB, u128::MAX, None, 2).is_none());
    assert_eq!(s.payee_txn_receipt.get(&BOB).unwrap()[0].amount, 10);
    assert!(s.try_vane_pay(ALICE, BOB, u128::MAX, Some(ResolverChoice::Governance), 2).unwrap().unwrap().is_empty());
}

#[test]
fn payee_receipts_stay_one_per_multi_account() {
    let mut s = PaymentState::new();
    s.vane_pay(ALICE, BOB, 10, None, 1).unwrap();
    s.vane_pay(CHARLIE, BOB, 20, None, 2).unwrap();
    s.vane_pay(ALICE, BOB, 30, None, 3).unwrap();
    s.vane_pay(CHARLIE, BOB, 40, None, 4).unwrap();
    let receipts = s.payee_txn_receipt.get(&BOB).unwrap();
    assert_eq!(receipts.len(), 2);
    assert_ne!(receipts[0].multi_id, receipts[1].multi_id);
    assert_eq!(receipts[0].multi_id, multi_of(ALICE, BOB));
    assert_eq!(receipts[0].amount, 40);
    assert_eq!(receipts[1].amount, 60);
}
