use vane::asset_adapter::{
    contains_asset, contains_currency, convert_asset, convert_currency, convert_location, deposit_asset,
    foreign_creator_origin, matches_fungible, transfer_asset, withdraw_asset, Asset, AssetId, Fungibility,
    Junction, Location, OriginRejected, TransactError,
};
use vane::effects::{CurrencyId, Effect, Event, RelayMessage, Token};
use vane::payment::{Confirm, PaymentError, PaymentState};
use vane::signers::{derive_multi_id, derive_pair_multi_id, derive_reference_no, AccountSigners, PairSigners};
use vane::transfer_system::{
    AssetError, TransferSystemState, WithdrawConsequence, DOT_EXISTENTIAL_DEPOSIT, FEES_AMOUNT, RELAY_FEE,
};
use vane::xcm::{VaneXcmState, XcmError, RELAY_TRANSFER_AMOUNT};

const ALICE: [u8; 32] = [1u8; 32];
const BOB: [u8; 32] = [2u8; 32];
const CHARLIE: [u8; 32] = [3u8; 32];
const PARA: [u8; 32] = [7u8; 32];

fn pay_multi(payer: [u8; 32], payee: [u8; 32]) -> [u8; 32] {
    derive_multi_id(&AccountSigners::new(payee, payer, None))
}

fn pay_reference(payer: [u8; 32], payee: [u8; 32]) -> Vec<u8> {
    derive_reference_no(&payer, &payee, &pay_multi(payer, payee))
}

fn transfer_multi(payer: [u8; 32], payee: [u8; 32]) -> [u8; 32] {
    derive_pair_multi_id(&PairSigners::new(payee, payer))
}

fn transfer_reference(payer: [u8; 32], payee: [u8; 32]) -> Vec<u8> {
    derive_reference_no(&payer, &payee, &transfer_multi(payer, payee))
}

fn relay() -> Location {
    Location { parents: 1, interior: Vec::new() }
}

#[test]
fn pair_multi_id_differs_from_payment_multi_id() {
    assert_ne!(transfer_multi(ALICE, BOB), pay_multi(ALICE, BOB));
    assert_ne!(transfer_multi(ALICE, BOB), transfer_multi(BOB, ALICE));
}

#[test]
fn xcm_transfer_mints_into_the_multi_account() {
    let xcm = VaneXcmState::genesis_build(Some(PARA));
    let mut payment = PaymentState::new();
    let effects = xcm.vane_transfer(&mut payment, ALICE, BOB, 100_000, Token::DOT, CurrencyId::DOT, 4).unwrap();
    let multi = pay_multi(ALICE, BOB);
    assert_eq!(effects.len(), 4);
    assert!(matches!(effects[0], Effect::CreateAccount { account } if account == multi));
    assert!(matches!(effects[1], Effect::Deposit(Event::MultisigAccountCreated { time: 4, id }) if id == multi));
    assert!(matches!(effects[2], Effect::MintAsset { issuer, asset: CurrencyId::DOT, beneficiary, amount: 100_000 } if issuer == PARA && beneficiary == multi));
    assert!(matches!(effects[3], Effect::Deposit(Event::DotXcmTransferInitiated { time: 4, amount: 100_000, multi_id }) if multi_id == multi));
}

#[test]
fn xcm_transfer_dot_mints_the_amount() {
    let xcm = VaneXcmState::genesis_build(Some(PARA));
    let effects = xcm.vane_xcm_transfer_dot(10, BOB, CurrencyId::DOT, 1).unwrap();
    assert_eq!(effects.len(), 2);
    assert!(matches!(effects[0], Effect::MintAsset { issuer, asset: CurrencyId::DOT, beneficiary, amount: 10 } if issuer == PARA && beneficiary == BOB));
    let s = TransferSystemState::genesis_build(Some(PARA));
    let effects = s.vane_xcm_transfer_dot(7, BOB, CurrencyId::DOT, 1).unwrap();
    assert!(matches!(effects[0], Effect::MintAsset { amount: 7, .. }));
}

#[test]
fn xcm_transfer_in_usdt_is_not_supported() {
    let xcm = VaneXcmState::genesis_build(Some(PARA));
    let mut payment = PaymentState::new();
    let err = xcm.vane_transfer(&mut payment, ALICE, BOB, 100, Token::USDT, CurrencyId::USDT, 4).unwrap_err();
    assert_eq!(err, XcmError::NotSupportedYet);
    assert!(payment.payer_txn_receipt.get(&[ALICE, BOB].concat()).is_none());
}

#[test]
fn xcm_payment_released_after_both_confirm() {
    let xcm = VaneXcmState::genesis_build(Some(PARA));
    let mut payment = PaymentState::new();
    xcm.vane_transfer(&mut payment, ALICE, BOB, 100_000, Token::DOT, CurrencyId::DOT, 1).unwrap();
    let receipt = VaneXcmState::read_payer_receipt(&payment, ALICE, BOB).unwrap();
    let reference = receipt.reference_no.clone();
    let amount = receipt.amount;
    assert_eq!(reference, pay_reference(ALICE, BOB));
    assert_eq!(amount, 100_000);
    let first = xcm.vane_confirm(&mut payment, BOB, Confirm::Payee, reference.clone(), amount, CurrencyId::DOT, 2).unwrap();
    assert_eq!(first.len(), 1);
    assert!(matches!(&first[0], Effect::Deposit(Event::PayeeAddressConfirmedXcm { account_id, .. }) if *account_id == BOB));
    let second = xcm.vane_confirm(&mut payment, ALICE, Confirm::Payer, reference.clone(), amount, CurrencyId::DOT, 3).unwrap();
    assert_eq!(second.len(), 4);
    let multi = pay_multi(ALICE, BOB);
    assert!(matches!(second[1], Effect::BurnAsset { issuer, asset: CurrencyId::DOT, who, amount: 100_000 } if issuer == PARA && who == multi));
    assert!(matches!(second[2], Effect::SendToRelay { message: RelayMessage::TransferAsset { amount, beneficiary } } if amount == RELAY_TRANSFER_AMOUNT && beneficiary == BOB));
    assert!(matches!(second[3], Effect::Deposit(Event::MessageTransferedToPolkadot)));
    assert_eq!(payment.confirmed_signers.get(&reference).unwrap(), &vec![BOB, ALICE]);
}

#[test]
fn refused_xcm_confirmation_reports_the_payment_error() {
    let xcm = VaneXcmState::genesis_build(Some(PARA));
    let mut payment = PaymentState::new();
    xcm.vane_transfer(&mut payment, ALICE, BOB, 100_000, Token::DOT, CurrencyId::DOT, 1).unwrap();
    let reference = pay_reference(ALICE, BOB);
    let err = xcm.vane_confirm(&mut payment, ALICE, Confirm::Payer, reference.clone(), 1, CurrencyId::DOT, 2).unwrap_err();
    assert_eq!(err, XcmError::Payment(PaymentError::WaitForPayeeToConfirm));
    assert!(payment.confirmed_signers.get(&reference).is_none());
}

#[test]
fn read_payer_receipt_without_payment_is_not_found() {
    let payment = PaymentState::new();
    assert_eq!(VaneXcmState::read_payer_receipt(&payment, ALICE, BOB).unwrap_err(), XcmError::ReceiptNotFound);
}

#[test]
fn multi_currency_transfer_funds_fees_and_moves_asset() {
    let mut s = TransferSystemState::genesis_build(Some(PARA));
    assert!(s.can_transfer(&ALICE, &BOB, 100_000));
    let effects = s.multi_currency_transfer(CurrencyId::DOT, ALICE, BOB, 100_000, 9).unwrap();
    let multi = transfer_multi(ALICE, BOB);
    assert_eq!(effects.len(), 5);
    assert!(matches!(effects[0], Effect::CreateAccount { account } if account == multi));
    assert!(matches!(effects[1], Effect::FundFees { from, to, amount } if from == PARA && to == ALICE && amount == FEES_AMOUNT));
    assert!(matches!(effects[2], Effect::FundFees { from, to, amount } if from == PARA && to == BOB && amount == FEES_AMOUNT));
    assert!(matches!(effects[3], Effect::TransferAsset { from, asset: CurrencyId::DOT, to, amount: 100_000 } if from == ALICE && to == multi));
    assert!(matches!(effects[4], Effect::Deposit(Event::XcmTokenTransferInitiated { time: 9, amount: 100_000, multi_id, token: CurrencyId::DOT }) if multi_id == multi));
}

#[test]
fn transfer_released_after_both_confirm() {
    let mut s = TransferSystemState::genesis_build(Some(PARA));
    let amount: u128 = 20_000_000_000;
    s.multi_currency_transfer(CurrencyId::DOT, ALICE, BOB, amount, 1).unwrap();
    let reference = transfer_reference(ALICE, BOB);
    let first = s.vane_confirm(BOB, Confirm::Payee, reference.clone(), amount, CurrencyId::DOT, 2).unwrap();
    assert_eq!(first.len(), 1);
    let second = s.vane_confirm(ALICE, Confirm::Payer, reference.clone(), amount, CurrencyId::DOT, 3).unwrap();
    assert_eq!(second.len(), 4);
    let multi = transfer_multi(ALICE, BOB);
    assert!(matches!(second[1], Effect::BurnAsset { issuer, asset: CurrencyId::DOT, who, amount: x } if issuer == PARA && who == multi && x == amount));
    assert!(matches!(second[2], Effect::SendToRelay { message: RelayMessage::WithdrawBuyDeposit { amount: x, beneficiary } } if x == amount - RELAY_FEE && beneficiary == BOB));
    assert_eq!(s.confirmed_signers.get(&reference).unwrap(), &vec![BOB, ALICE]);
}

#[test]
fn refused_transfer_confirmations() {
    let mut s = TransferSystemState::genesis_build(Some(PARA));
    let amount: u128 = 20_000_000_000;
    s.multi_currency_transfer(CurrencyId::DOT, ALICE, BOB, amount, 1).unwrap();
    let reference = transfer_reference(ALICE, BOB);
    assert_eq!(
        s.vane_confirm(ALICE, Confirm::Payer, reference.clone(), amount, CurrencyId::DOT, 2).unwrap_err(),
        XcmError::Payment(PaymentError::WaitForPayeeToConfirm)
    );
    s.vane_confirm(BOB, Confirm::Payee, reference.clone(), amount, CurrencyId::DOT, 2).unwrap();
    assert_eq!(
        s.vane_confirm(BOB, Confirm::Payee, reference.clone(), amount, CurrencyId::DOT, 3).unwrap_err(),
        XcmError::Payment(PaymentError::PayeeAlreadyConfirmed)
    );
    assert_eq!(
        s.vane_confirm(CHARLIE, Confirm::Payer, reference.clone(), amount, CurrencyId::DOT, 3).unwrap_err(),
        XcmError::Payment(PaymentError::NotAllowedPayeeOrPaymentNotInitialized)
    );
    assert_eq!(s.confirmed_signers.get(&reference).unwrap(), &vec![BOB]);
}

#[test]
fn transfer_with_wrong_payee_fails_to_match_accounts() {
    let mut s = TransferSystemState::genesis_build(Some(PARA));
    let amount: u128 = 20_000_000_000;
    s.multi_currency_transfer(CurrencyId::DOT, ALICE, BOB, amount, 1).unwrap();
    let reference = transfer_reference(ALICE, BOB);
    s.vane_confirm(CHARLIE, Confirm::Payee, reference.clone(), amount, CurrencyId::DOT, 2).unwrap();
    assert_eq!(
        s.vane_confirm(ALICE, Confirm::Payer, reference.clone(), amount, CurrencyId::DOT, 3).unwrap_err(),
        XcmError::Payment(PaymentError::FailedToMatchAccounts)
    );
}

#[test]
fn transfer_system_helpers() {
    assert_eq!(TransferSystemState::minimum_balance(CurrencyId::DOT), DOT_EXISTENTIAL_DEPOSIT);
    assert!(TransferSystemState::can_slash(0, 0));
    assert!(TransferSystemState::can_slash(5, 5));
    assert!(!TransferSystemState::can_slash(6, 5));
    assert_eq!(TransferSystemState::ensure_can_withdraw(WithdrawConsequence::Success), Ok(()));
    assert_eq!(TransferSystemState::ensure_can_withdraw(WithdrawConsequence::BalanceLow), Err(AssetError::BalanceLow));
    assert_eq!(TransferSystemState::ensure_can_withdraw(WithdrawConsequence::WouldDie), Err(AssetError::WouldDie));
    assert_eq!(TransferSystemState::ensure_can_withdraw(WithdrawConsequence::UnknownAsset), Err(AssetError::Unknown));
    assert_eq!(TransferSystemState::ensure_can_withdraw(WithdrawConsequence::Underflow), Err(AssetError::Unknown));
    assert_eq!(TransferSystemState::ensure_can_withdraw(WithdrawConsequence::Overflow), Err(AssetError::Unknown));
    assert_eq!(TransferSystemState::ensure_can_withdraw(WithdrawConsequence::Frozen), Err(AssetError::Frozen));
    assert_eq!(
        TransferSystemState::ensure_can_withdraw(WithdrawConsequence::ReducedToZero(3)),
        Err(AssetError::MinBalanceZero)
    );
    assert!(matches!(TransferSystemState::deposit(CurrencyId::DOT, BOB, 4), Effect::DepositAsset { asset: CurrencyId::DOT, who, amount: 4 } if who == BOB));
    assert!(matches!(TransferSystemState::withdraw(CurrencyId::USDC, BOB, 4), Effect::WithdrawAsset { asset: CurrencyId::USDC, who, amount: 4 } if who == BOB));
    let s = TransferSystemState::genesis_build(Some(PARA));
    assert!(s.vane_xcm_transfer_assethub_dot().is_ok());
    assert!(s.vane_xcm_confirm_transfer_assethub_dot().is_ok());
}

#[test]
fn asset_adapter_accepts_only_the_relay_chain() {
    let parachain = Location { parents: 1, interior: vec![Junction::Parachain(1000)] };
    assert!(contains_currency(CurrencyId::DOT, &relay()));
    assert!(!contains_currency(CurrencyId::USDT, &relay()));
    assert!(!contains_currency(CurrencyId::USDC, &relay()));
    assert!(!contains_currency(CurrencyId::DOT, &parachain));
    let asset = Asset { id: AssetId::Concrete(relay()), fun: Fungibility::Fungible(10) };
    assert!(contains_asset(&asset, &relay()));
    assert_eq!(convert_asset(&asset), Some(CurrencyId::DOT));
    assert_eq!(convert_location(&parachain), Some(CurrencyId::DOT));
    let back = convert_currency(CurrencyId::DOT).unwrap();
    assert_eq!(back.parents, 1);
    assert!(back.interior.is_empty());
    assert!(convert_currency(CurrencyId::USDT).is_none());
    assert_eq!(matches_fungible(&asset), Some(10));
    let abstract_asset = Asset { id: AssetId::Abstract([0u8; 32]), fun: Fungibility::Fungible(10) };
    assert_eq!(matches_fungible(&abstract_asset), None);
    let nft = Asset { id: AssetId::Concrete(relay()), fun: Fungibility::NonFungible(1) };
    assert_eq!(matches_fungible(&nft), None);
}

#[test]
fn foreign_creator_origin_cases() {
    assert_eq!(foreign_creator_origin(None, CurrencyId::DOT, Some(ALICE)), Err(OriginRejected));
    let parachain = Location { parents: 1, interior: vec![Junction::Parachain(1000)] };
    assert_eq!(foreign_creator_origin(Some(parachain), CurrencyId::DOT, Some(ALICE)), Err(OriginRejected));
    assert_eq!(foreign_creator_origin(Some(relay()), CurrencyId::DOT, Some(ALICE)), Ok(ALICE));
    assert_eq!(foreign_creator_origin(Some(relay()), CurrencyId::USDT, Some(ALICE)), Err(OriginRejected));
    assert_eq!(foreign_creator_origin(Some(relay()), CurrencyId::DOT, None), Err(OriginRejected));
}

#[test]
fn asset_transactor_cases() {
    assert!(matches!(deposit_asset(Some(BOB), Some(CurrencyId::DOT), Some(5)), Effect::DepositAsset { asset: CurrencyId::DOT, who, amount: 5 } if who == BOB));
    assert!(matches!(withdraw_asset(None, Some(CurrencyId::DOT), Some(5)), Err(TransactError::AccountIdConversionFailed)));
    assert!(matches!(withdraw_asset(Some(BOB), None, Some(5)), Err(TransactError::AssetIdConversionFailed)));
    assert!(matches!(withdraw_asset(Some(BOB), Some(CurrencyId::DOT), None), Err(TransactError::AssetNotHandled)));
    assert!(matches!(withdraw_asset(Some(BOB), Some(CurrencyId::DOT), Some(5)), Ok(Effect::WithdrawAsset { amount: 5, .. })));
    let mut s = TransferSystemState::genesis_build(Some(PARA));
    assert!(matches!(transfer_asset(&mut s, None, Some(BOB), Some(CurrencyId::DOT), Some(5), 1), Err(TransactError::AccountIdConversionFailed)));
    let effects = transfer_asset(&mut s, Some(ALICE), Some(BOB), Some(CurrencyId::DOT), Some(5), 1).unwrap();
    assert_eq!(effects.len(), 5);
}

#[test]
fn checked_calls_refuse_what_would_panic() {
    let xcm = VaneXcmState::genesis_build(Some(PARA));
    let mut payment = PaymentState::new();
    let no_para = VaneXcmState::genesis_build(Some(PARA));
    let unknown = VaneXcmState { para_account: None, ..no_para };
    assert!(unknown.try_vane_transfer(&mut payment, ALICE, BOB, 10, Token::DOT, CurrencyId::DOT, 1).is_none());
    assert!(payment.payer_txn_receipt.get(&[ALICE, BOB].concat()).is_none());
    let done = xcm.try_vane_transfer(&mut payment, ALICE, BOB, 10, Token::DOT, CurrencyId::DOT, 1).unwrap();
    assert_eq!(done.unwrap().len(), 4);
    let reference = pay_reference(ALICE, BOB);
    let first = xcm.try_vane_confirm(&mut payment, BOB, Confirm::Payee, reference.clone(), 10, CurrencyId::DOT, 2);
    assert!(first.unwrap().is_ok());
    let mut s = TransferSystemState::genesis_build(Some(PARA));
    s.try_multi_currency_transfer(CurrencyId::DOT, ALICE, BOB, 5, 1).unwrap().unwrap();
    let treference = transfer_reference(ALICE, BOB);
    s.try_vane_confirm(BOB, Confirm::Payee, treference.clone(), 5, CurrencyId::DOT, 2).unwrap().unwrap();
    assert_eq!(
        s.try_vane_confirm(ALICE, Confirm::Payer, treference.clone(), 5, CurrencyId::DOT, 3).unwrap().unwrap_err(),
        XcmError::NotEnoughFees
    );
    assert_eq!(s.confirmed_signers.get(&treference).unwrap(), &vec![BOB]);
    let released = s.try_vane_confirm(ALICE, Confirm::Payer, treference.clone(), RELAY_FEE, CurrencyId::DOT, 3);
    assert_eq!(released.unwrap().unwrap().len(), 4);
}

#[test]
fn decisions_computed_from_storage() {
    let mut s = TransferSystemState::genesis_build(Some(PARA));
    s.multi_currency_transfer(CurrencyId::DOT, ALICE, BOB, 5, 1).unwrap();
    let reference = transfer_reference(ALICE, BOB);
    assert_eq!(
        vane::transfer_system::transfer_confirm_decision_of(&s, ALICE, Confirm::Payer, &reference),
        Err(PaymentError::WaitForPayeeToConfirm)
    );
    assert_eq!(vane::transfer_system::transfer_confirm_decision_of(&s, BOB, Confirm::Payee, &reference), Ok(false));
    let mut payment = PaymentState::new();
    payment.vane_pay(ALICE, BOB, 5, None, 1).unwrap();
    let preference = pay_reference(ALICE, BOB);
    payment.confirm_pay(BOB, Confirm::Payee, preference.clone(), 2).unwrap();
    assert_eq!(vane::xcm::payment_confirm_decision_of(&payment, ALICE, Confirm::Payer, &preference), Ok(true));
    assert_eq!(
        vane::xcm::payment_confirm_decision_of(&payment, CHARLIE, Confirm::Payer, &preference),
        Err(PaymentError::NotAllowedPayeeOrPaymentNotInitialized)
    );
}

#[test]
fn transfers_accumulate_in_payee_receipt() {
    let mut s = TransferSystemState::genesis_build(Some(PARA));
    s.multi_currency_transfer(CurrencyId::DOT, ALICE, BOB, 30, 1).unwrap();
    s.multi_currency_transfer(CurrencyId::DOT, ALICE, BOB, 12, 2).unwrap();
    let receipts = s.payee_txn_receipt.get(&BOB).unwrap();
    assert_eq!(receipts.len(), 1);
    assert_eq!(receipts[0].amount, 42);
    assert_eq!(receipts[0].no_txn, vec![12u128]);
    assert_eq!(receipts[0].multi_id, transfer_multi(ALICE, BOB));
    assert_eq!(s.payer_txn_receipt.get(&[ALICE, BOB].concat()).unwrap().amount, 42);
    assert_eq!(s.payer_txn_receipt.get(&[ALICE, BOB].concat()).unwrap().no_txn, vec![12u128]);
}

#[test]
fn full_transaction_execution_and_confirmation_works() {
    let amount = 100_000u128;
    let mut s = TransferSystemState::genesis_build(Some(PARA));
    let effects = transfer_asset(&mut s, Some(ALICE), Some(BOB), Some(CurrencyId::DOT), Some(amount), 1).unwrap();
    let multi = transfer_multi(ALICE, BOB);
    assert!(matches!(effects[3], Effect::TransferAsset { from, to, amount: x, .. } if from == ALICE && to == multi && x == amount));
    let receipt = s.payer_txn_receipt.get(&[ALICE, BOB].concat()).unwrap();
    let reference = receipt.reference_no.clone();
    let receipt_amount = receipt.amount;
    assert_eq!(receipt_amount, amount);
    s.vane_confirm(BOB, Confirm::Payee, reference.clone(), receipt_amount, CurrencyId::DOT, 2).unwrap();
    assert_eq!(s.confirmed_signers.get(&reference).unwrap(), &vec![BOB]);
    let released = s.vane_confirm(ALICE, Confirm::Payer, reference.clone(), receipt_amount, CurrencyId::DOT, 3).unwrap();
    assert!(matches!(released[1], Effect::BurnAsset { who, amount: 100_000, .. } if who == multi));
    assert!(matches!(released[2], Effect::SendToRelay { message: RelayMessage::WithdrawBuyDeposit { amount: 90_000, beneficiary } } if beneficiary == BOB));
    assert_eq!(amount - RELAY_FEE, 90_000);
    assert_eq!(RELAY_FEE, 10_000);
}

#[test]
fn relay_fee_not_covered_is_refused() {
    let mut s = TransferSystemState::genesis_build(Some(PARA));
    s.multi_currency_transfer(CurrencyId::DOT, ALICE, BOB, 9_999, 1).unwrap();
    let reference = transfer_reference(ALICE, BOB);
    s.vane_confirm(BOB, Confirm::Payee, reference.clone(), 9_999, CurrencyId::DOT, 2).unwrap();
    assert_eq!(
        s.vane_confirm(ALICE, Confirm::Payer, reference.clone(), 9_999, CurrencyId::DOT, 3).unwrap_err(),
        XcmError::NotEnoughFees
    );
    assert_eq!(s.confirmed_signers.get(&reference).unwrap(), &vec![BOB]);
    assert_eq!(
        s.vane_xcm_confirm_transfer_dot(ALICE, BOB, transfer_multi(ALICE, BOB), 9_999, CurrencyId::DOT).unwrap_err(),
        XcmError::NotEnoughFees
    );
    let exact = s.vane_xcm_confirm_transfer_dot(ALICE, BOB, transfer_multi(ALICE, BOB), 10_000, CurrencyId::DOT).unwrap();
    assert!(matches!(exact[1], Effect::SendToRelay { message: RelayMessage::WithdrawBuyDeposit { amount: 0, .. } }));
}

#[test]
fn transfer_system_vane_transfer_mints_into_the_pair_account() {
    let mut s = TransferSystemState::genesis_build(Some(PARA));
    let effects = s.vane_transfer(ALICE, BOB, 500, Token::DOT, CurrencyId::DOT, 3).unwrap();
    let multi = transfer_multi(ALICE, BOB);
    assert_eq!(effects.len(), 4);
    assert!(matches!(effects[0], Effect::CreateAccount { account } if account == multi));
    assert!(matches!(effects[1], Effect::Deposit(Event::MultisigAccountCreated { time: 3, id }) if id == multi));
    assert!(matches!(effects[2], Effect::MintAsset { issuer, asset: CurrencyId::DOT, beneficiary, amount: 500 } if issuer == PARA && beneficiary == multi));
    assert_eq!(s.payer_txn_receipt.get(&[ALICE, BOB].concat()).unwrap().amount, 500);
    s.vane_transfer(ALICE, BOB, 200, Token::DOT, CurrencyId::DOT, 4).unwrap();
    let receipt = s.payer_txn_receipt.get(&[ALICE, BOB].concat()).unwrap();
    assert_eq!(receipt.amount, 700);
    assert_eq!(receipt.no_txn, vec![200u128]);
    assert_eq!(s.vane_transfer(ALICE, BOB, 1, Token::USDT, CurrencyId::USDT, 5).unwrap_err(), XcmError::NotSupportedYet);
    assert_eq!(s.payer_txn_receipt.get(&[ALICE, BOB].concat()).unwrap().amount, 700);
    assert!(s.try_vane_transfer(ALICE, BOB, u128::MAX, Token::DOT, CurrencyId::DOT, 6).is_none());
    assert!(s.try_vane_transfer(ALICE, BOB, 1, Token::DOT, CurrencyId::DOT, 6).unwrap().is_ok());
}
