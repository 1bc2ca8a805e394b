use vane::effects::{Effect, Event, ResolverChoice};
use vane::order::{Order, OrderError, OrderState, OrderStatus, OrderTrait};
use vane::payment::{Confirm, PaymentError, PaymentState};
use vane::register::{
    Actions, PayeeAccountProfile, PayerAccountProfile, ProductProfile, RegisterError, RegisterState, VaneId,
};
use vane::signers::{derive_multi_id, derive_reference_no, AccountSigners};
use vane::wallet_less::{Origin, PaymentCalls, WalletLessError, WalletLessState};

const ALICE: [u8; 32] = [1u8; 32];
const BOB: [u8; 32] = [2u8; 32];
const CHARLIE: [u8; 32] = [3u8; 32];

fn seller_with_product(item: u32, amount: u128) -> RegisterState {
    let mut register = RegisterState::new();
    register.payee_storage.insert(
        BOB.to_vec(),
        PayeeAccountProfile::new(b"bob".to_vec(), BOB, b"here".to_vec(), b"ig".to_vec(), 0),
    );
    register.update_products(BOB, item, b"link".to_vec(), amount, None).unwrap();
    register
}

fn previous_order(order_no: u32, amount: u128) -> Order {
    Order::new(order_no, 1, amount, BOB, ALICE, 1, 2)
}

#[test]
fn register_payer_of_unknown_account_is_refused() {
    let mut register = RegisterState::new();
    assert!(!register.register_payer_panics(&ALICE));
    assert_eq!(
        register.register_payer(ALICE, None, None, None, 1).unwrap_err(),
        RegisterError::AccountAlreadyRegistered
    );
    assert!(register.payer_storage.get(&ALICE).is_none());
}

#[test]
fn register_payee_of_unknown_account_is_refused() {
    let mut register = RegisterState::new();
    let err = register.register_payee(BOB, b"bob".to_vec(), b"ig".to_vec(), b"loc".to_vec(), 1).unwrap_err();
    assert_eq!(err, RegisterError::AccountAlreadyRegistered);
    assert!(register.payee_storage.get(&BOB).is_none());
}

#[test]
fn register_payee_overwrites_an_existing_profile() {
    let mut register = seller_with_product(1, 10);
    let effects = register.register_payee(BOB, b"robert".to_vec(), b"ig2".to_vec(), b"loc2".to_vec(), 9).unwrap();
    assert_eq!(effects.len(), 1);
    assert!(matches!(effects[0], Effect::Deposit(Event::PayeeRegistered { id, time: 9 }) if id == BOB));
    let profile = register.payee_storage.get(&BOB).unwrap();
    assert_eq!(profile.name, b"robert".to_vec());
    assert_eq!(profile.location, b"loc2".to_vec());
    assert_eq!(profile.ig_link, b"ig2".to_vec());
    assert_eq!(profile.genesis_time, 9);
    assert!(profile.orders_completed.is_none());
}

#[test]
fn update_products_needs_a_registered_seller() {
    let mut register = RegisterState::new();
    assert_eq!(
        register.update_products(BOB, 1, b"link".to_vec(), 10, None).unwrap_err(),
        RegisterError::UserIsNotRegistered
    );
    let register = seller_with_product(1, 10);
    let products = register.payee_products.get(&BOB).unwrap();
    assert_eq!(products.len(), 1);
    assert_eq!(products[0].product_id, 1);
    assert_eq!(products[0].amount, 10);
    assert_eq!(products[0].seller, BOB);
}

#[test]
fn profiles_keep_their_fields() {
    let payer = PayerAccountProfile::new(Some(b"a".to_vec()), VaneId(vec![1, 2]), None, ALICE, 4);
    assert_eq!(payer.account_id, ALICE);
    assert_eq!(payer.genesis_time, 4);
    assert!(payer.orders_completed.is_none());
    let product = ProductProfile::new(None, 5, 6, BOB, b"l".to_vec());
    assert_eq!(product.amount, 5);
    assert_eq!(product.product_id, 6);
    assert_ne!(Actions::Add, Actions::Remove);
}

#[test]
fn order_new_and_number() {
    let order = Order::new(3, 8, 100, BOB, ALICE, 10, 20);
    assert_eq!(order.status, OrderStatus::Initiated);
    assert_eq!(order.order_no, 3);
    assert_eq!(order.get_order_number(), 3);
}

#[test]
fn place_order_of_unknown_product_is_refused() {
    let register = RegisterState::new();
    let mut orders = OrderState::new();
    assert!(orders.place_order_returns(&register, &ALICE, 1, &BOB, 5));
    assert_eq!(orders.place_order(&register, ALICE, 1, BOB, 5).unwrap_err(), OrderError::ProductDontExist);
}

#[test]
fn place_order_follows_the_buyers_earlier_order() {
    let register = seller_with_product(1, 10);
    let mut orders = OrderState::new();
    assert!(!orders.place_order_returns(&register, &ALICE, 1, &BOB, 5));
    orders.payer_order.insert(ALICE.to_vec(), vec![previous_order(4, 10)]);
    assert!(orders.place_order_returns(&register, &ALICE, 1, &BOB, 5));
    let effects = orders.place_order(&register, ALICE, 1, BOB, 5).unwrap();
    assert!(matches!(effects[0], Effect::Deposit(Event::OrderPlaced { buyer, order_no: 5, item_id: 1, seller }) if buyer == ALICE && seller == BOB));
    let placed = orders.payer_order.get(&ALICE).unwrap();
    assert_eq!(placed.len(), 2);
    assert_eq!(placed[1].order_no, 5);
    assert_eq!(placed[1].amount, 10);
    assert_eq!(placed[1].ordered_time, 5);
    assert_eq!(placed[1].expected_time, 10);
    assert_eq!(orders.payee_order_ref.get(&BOB).unwrap(), &vec![(ALICE, 1u32, 5u32)]);
}

#[test]
fn vane_order_pay_locks_the_order_amount() {
    let register = seller_with_product(1, 10);
    let mut orders = OrderState::new();
    orders.payer_order.insert(ALICE.to_vec(), vec![previous_order(4, 10)]);
    orders.place_order(&register, ALICE, 1, BOB, 5).unwrap();
    let mut payment = PaymentState::new();
    assert_eq!(
        payment.vane_order_pay(&register, &orders, ALICE, BOB, 2, None, 6).unwrap_err(),
        PaymentError::ProductNotFound
    );
    assert_eq!(
        payment.vane_order_pay(&register, &orders, CHARLIE, BOB, 1, None, 6).unwrap_err(),
        PaymentError::OrderNotFound
    );
    let effects = payment.vane_order_pay(&register, &orders, ALICE, BOB, 1, None, 6).unwrap();
    assert_eq!(effects.len(), 5);
    assert!(matches!(effects[2], Effect::Transfer { from, amount: 10, .. } if from == ALICE));
    assert!(matches!(effects[4], Effect::Deposit(Event::SubmittedOrderPayment { amount: 10, .. })));
    assert_eq!(payment.payee_txn_ticket_order.get(&BOB).unwrap().len(), 1);
    let none = payment.vane_order_pay(&register, &orders, ALICE, BOB, 1, Some(ResolverChoice::Governance), 6).unwrap();
    assert!(none.is_empty());
}

#[test]
fn delegated_signer_needs_root() {
    let mut wallet = WalletLessState::new();
    assert_eq!(wallet.set_delegated_signer(Origin::Signed(ALICE), CHARLIE).unwrap_err(), WalletLessError::BadOrigin);
    assert!(wallet.delegated_signer.is_none());
    wallet.set_delegated_signer(Origin::Root, CHARLIE).unwrap();
    assert_eq!(wallet.delegated_signer, Some(CHARLIE));
    assert!(WalletLessState::register_delegator().is_ok());
}

#[test]
fn only_the_delegated_signer_places_calls() {
    let mut wallet = WalletLessState::new();
    wallet.set_delegated_signer(Origin::Root, CHARLIE).unwrap();
    let mut payment = PaymentState::new();
    assert_eq!(
        wallet.place_vane_pay(&mut payment, ALICE, ALICE, BOB, 100, b"pw".to_vec(), 1).unwrap_err(),
        WalletLessError::UnAuthorized
    );
    let effects = wallet.place_vane_pay(&mut payment, CHARLIE, ALICE, BOB, 100, b"pw".to_vec(), 1).unwrap();
    assert_eq!(effects.len(), 5);
    let pool = wallet.payment_call_mem_pool.get(b"pw").unwrap();
    assert_eq!(pool.len(), 1);
    assert!(matches!(pool[0], PaymentCalls::VanePay { signer, payee, amount: 100, resolver: None } if signer == ALICE && payee == BOB));
    let multi = derive_multi_id(&AccountSigners::new(BOB, ALICE, None));
    let reference = derive_reference_no(&ALICE, &BOB, &multi);
    let refused = wallet.place_vane_confirm(&mut payment, CHARLIE, ALICE, reference.clone(), 2, b"pw".to_vec(), 2);
    assert_eq!(refused.unwrap_err(), WalletLessError::CallDispatchFailed);
    let confirmed = wallet.place_vane_confirm(&mut payment, CHARLIE, BOB, reference.clone(), 1, b"pw".to_vec(), 2).unwrap();
    assert_eq!(confirmed.len(), 1);
    let pool = wallet.payment_call_mem_pool.get(b"pw").unwrap();
    assert_eq!(pool.len(), 2);
    assert!(matches!(&pool[1], PaymentCalls::ConfirmPay { signer, who: Confirm::Payee, .. } if *signer == BOB));
    assert_eq!(payment.confirmed_signers.get(&reference).unwrap(), &vec![BOB]);
    assert!(wallet.place_vane_revert(ALICE).is_ok());
}

#[test]
fn try_place_vane_pay_needs_a_delegated_signer() {
    let mut wallet = WalletLessState::new();
    let mut payment = PaymentState::new();
    assert_eq!(
        wallet.try_place_vane_pay(&mut payment, CHARLIE, ALICE, BOB, 100, b"pw".to_vec(), 1).unwrap().unwrap_err(),
        WalletLessError::UnAuthorized
    );
    assert_eq!(
        wallet.place_vane_confirm(&mut payment, CHARLIE, BOB, b"r".to_vec(), 1, b"pw".to_vec(), 1).unwrap_err(),
        WalletLessError::UnAuthorized
    );
    assert!(wallet.payment_call_mem_pool.get(b"pw").is_none());
    wallet.set_delegated_signer(Origin::Root, CHARLIE).unwrap();
    let effects = wallet.try_place_vane_pay(&mut payment, CHARLIE, ALICE, BOB, 100, b"pw".to_vec(), 1).unwrap().unwrap();
    assert_eq!(effects.len(), 5);
    assert!(wallet.try_place_vane_pay(&mut payment, CHARLIE, ALICE, BOB, u128::MAX, b"pw".to_vec(), 2).is_none());
    assert_eq!(
        wallet.try_place_vane_pay(&mut payment, ALICE, ALICE, BOB, 1, b"pw".to_vec(), 2).unwrap().unwrap_err(),
        WalletLessError::UnAuthorized
    );
}

#[test]
fn order_payment_released_after_both_confirm() {
    let register = seller_with_product(1, 10);
    let mut orders = OrderState::new();
    orders.payer_order.insert(ALICE.to_vec(), vec![previous_order(4, 10)]);
    orders.place_order(&register, ALICE, 1, BOB, 5).unwrap();
    let mut payment = PaymentState::new();
    payment.vane_order_pay(&register, &orders, ALICE, BOB, 1, None, 6).unwrap();
    let multi = derive_multi_id(&AccountSigners::new(BOB, ALICE, None));
    let reference = derive_reference_no(&ALICE, &BOB, &multi);
    let ticket = &payment.payer_txn_ticket_order.get(&[ALICE, BOB].concat()).unwrap()[0];
    assert_eq!(ticket.reference_no, reference);
    assert_eq!(ticket.amount, 10);
    payment.confirm_pay(BOB, Confirm::Payee, reference.clone(), 7).unwrap();
    let released = payment.confirm_pay(ALICE, Confirm::Payer, reference.clone(), 8).unwrap();
    assert!(matches!(released[1], Effect::TransferAll { from, to, keep_alive: false } if from == multi && to == BOB));
}

#[test]
fn vane_order_pay_takes_the_buyers_reference_for_the_item() {
    let register = seller_with_product(1, 10);
    let mut orders = OrderState::new();
    orders.payer_order.insert(ALICE.to_vec(), vec![previous_order(4, 10), previous_order(5, 33)]);
    orders.payee_order_ref.insert(BOB.to_vec(), vec![(CHARLIE, 1, 99), (ALICE, 2, 4), (ALICE, 1, 5)]);
    let mut payment = PaymentState::new();
    assert_eq!(
        payment.vane_order_pay(&register, &orders, CHARLIE, BOB, 1, None, 6).unwrap_err(),
        PaymentError::OrderNotFound
    );
    let effects = payment.vane_order_pay(&register, &orders, ALICE, BOB, 1, None, 6).unwrap();
    assert!(matches!(effects[2], Effect::Transfer { from, amount: 33, .. } if from == ALICE));
    let mut no_refs = OrderState::new();
    no_refs.payer_order.insert(ALICE.to_vec(), vec![previous_order(4, 10)]);
    assert_eq!(
        payment.vane_order_pay(&register, &no_refs, ALICE, BOB, 1, None, 7).unwrap_err(),
        PaymentError::OrderNotFound
    );
}
