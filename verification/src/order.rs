//! Orders that payers place for payees' products.
use vstd::prelude::*;
use crate::byte_map::{ByteMap, seq_at, push_to_list};
use crate::bytes::{AccountId, BlockNumber, account_eq, account_key};
use crate::effects::{Effect, Event};
use crate::register::{RegisterState, first_product_for, position_of_product};

verus! {

/// Where an order stands.
#[derive(Clone, Copy, Debug, PartialEq, Eq, Structural)]
pub enum OrderStatus {
    Completed,
    Initiated,
    Halted,
    Pending,
    TimeOut,
    CancelledByPayer,
    CancelledByPayee,
}

/// An order for a product.
#[derive(Clone, Copy, Debug, PartialEq, Eq)]
pub struct Order {
    pub order_no: u32,
    pub item_id: u32,
    pub payee_id: AccountId,
    pub payer_id: AccountId,
    pub amount: u128,
    pub ordered_time: BlockNumber,
    pub expected_time: BlockNumber,
    pub status: OrderStatus,
}

impl Order {
    /// A new order, initiated.
    pub fn new(
        order_no: u32,
        item_id: u32,
        amount: u128,
        payee_id: AccountId,
        payer_id: AccountId,
        order_time: BlockNumber,
        expect_time: BlockNumber,
    ) -> (r: Self)
        ensures
            r == (Order {
                order_no,
                item_id,
                payee_id,
                payer_id,
                amount,
                ordered_time: order_time,
                expected_time: expect_time,
                status: OrderStatus::Initiated,
            }),
    {
        Order {
            order_no,
            item_id,
            payee_id,
            amount,
            payer_id,
            ordered_time: order_time,
            expected_time: expect_time,
            status: OrderStatus::Initiated,
        }
    }
}

/// What the payment pallet may ask of an order.
pub trait OrderTrait {
    /// The order's number.
    fn get_order_number(&self) -> u32;
}

impl OrderTrait for Order {
    /// The order's number.
    fn get_order_number(&self) -> (r: u32)
        ensures
            r == self.order_no,
    {
        self.order_no
    }
}

/// The errors of the order pallet.
#[derive(Clone, Copy, Debug, PartialEq, Eq, Structural)]
pub enum OrderError {
    ProductDontExist,
    UnexpectedError,
}

/// The storage of the order pallet: each payer's orders, and for each payee
/// the (payer, item, order number) of the orders placed with it.
pub struct OrderState {
    pub payer_order: ByteMap<Vec<Order>>,
    pub payee_order_ref: ByteMap<Vec<(AccountId, u32, u32)>>,
}

/// Order `i` is the first in `s` placed with `payee`.
pub open spec fn first_order_with(s: Seq<Order>, payee: AccountId, i: int) -> bool {
    &&& 0 <= i < s.len()
    &&& s[i].payee_id == payee
    &&& forall|j: int| 0 <= j < i ==> s[j].payee_id != payee
}

/// The order that `place_order` records, given the product's position `p`
/// and the position `o` of the payer's first order with the seller.
pub open spec fn placed_order(
    products: Seq<crate::register::ProductProfile>,
    orders: Seq<Order>,
    p: int,
    o: int,
    payer: AccountId,
    item_id: u32,
    seller: AccountId,
    now: BlockNumber,
) -> Order {
    Order {
        order_no: (orders[o].order_no + 1) as u32,
        item_id,
        payee_id: seller,
        payer_id: payer,
        amount: products[p].amount,
        ordered_time: now,
        expected_time: (now + now) as u64,
        status: OrderStatus::Initiated,
    }
}

/// `place_order` returns on these inputs: where the product exists, the payer
/// has an order with the seller already, the next order number fits, and so
/// does twice the block number.
pub open spec fn place_order_returns(
    orders: Seq<Order>,
    products: Seq<crate::register::ProductProfile>,
    item_id: u32,
    seller: AccountId,
    now: BlockNumber,
) -> bool {
    (exists|p: int| first_product_for(products, item_id, p)) ==> {
        &&& exists|o: int| first_order_with(orders, seller, o)
        &&& forall|o: int| #[trigger] first_order_with(orders, seller, o) ==> orders[o].order_no < u32::MAX
        &&& now + now <= u64::MAX
    }
}

/// The position of the first order in `v` placed with `payee`, if there is one.
pub fn position_of_order_with(v: &Vec<Order>, payee: &AccountId) -> (r: Option<usize>)
    ensures
        match r {
            Some(i) => first_order_with(v@, *payee, i as int),
            None => forall|j: int| 0 <= j < v@.len() ==> v@[j].payee_id != *payee,
        },
{
    let n = v.len();
    let mut i: usize = 0;
    while i < n
        invariant
            n == v@.len(),
            i <= n,
            forall|j: int| 0 <= j < i ==> v@[j].payee_id != *payee,
        decreases n - i,
    {
        if account_eq(&v[i].payee_id, payee) {
            return Some(i);
        }
        i = i + 1;
    }
    None
}

proof fn lemma_first_unique<A>(s: Seq<A>, f: spec_fn(A) -> bool, i: int, k: int)
    requires
        0 <= i < s.len(),
        0 <= k < s.len(),
        f(s[i]),
        f(s[k]),
        forall|j: int| 0 <= j < i ==> !f(s[j]),
        forall|j: int| 0 <= j < k ==> !f(s[j]),
    ensures
        i == k,
{
    if i < k {
        assert(!f(s[i]));
    } else if k < i {
        assert(!f(s[k]));
    }
}

impl OrderState {
    /// Empty storage.
    pub fn new() -> (r: Self)
        ensures
            r.payer_order@ == Map::<Seq<u8>, Vec<Order>>::empty(),
            r.payee_order_ref@ == Map::<Seq<u8>, Vec<(AccountId, u32, u32)>>::empty(),
    {
        OrderState { payer_order: ByteMap::new(), payee_order_ref: ByteMap::new() }
    }

    /// Whether `place_order` returns for these inputs (rather than panic).
    pub fn place_order_returns(
        &self,
        register: &RegisterState,
        payer: &AccountId,
        item_id: u32,
        seller_id: &AccountId,
        now: BlockNumber,
    ) -> (r: bool)
        ensures
            r == place_order_returns(
                seq_at(self.payer_order@, payer@),
                seq_at(register.payee_products@, seller_id@),
                item_id,
                *seller_id,
                now,
            ),
    {
        let ghost orders = seq_at(self.payer_order@, payer@);
        let ghost products = seq_at(register.payee_products@, seller_id@);
        let found = match register.payee_products.get(account_key(seller_id).as_slice()) {
            Some(products) => position_of_product(products, item_id).is_some(),
            None => false,
        };
        if !found {
            return true;
        }
        let ok = match self.payer_order.get(account_key(payer).as_slice()) {
            Some(v) => match position_of_order_with(v, seller_id) {
                Some(o) => {
                    proof {
                        assert forall|k: int| #[trigger] first_order_with(orders, *seller_id, k)
                            implies k == o as int by {
                            lemma_first_unique(orders, |x: Order| x.payee_id == *seller_id, o as int, k);
                        }
                    }
                    v[o].order_no < u32::MAX && now <= u64::MAX - now
                }
                None => false,
            },
            None => false,
        };
        ok
    }

    /// Places an order by `payer` for item `item_id` of `seller_id`: a new
    /// order numbered one past the payer's first order with the seller, for the
    /// product's amount, due twice the current block number.
    pub fn place_order(
        &mut self,
        register: &RegisterState,
        payer: AccountId,
        item_id: u32,
        seller_id: AccountId,
        now: BlockNumber,
    ) -> (r: Result<Vec<Effect>, OrderError>)
        requires
            place_order_returns(
                seq_at(old(self).payer_order@, payer@),
                seq_at(register.payee_products@, seller_id@),
                item_id,
                seller_id,
                now,
            ),
        ensures
            ({
                let products = seq_at(register.payee_products@, seller_id@);
                let orders = seq_at(old(self).payer_order@, payer@);
                &&& (forall|p: int| !#[trigger] first_product_for(products, item_id, p)) ==> {
                    &&& r == Err::<Vec<Effect>, OrderError>(OrderError::ProductDontExist)
                    &&& final(self).payer_order@ == old(self).payer_order@
                    &&& final(self).payee_order_ref@ == old(self).payee_order_ref@
                }
                &&& forall|p: int, o: int|
                    #[trigger] first_product_for(products, item_id, p)
                        && #[trigger] first_order_with(orders, seller_id, o) ==> {
                        let order = placed_order(products, orders, p, o, payer, item_id, seller_id, now);
                        &&& r is Ok
                        &&& final(self).payer_order@ == old(self).payer_order@.insert(
                            payer@,
                            final(self).payer_order@[payer@],
                        )
                        &&& final(self).payer_order@[payer@]@ == orders.push(order)
                        &&& final(self).payee_order_ref@ == old(self).payee_order_ref@.insert(
                            seller_id@,
                            final(self).payee_order_ref@[seller_id@],
                        )
                        &&& final(self).payee_order_ref@[seller_id@]@ == seq_at(
                            old(self).payee_order_ref@,
                            seller_id@,
                        ).push((payer, item_id, order.order_no))
                        &&& r->Ok_0@ == seq![Effect::Deposit(Event::OrderPlaced {
                            buyer: payer,
                            order_no: order.order_no,
                            item_id,
                            seller: seller_id,
                        })]
                    }
            }),
    {
        let ghost products_s = seq_at(register.payee_products@, seller_id@);
        let ghost orders_s = seq_at(old(self).payer_order@, payer@);
        let seller_key = account_key(&seller_id);
        let payer_key = account_key(&payer);
        let (amount, p_idx) = match register.payee_products.get(seller_key.as_slice()) {
            Some(products) => match position_of_product(products, item_id) {
                Some(p) => (products[p].amount, p),
                None => { return Err(OrderError::ProductDontExist); }
            },
            None => { return Err(OrderError::ProductDontExist); }
        };
        assert(first_product_for(products_s, item_id, p_idx as int));
        let (order_no, o_idx) = match self.payer_order.get(payer_key.as_slice()) {
            Some(v) => match position_of_order_with(v, &seller_id) {
                Some(o) => (v[o].order_no + 1, o),
                None => {
                    assert(!first_order_with(orders_s, seller_id, choose|o: int| first_order_with(orders_s, seller_id, o)));
                    assert(false);
                    return Err(OrderError::UnexpectedError);
                }
            },
            None => {
                assert(!first_order_with(orders_s, seller_id, choose|o: int| first_order_with(orders_s, seller_id, o)));
                assert(false);
                return Err(OrderError::UnexpectedError);
            }
        };
        let expected_time = now + now;
        let order = Order::new(order_no, item_id, amount, seller_id, payer, now, expected_time);
        push_to_list(&mut self.payer_order, payer_key, order);
        push_to_list(&mut self.payee_order_ref, seller_key, (payer, item_id, order_no));
        let mut effects: Vec<Effect> = Vec::new();
        effects.push(Effect::Deposit(Event::OrderPlaced { buyer: payer, item_id, order_no, seller: seller_id }));
        proof {
            assert forall|p: int, o: int|
                #[trigger] first_product_for(products_s, item_id, p)
                    && #[trigger] first_order_with(orders_s, seller_id, o)
                implies p == p_idx as int && o == o_idx as int by {
                lemma_first_unique(products_s, |x: crate::register::ProductProfile| x.product_id == item_id, p_idx as int, p);
                lemma_first_unique(orders_s, |x: Order| x.payee_id == seller_id, o_idx as int, o);
            }
            let m = final(self).payer_order@;
            assert(m =~= old(self).payer_order@.insert(payer@, m[payer@]));
            let m2 = final(self).payee_order_ref@;
            assert(m2 =~= old(self).payee_order_ref@.insert(seller_id@, m2[seller_id@]));
            assert(effects@ =~= seq![Effect::Deposit(Event::OrderPlaced { buyer: payer, order_no, item_id, seller: seller_id })]);
        }
        Ok(effects)
    }
}

} // verus!
