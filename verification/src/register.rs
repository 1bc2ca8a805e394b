//! Registration of payers and payees, and the payees' products.
use vstd::prelude::*;
use crate::byte_map::{ByteMap, seq_at, push_to_list};
use crate::bytes::{AccountId, BlockNumber, account_key};
use crate::effects::{Effect, Event};

verus! {

/// The most bytes a Vane identifier holds.
pub const MAX_VANE_ID: usize = 5;

/// A short identifier derived from a payer's KYC data.
#[derive(Debug)]
pub struct VaneId(pub Vec<u8>);

/// A payer's profile.
#[derive(Debug)]
pub struct PayerAccountProfile {
    pub name: Option<Vec<u8>>,
    pub id: VaneId,
    pub email: Option<Vec<u8>>,
    pub account_id: AccountId,
    pub orders_completed: Option<u16>,
    pub genesis_time: BlockNumber,
}

impl PayerAccountProfile {
    /// A new profile, with no order completed yet.
    pub fn new(
        name: Option<Vec<u8>>,
        id: VaneId,
        email: Option<Vec<u8>>,
        account_id: AccountId,
        time: BlockNumber,
    ) -> (r: Self)
        ensures
            r.name == name,
            r.id == id,
            r.email == email,
            r.account_id == account_id,
            r.orders_completed is None,
            r.genesis_time == time,
    {
        PayerAccountProfile { name, id, email, account_id, orders_completed: None, genesis_time: time }
    }
}

/// A product that a payee offers.
#[derive(Debug)]
pub struct ProductProfile {
    pub image_url: Option<Vec<u8>>,
    pub product_id: u32,
    pub seller: AccountId,
    pub link: Vec<u8>,
    pub amount: u128,
}

impl ProductProfile {
    /// A product with the given fields.
    pub fn new(
        image_url: Option<Vec<u8>>,
        amount: u128,
        product_id: u32,
        seller: AccountId,
        link: Vec<u8>,
    ) -> (r: Self)
        ensures
            r.image_url == image_url,
            r.amount == amount,
            r.product_id == product_id,
            r.seller == seller,
            r.link == link,
    {
        ProductProfile { image_url, product_id, amount, seller, link }
    }
}

/// What to do with a product.
#[derive(Clone, Copy, Debug, PartialEq, Eq, Structural)]
pub enum Actions {
    Add,
    Remove,
}

/// A payee's profile.
#[derive(Debug)]
pub struct PayeeAccountProfile {
    pub name: Vec<u8>,
    pub account_id: AccountId,
    pub location: Vec<u8>,
    pub ig_link: Vec<u8>,
    pub orders_completed: Option<u32>,
    pub orders_failed: Option<u16>,
    pub time_average: Option<u32>,
    pub genesis_time: BlockNumber,
}

impl PayeeAccountProfile {
    /// A new profile, with no order counted yet.
    pub fn new(
        name: Vec<u8>,
        account_id: AccountId,
        location: Vec<u8>,
        ig_link: Vec<u8>,
        time: BlockNumber,
    ) -> (r: Self)
        ensures
            r.name == name,
            r.account_id == account_id,
            r.location == location,
            r.ig_link == ig_link,
            r.orders_completed is None,
            r.orders_failed is None,
            r.time_average is None,
            r.genesis_time == time,
    {
        PayeeAccountProfile {
            name,
            account_id,
            location,
            ig_link,
            orders_completed: None,
            orders_failed: None,
            time_average: None,
            genesis_time: time,
        }
    }
}

/// The errors of the registration pallet.
#[derive(Clone, Copy, Debug, PartialEq, Eq, Structural)]
pub enum RegisterError {
    AccountAlreadyRegistered,
    UserIsNotRegistered,
}

/// The storage of the registration pallet, each map keyed by an account.
pub struct RegisterState {
    pub payee_storage: ByteMap<PayeeAccountProfile>,
    pub payer_storage: ByteMap<PayerAccountProfile>,
    pub payee_products: ByteMap<Vec<ProductProfile>>,
}

impl RegisterState {
    /// Empty storage.
    pub fn new() -> (r: Self)
        ensures
            r.payee_storage@ == Map::<Seq<u8>, PayeeAccountProfile>::empty(),
            r.payer_storage@ == Map::<Seq<u8>, PayerAccountProfile>::empty(),
            r.payee_products@ == Map::<Seq<u8>, Vec<ProductProfile>>::empty(),
    {
        RegisterState {
            payee_storage: ByteMap::new(),
            payer_storage: ByteMap::new(),
            payee_products: ByteMap::new(),
        }
    }

    /// Whether `register_payer` panics for `signer`: it does whenever the
    /// signer has a payer profile, for the identifier that it derives is longer
    /// than a Vane identifier can be.
    pub fn register_payer_panics(&self, signer: &AccountId) -> (r: bool)
        ensures
            r == self.payer_storage@.dom().contains(signer@),
    {
        self.payer_storage.contains_key(account_key(signer).as_slice())
    }

    /// Registers `signer` as a payer. The check that guards the registration
    /// refuses a signer without a profile, and for a signer with one the call
    /// panics; so on the inputs where it returns, it refuses.
    pub fn register_payer(
        &mut self,
        signer: AccountId,
        name: Option<Vec<u8>>,
        email: Option<Vec<u8>>,
        kyc: Option<Vec<u8>>,
        now: BlockNumber,
    ) -> (r: Result<Vec<Effect>, RegisterError>)
        requires
            !old(self).payer_storage@.dom().contains(signer@),
        ensures
            r == Err::<Vec<Effect>, RegisterError>(RegisterError::AccountAlreadyRegistered),
            final(self).payee_storage@ == old(self).payee_storage@,
            final(self).payer_storage@ == old(self).payer_storage@,
            final(self).payee_products@ == old(self).payee_products@,
    {
        let registered = self.payer_storage.contains_key(account_key(&signer).as_slice());
        if !registered {
            return Err(RegisterError::AccountAlreadyRegistered);
        }
        Err(RegisterError::AccountAlreadyRegistered)
    }

    /// Registers `signer` as a payee. The check that guards it lets through
    /// only a signer that already has a payee profile, whose profile is then
    /// replaced by a new one.
    pub fn register_payee(
        &mut self,
        signer: AccountId,
        name: Vec<u8>,
        ig_link: Vec<u8>,
        location: Vec<u8>,
        now: BlockNumber,
    ) -> (r: Result<Vec<Effect>, RegisterError>)
        ensures
            !old(self).payee_storage@.dom().contains(signer@) ==> {
                &&& r == Err::<Vec<Effect>, RegisterError>(RegisterError::AccountAlreadyRegistered)
                &&& final(self).payee_storage@ == old(self).payee_storage@
            },
            old(self).payee_storage@.dom().contains(signer@) ==> {
                &&& r is Ok
                &&& final(self).payee_storage@ == old(self).payee_storage@.insert(
                    signer@,
                    final(self).payee_storage@[signer@],
                )
                &&& final(self).payee_storage@[signer@].name == name
                &&& final(self).payee_storage@[signer@].account_id == signer
                &&& final(self).payee_storage@[signer@].location == location
                &&& final(self).payee_storage@[signer@].ig_link == ig_link
                &&& final(self).payee_storage@[signer@].orders_completed is None
                &&& final(self).payee_storage@[signer@].orders_failed is None
                &&& final(self).payee_storage@[signer@].time_average is None
                &&& final(self).payee_storage@[signer@].genesis_time == now
                &&& r->Ok_0@.len() == 1
                &&& r->Ok_0@[0] == Effect::Deposit(Event::PayeeRegistered { id: signer, time: now })
            },
            final(self).payer_storage@ == old(self).payer_storage@,
            final(self).payee_products@ == old(self).payee_products@,
    {
        let key = account_key(&signer);
        if !self.payee_storage.contains_key(key.as_slice()) {
            return Err(RegisterError::AccountAlreadyRegistered);
        }
        let acc_profile = PayeeAccountProfile::new(name, signer, location, ig_link, now);
        self.payee_storage.insert(key, acc_profile);
        let mut effects: Vec<Effect> = Vec::new();
        effects.push(Effect::Deposit(Event::PayeeRegistered { id: signer, time: now }));
        Ok(effects)
    }

    /// Adds a product to the list of a registered seller.
    pub fn update_products(
        &mut self,
        seller: AccountId,
        product_id: u32,
        link: Vec<u8>,
        amount: u128,
        image_url: Option<Vec<u8>>,
    ) -> (r: Result<(), RegisterError>)
        ensures
            !old(self).payee_storage@.dom().contains(seller@) ==> {
                &&& r == Err::<(), RegisterError>(RegisterError::UserIsNotRegistered)
                &&& final(self).payee_products@ == old(self).payee_products@
            },
            old(self).payee_storage@.dom().contains(seller@) ==> {
                &&& r is Ok
                &&& final(self).payee_products@ == old(self).payee_products@.insert(
                    seller@,
                    final(self).payee_products@[seller@],
                )
                &&& final(self).payee_products@[seller@]@.len() == seq_at(old(self).payee_products@, seller@).len() + 1
                &&& final(self).payee_products@[seller@]@.drop_last() == seq_at(old(self).payee_products@, seller@)
                &&& final(self).payee_products@[seller@]@.last().product_id == product_id
                &&& final(self).payee_products@[seller@]@.last().seller == seller
                &&& final(self).payee_products@[seller@]@.last().link == link
                &&& final(self).payee_products@[seller@]@.last().amount == amount
                &&& final(self).payee_products@[seller@]@.last().image_url == image_url
            },
            final(self).payee_storage@ == old(self).payee_storage@,
            final(self).payer_storage@ == old(self).payer_storage@,
    {
        let key = account_key(&seller);
        if !self.payee_storage.contains_key(key.as_slice()) {
            return Err(RegisterError::UserIsNotRegistered);
        }
        let product = ProductProfile::new(image_url, amount, product_id, seller, link);
        push_to_list(&mut self.payee_products, key, product);
        proof {
            let m = final(self).payee_products@;
            assert(m =~= old(self).payee_products@.insert(seller@, m[seller@]));
            assert(m[seller@]@.drop_last() =~= seq_at(old(self).payee_products@, seller@));
        }
        Ok(())
    }
}

/// Product `i` is the first in `s` with id `item_id`.
pub open spec fn first_product_for(s: Seq<ProductProfile>, item_id: u32, i: int) -> bool {
    &&& 0 <= i < s.len()
    &&& s[i].product_id == item_id
    &&& forall|j: int| 0 <= j < i ==> s[j].product_id != item_id
}

/// The position of the first product in `v` with id `item_id`, if there is one.
pub fn position_of_product(v: &Vec<ProductProfile>, item_id: u32) -> (r: Option<usize>)
    ensures
        match r {
            Some(i) => first_product_for(v@, item_id, i as int),
            None => forall|j: int| 0 <= j < v@.len() ==> v@[j].product_id != item_id,
        },
{
    let n = v.len();
    let mut i: usize = 0;
    while i < n
        invariant
            n == v@.len(),
            i <= n,
            forall|j: int| 0 <= j < i ==> v@[j].product_id != item_id,
        decreases n - i,
    {
        if v[i].product_id == item_id {
            return Some(i);
        }
        i = i + 1;
    }
    None
}

} // verus!
