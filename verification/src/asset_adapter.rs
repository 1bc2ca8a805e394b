//! How the chain reads incoming cross-chain assets: which locations and assets
//! it accepts, what currency they stand for, and what the asset transactor
//! does with a deposit, a withdrawal or a transfer.
use vstd::prelude::*;
use crate::bytes::{AccountId, BlockNumber};
use crate::effects::{CurrencyId, Effect};
use crate::transfer_system::{TransferSystemState, can_transfer, transfer_recorded};
use crate::xcm::XcmError;

verus! {

/// A step inside a location.
#[derive(Clone, Copy, Debug, PartialEq, Eq)]
pub enum Junction {
    Parachain(u32),
    AccountId32 { id: AccountId },
    PalletInstance(u8),
    GeneralIndex(u128),
}

/// A location relative to this chain: `parents` steps up, then the junctions.
#[derive(Debug)]
pub struct Location {
    pub parents: u8,
    pub interior: Vec<Junction>,
}

/// How an asset is named.
#[derive(Debug)]
pub enum AssetId {
    /// By the location that issues it.
    Concrete(Location),
    /// By an opaque name.
    Abstract([u8; 32]),
}

/// How much of an asset, or which instance.
#[derive(Clone, Copy, Debug, PartialEq, Eq)]
pub enum Fungibility {
    Fungible(u128),
    NonFungible(u128),
}

/// An amount of an asset.
#[derive(Debug)]
pub struct Asset {
    pub id: AssetId,
    pub fun: Fungibility,
}

/// The errors of the asset transactor.
#[derive(Clone, Copy, Debug, PartialEq, Eq, Structural)]
pub enum TransactError {
    AccountIdConversionFailed,
    AssetIdConversionFailed,
    AssetNotHandled,
    FailedToTransactAsset,
}

/// The origin was not accepted as an asset creator.
#[derive(Clone, Copy, Debug, PartialEq, Eq, Structural)]
pub struct OriginRejected;

/// The location is the relay chain: one step up, nothing inside.
pub open spec fn is_relay(location: Location) -> bool {
    location.parents == 1 && location.interior@.len() == 0
}

/// Whether a currency and a location form an accepted derivative: the relay
/// chain is the reserve of DOT, and of nothing else.
pub fn contains_currency(a: CurrencyId, b: &Location) -> (r: bool)
    ensures
        r == (is_relay(*b) && a == CurrencyId::DOT),
{
    b.parents == 1 && b.interior.len() == 0 && a == CurrencyId::DOT
}

/// Whether an asset and a location form an accepted derivative: only the
/// relay chain is accepted, whatever the asset.
pub fn contains_asset(a: &Asset, b: &Location) -> (r: bool)
    ensures
        r == is_relay(*b),
{
    b.parents == 1 && b.interior.len() == 0
}

/// The currency that an asset stands for: DOT, for every asset.
pub fn convert_asset(asset: &Asset) -> (r: Option<CurrencyId>)
    ensures
        r == Some(CurrencyId::DOT),
{
    Some(CurrencyId::DOT)
}

/// The currency that a location stands for: DOT, for every location.
pub fn convert_location(location: &Location) -> (r: Option<CurrencyId>)
    ensures
        r == Some(CurrencyId::DOT),
{
    Some(CurrencyId::DOT)
}

/// The location of a currency: the relay chain for DOT, none for the others.
pub fn convert_currency(asset: CurrencyId) -> (r: Option<Location>)
    ensures
        asset == CurrencyId::DOT ==> r is Some && is_relay(r->Some_0),
        asset != CurrencyId::DOT ==> r is None,
{
    if asset == CurrencyId::DOT {
        Some(Location { parents: 1, interior: Vec::new() })
    } else {
        None
    }
}

/// The amount of a fungible asset named by a location whose currency is
/// known (every location's is).
pub fn matches_fungible(a: &Asset) -> (r: Option<u128>)
    ensures
        a.fun matches Fungibility::Fungible(x) ==> (a.id is Concrete ==> r == Some(x)),
        !(a.fun is Fungible && a.id is Concrete) ==> r is None,
{
    match (&a.fun, &a.id) {
        (Fungibility::Fungible(amount), AssetId::Concrete(location)) => {
            if convert_location(location).is_some() {
                Some(*amount)
            } else {
                None
            }
        }
        _ => None,
    }
}

/// Whether an origin may create an asset: its location (absent where the
/// origin is not a cross-chain one) must be the relay chain, the asset DOT,
/// and the account that it converts to (`converted`) must exist.
pub fn foreign_creator_origin(
    origin_location: Option<Location>,
    asset_location: CurrencyId,
    converted: Option<AccountId>,
) -> (r: Result<AccountId, OriginRejected>)
    ensures
        match origin_location {
            None => r is Err,
            Some(l) => if !(is_relay(l) && asset_location == CurrencyId::DOT) {
                r is Err
            } else {
                match converted {
                    Some(acc) => r == Ok::<AccountId, OriginRejected>(acc),
                    None => r is Err,
                }
            },
        },
{
    let location = match origin_location {
        Some(l) => l,
        None => { return Err(OriginRejected); }
    };
    if !contains_currency(asset_location, &location) {
        return Err(OriginRejected);
    }
    match converted {
        Some(acc) => Ok(acc),
        None => Err(OriginRejected),
    }
}

/// The transactor's deposit: given the receiver, currency and amount that the
/// asset and location convert to, a deposit of that amount. An asset that
/// does not convert goes to the unknown-asset handler, which refuses it, and
/// the transactor panics on a refused deposit.
pub fn deposit_asset(
    receiver: Option<AccountId>,
    currency_id: Option<CurrencyId>,
    amount: Option<u128>,
) -> (r: Effect)
    requires
        receiver is Some,
        currency_id is Some,
        amount is Some,
    ensures
        r == (Effect::DepositAsset {
            asset: currency_id->Some_0,
            who: receiver->Some_0,
            amount: amount->Some_0,
        }),
{
    match (receiver, currency_id, amount) {
        (Some(who), Some(asset), Some(amount)) => TransferSystemState::deposit(asset, who, amount),
        _ => Effect::DepositAsset { asset: CurrencyId::DOT, who: [0u8; 32], amount: 0 },
    }
}

/// The transactor's withdrawal: the unknown-asset handler refuses every
/// asset, so the asset must convert to an account, a currency and an amount,
/// in that order, or the withdrawal fails; otherwise that amount is withdrawn.
pub fn withdraw_asset(
    who: Option<AccountId>,
    currency_id: Option<CurrencyId>,
    amount: Option<u128>,
) -> (r: Result<Effect, TransactError>)
    ensures
        who is None ==> r == Err::<Effect, TransactError>(TransactError::AccountIdConversionFailed),
        who is Some && currency_id is None ==> r == Err::<Effect, TransactError>(TransactError::AssetIdConversionFailed),
        who is Some && currency_id is Some && amount is None ==> r == Err::<Effect, TransactError>(TransactError::AssetNotHandled),
        who is Some && currency_id is Some && amount is Some ==> r == Ok::<Effect, TransactError>(
            Effect::WithdrawAsset { asset: currency_id->Some_0, who: who->Some_0, amount: amount->Some_0 },
        ),
{
    let who = match who {
        Some(w) => w,
        None => { return Err(TransactError::AccountIdConversionFailed); }
    };
    let currency_id = match currency_id {
        Some(c) => c,
        None => { return Err(TransactError::AssetIdConversionFailed); }
    };
    let amount = match amount {
        Some(a) => a,
        None => { return Err(TransactError::AssetNotHandled); }
    };
    Ok(TransferSystemState::withdraw(currency_id, who, amount))
}

/// The transactor's transfer: the source, the destination, the currency and
/// the amount must convert, in that order; then the multi-currency transfer
/// locks the amount in the two parties' multi-signature account.
pub fn transfer_asset(
    state: &mut TransferSystemState,
    from: Option<AccountId>,
    to: Option<AccountId>,
    currency_id: Option<CurrencyId>,
    amount: Option<u128>,
    now: BlockNumber,
) -> (r: Result<Vec<Effect>, TransactError>)
    requires
        from is Some && to is Some && currency_id is Some && amount is Some
            ==> can_transfer(*old(state), from->Some_0, to->Some_0, amount->Some_0),
    ensures
        from is None ==> r == Err::<Vec<Effect>, TransactError>(TransactError::AccountIdConversionFailed),
        from is Some && to is None ==> r == Err::<Vec<Effect>, TransactError>(TransactError::AccountIdConversionFailed),
        from is Some && to is Some && currency_id is None ==> r == Err::<Vec<Effect>, TransactError>(TransactError::AssetIdConversionFailed),
        from is Some && to is Some && currency_id is Some && amount is None ==> r == Err::<Vec<Effect>, TransactError>(TransactError::AssetNotHandled),
        r is Err ==> crate::transfer_system::same_transfer_state(*final(state), *old(state)),
        from is Some && to is Some && currency_id is Some && amount is Some ==> r is Ok && transfer_recorded(
            *final(state),
            *old(state),
            currency_id->Some_0,
            from->Some_0,
            to->Some_0,
            amount->Some_0,
            now,
            Ok::<Vec<Effect>, XcmError>(r->Ok_0),
        ),
{
    let from = match from {
        Some(a) => a,
        None => { return Err(TransactError::AccountIdConversionFailed); }
    };
    let to = match to {
        Some(a) => a,
        None => { return Err(TransactError::AccountIdConversionFailed); }
    };
    let currency_id = match currency_id {
        Some(c) => c,
        None => { return Err(TransactError::AssetIdConversionFailed); }
    };
    let amount = match amount {
        Some(a) => a,
        None => { return Err(TransactError::AssetNotHandled); }
    };
    match state.multi_currency_transfer(currency_id, from, to, amount, now) {
        Ok(effects) => Ok(effects),
        Err(_) => Err(TransactError::FailedToTransactAsset),
    }
}

} // verus!
