//! What the pallets ask of the chain: events to deposit and work on balances,
//! assets and messages that the runtime performs.
use vstd::prelude::*;
use crate::bytes::{AccountId, BlockNumber};

verus! {

/// The token that a payment is made in.
#[derive(Clone, Copy, Debug, PartialEq, Eq, Structural)]
pub enum Token {
    DOT,
    USDT,
}

/// Where a cross-chain transfer stands.
#[derive(Clone, Copy, Debug, PartialEq, Eq, Structural)]
pub enum XcmStatus {
    Sent,
    Completed,
    Tbc,
}

/// The assets that the chain holds derivatives of.
#[derive(Clone, Copy, Debug, PartialEq, Eq, Structural)]
pub enum CurrencyId {
    DOT,
    USDT,
    USDC,
}

/// Which dispute resolution a payer asked for.
#[derive(Clone, Copy, Debug, PartialEq, Eq, Structural)]
pub enum ResolverChoice {
    LegalTeam,
    Governance,
}

/// A message to the relay chain that moves funds out of the chain's sovereign
/// account to an account there.
#[derive(Clone, Copy, Debug)]
pub enum RelayMessage {
    /// `TransferAsset` of `amount` of the relay's native token to `beneficiary`.
    TransferAsset { amount: u128, beneficiary: AccountId },
    /// `WithdrawAsset` of `amount`, `BuyExecution` paying `amount` with no
    /// weight limit, then `DepositAsset` of everything to `beneficiary`.
    WithdrawBuyDeposit { amount: u128, beneficiary: AccountId },
}

/// The events that the pallets deposit.
#[derive(Debug)]
pub enum Event {
    /// Funds left a multi-signature account.
    CallExecuted { multi_id: AccountId, timestamp: BlockNumber },
    /// A multi-signature account was set up for a payment.
    MultiAccountCreated { account_id: AccountId, timestamp: BlockNumber },
    /// A payer's funds were moved into the multi-signature account.
    BalanceTransferredAndLocked {
        to_multi_id: AccountId,
        from: AccountId,
        timestamp: BlockNumber,
        reference_no: Vec<u8>,
    },
    /// The payee confirmed a payment.
    PayeeAddressConfirmed { account_id: AccountId, timestamp: BlockNumber, reference_no: Vec<u8> },
    /// The payer confirmed a payment.
    PayerAddressConfirmed { account_id: AccountId, timestamp: BlockNumber, reference_no: Vec<u8> },
    /// A payment was submitted.
    SubmittedPayment {
        from_account: AccountId,
        to_account: AccountId,
        amount: u128,
        resolver: Option<ResolverChoice>,
        timestamp: BlockNumber,
    },
    /// A payment for an order was submitted.
    SubmittedOrderPayment {
        from_account: AccountId,
        to_account: AccountId,
        amount: u128,
        resolver: Option<ResolverChoice>,
        timestamp: BlockNumber,
    },
    /// A payer profile was registered.
    PayerRegistered { id: AccountId, time: BlockNumber },
    /// A payee profile was registered.
    PayeeRegistered { id: AccountId, time: BlockNumber },
    /// An order was placed.
    OrderPlaced { buyer: AccountId, order_no: u32, item_id: u32, seller: AccountId },
    /// A multi-signature account was recorded for a cross-chain payment.
    MultisigAccountCreated { time: BlockNumber, id: AccountId },
    /// Derivative DOT was minted into a multi-signature account.
    DotXcmTransferInitiated { time: BlockNumber, amount: u128, multi_id: AccountId },
    /// A derivative token was moved into a multi-signature account.
    XcmTokenTransferInitiated {
        time: BlockNumber,
        amount: u128,
        multi_id: AccountId,
        token: CurrencyId,
    },
    /// The payer confirmed a cross-chain payment.
    PayerAddressConfirmedXcm { account_id: AccountId, timestamp: BlockNumber, reference_no: Vec<u8> },
    /// The payee confirmed a cross-chain payment.
    PayeeAddressConfirmedXcm { account_id: AccountId, timestamp: BlockNumber, reference_no: Vec<u8> },
    /// Funds were sent back to the relay chain.
    MessageTransferedToPolkadot,
}

/// One step of work that the runtime performs for a call, in order.
#[derive(Debug)]
pub enum Effect {
    /// Deposit an event.
    Deposit(Event),
    /// Register `account` in the system's account storage with default
    /// information, unless it is there already.
    CreateAccount { account: AccountId },
    /// Move `amount` of the native currency from `from` to `to`
    /// (`Currency::transfer`); `keep_alive` asks that `from` stay alive.
    Transfer { from: AccountId, to: AccountId, amount: u128, keep_alive: bool },
    /// Move the whole free balance of `from` to `to`, signed by `from`
    /// (`transfer_all` of the balances pallet).
    TransferAll { from: AccountId, to: AccountId, keep_alive: bool },
    /// Move `amount` of the native currency from `from` to `to`, signed by
    /// `from` and keeping it alive (`transfer_keep_alive`).
    FundFees { from: AccountId, to: AccountId, amount: u128 },
    /// Mint `amount` of `asset` into `beneficiary`, signed by `issuer`.
    MintAsset { issuer: AccountId, asset: CurrencyId, beneficiary: AccountId, amount: u128 },
    /// Burn `amount` of `asset` held by `who`, signed by `issuer`.
    BurnAsset { issuer: AccountId, asset: CurrencyId, who: AccountId, amount: u128 },
    /// Move `amount` of `asset` from `from` to `to`, signed by `from`.
    TransferAsset { from: AccountId, asset: CurrencyId, to: AccountId, amount: u128 },
    /// Increase the balance of `who` in `asset` by exactly `amount`.
    DepositAsset { asset: CurrencyId, who: AccountId, amount: u128 },
    /// Decrease the balance of `who` in `asset` by exactly `amount`.
    WithdrawAsset { asset: CurrencyId, who: AccountId, amount: u128 },
    /// Send `message` to the relay chain.
    SendToRelay { message: RelayMessage },
}

/// What becomes of a call when the runtime fails to perform one of its effects.
#[derive(Clone, Copy, Debug, PartialEq, Eq, Structural)]
pub enum FailureHandling {
    /// The call fails with the error that the runtime reported.
    PassThrough,
    /// The call fails with `MultiSigCallFailed`.
    MultiSigCallFailed,
    /// The call fails with `ErrorSendingXcm`.
    ErrorSendingXcm,
    /// The call fails with `FailedToTransactAsset`.
    FailedToTransactAsset,
    /// The call panics: it treats a failure here as impossible.
    Panic,
    /// The effect cannot fail.
    CannotFail,
}

/// How a call handles the failure of `effect`, when the effect was asked for by
/// a payment pallet call; in every case the call's changes are rolled back.
pub open spec fn failure_handling_spec(effect: Effect) -> FailureHandling {
    match effect {
        Effect::Deposit(_) => FailureHandling::CannotFail,
        Effect::CreateAccount { .. } => FailureHandling::CannotFail,
        Effect::Transfer { .. } => FailureHandling::PassThrough,
        Effect::TransferAll { .. } => FailureHandling::MultiSigCallFailed,
        Effect::FundFees { .. } => FailureHandling::Panic,
        Effect::MintAsset { .. } => FailureHandling::PassThrough,
        Effect::BurnAsset { .. } => FailureHandling::PassThrough,
        Effect::TransferAsset { .. } => FailureHandling::Panic,
        Effect::DepositAsset { .. } => FailureHandling::Panic,
        Effect::WithdrawAsset { .. } => FailureHandling::FailedToTransactAsset,
        Effect::SendToRelay { .. } => FailureHandling::ErrorSendingXcm,
    }
}

/// How a call handles the failure of `effect`.
pub fn failure_handling(effect: &Effect) -> (r: FailureHandling)
    ensures
        r == failure_handling_spec(*effect),
{
    match effect {
        Effect::Deposit(_) => FailureHandling::CannotFail,
        Effect::CreateAccount { .. } => FailureHandling::CannotFail,
        Effect::Transfer { .. } => FailureHandling::PassThrough,
        Effect::TransferAll { .. } => FailureHandling::MultiSigCallFailed,
        Effect::FundFees { .. } => FailureHandling::Panic,
        Effect::MintAsset { .. } => FailureHandling::PassThrough,
        Effect::BurnAsset { .. } => FailureHandling::PassThrough,
        Effect::TransferAsset { .. } => FailureHandling::Panic,
        Effect::DepositAsset { .. } => FailureHandling::Panic,
        Effect::WithdrawAsset { .. } => FailureHandling::FailedToTransactAsset,
        Effect::SendToRelay { .. } => FailureHandling::ErrorSendingXcm,
    }
}

} // verus!
