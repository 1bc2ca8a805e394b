//! A verified model of the Vane payment system: escrowed payments between a
//! payer and a payee through a shared multi-signature account, confirmed by
//! both parties before the funds are released.
pub mod bytes;
pub mod byte_map;
pub mod crypto;
pub mod effects;
pub mod signers;
pub mod receipt;
pub mod register;
pub mod order;
pub mod payment;
pub mod payment_laws;
pub mod wallet_less;
pub mod xcm;
pub mod xcm_laws;
pub mod transfer_system;
pub mod asset_adapter;
pub mod keys;
pub mod chain_spec;
pub mod genesis;
pub mod emulator;
