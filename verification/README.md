# vane

Escrowed payments between a payer and a payee on a parachain: the payer's
funds wait in a multi-signature account derived from the two parties, the
payee confirms, then the payer, and only then are the funds released. The
library is written in Verus. Every function in `src/` carries a contract;
Verus proves each one, except the trusted wrappers in `src/crypto.rs` and
`src/keys.rs`, whose contracts are taken on trust from the outside crates they
call.

- `src/payment.rs`, `src/payment_laws.rs`: the payment pallet and what holds
  across its calls.
- `src/xcm.rs`, `src/transfer_system.rs`, `src/asset_adapter.rs`,
  `src/xcm_laws.rs`: cross-chain payments in DOT, the asset transactor, and
  their laws.
- `src/register.rs`, `src/order.rs`, `src/wallet_less.rs`: payee profiles and
  products, orders, and calls placed by a delegated signer.
- `src/receipt.rs`, `src/signers.rs`, `src/byte_map.rs`, `src/bytes.rs`:
  receipts, derived accounts and reference numbers, storage maps.
- `src/effects.rs`: the work each call asks of the runtime (transfers, mints,
  relay-chain messages, events), in order.
- `src/chain_spec.rs`, `src/genesis.rs`, `src/emulator.rs`, `src/keys.rs`:
  development keys, the sovereign account, chain specifications and genesis
  states.
- `src/crypto.rs`, `src/keys.rs`: the trusted calls into `sp-io`, `sp-core`,
  `sp-runtime`, `parity-scale-codec`, `hex` and `array-bytes`.
- `app/`: the serialisable forms of the chain specification's parts.
