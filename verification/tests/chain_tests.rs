use sp_core::crypto::{Pair, Ss58Codec};
use vane::chain_spec::{
    calculate_sovereign_account, compare_accounts, get_account_id_from_seed, get_from_seed, pre_funded_accounts,
    sort_dedup_accounts, try_get_account_id_from_seed, try_get_from_seed, try_pre_funded_accounts,
    DEV_SEED_COUNT, SUBSTRATE_ACCOUNT_FORMAT,
};
use vane::effects::CurrencyId;
use vane::emulator::{
    genesis, get_collator_keys_from_seed, init_balances, invulnerables, sudo_key, template_session_keys,
    try_genesis, PARA_ID, SAFE_XCM_VERSION,
};
use vane::genesis::{
    development_config, local_testnet_config, testnet_genesis, try_chain_spec, ChainType, DOT_ASSET_DECIMALS,
    ENDOWMENT, ORCHESTRATOR,
};

const ALICE_PUBLIC: &str = "d43593c715fdd31c61141abd04a99fd6822c8558854ccde39a5684e7a56da27d";

fn public_of(seed: &str) -> [u8; 32] {
    let pair = sp_core::sr25519::Pair::from_string(&format!("//{}", seed), None).unwrap();
    pair.public().0
}

fn sovereign_bytes(para_id: u32) -> [u8; 32] {
    let mut b = [0u8; 32];
    b[0..4].copy_from_slice(b"para");
    b[4..8].copy_from_slice(&para_id.to_le_bytes());
    b
}

#[test]
fn alice_key_is_the_well_known_one() {
    let alice = get_from_seed("Alice");
    assert_eq!(hex::encode(alice), ALICE_PUBLIC);
    assert_eq!(get_account_id_from_seed("Alice"), alice);
    assert_eq!(get_account_id_from_seed("Bob"), public_of("Bob"));
    assert_eq!(try_get_from_seed("Alice//stash"), Some(public_of("Alice//stash")));
    assert_eq!(try_get_account_id_from_seed("Charlie"), Some(public_of("Charlie")));
}

#[test]
fn invalid_seed_has_no_key() {
    assert_eq!(try_get_from_seed("Alice//"), None);
    assert_eq!(try_get_account_id_from_seed("Alice//"), None);
}

#[test]
fn sovereign_account_of_parachain_2000() {
    let text = calculate_sovereign_account(2000).unwrap();
    let expected = sp_runtime::AccountId32::new(sovereign_bytes(2000))
        .to_ss58check_with_version(SUBSTRATE_ACCOUNT_FORMAT.into());
    assert_eq!(text, expected);
    let decoded = sp_runtime::AccountId32::from_ss58check(&text).unwrap();
    let raw: [u8; 32] = decoded.into();
    assert_eq!(raw, sovereign_bytes(2000));
}

#[test]
fn sovereign_account_depends_on_the_id() {
    assert_ne!(calculate_sovereign_account(1000).unwrap(), calculate_sovereign_account(2000).unwrap());
    let text = calculate_sovereign_account(u32::MAX).unwrap();
    let decoded: [u8; 32] = sp_runtime::AccountId32::from_ss58check(&text).unwrap().into();
    assert_eq!(decoded, sovereign_bytes(u32::MAX));
}

#[test]
fn pre_funded_accounts_in_seed_order() {
    let accounts = pre_funded_accounts();
    assert_eq!(accounts.len(), DEV_SEED_COUNT);
    assert_eq!(accounts[0], public_of("Alice"));
    assert_eq!(accounts[5], public_of("Ferdie"));
    assert_eq!(accounts[11], public_of("Ferdie//stash"));
    assert_eq!(try_pre_funded_accounts(), Some(accounts));
}

#[test]
fn compare_accounts_is_byte_order() {
    let a = [1u8; 32];
    let mut b = [1u8; 32];
    b[31] = 2;
    assert!(compare_accounts(&a, &b) < 0);
    assert!(compare_accounts(&b, &a) > 0);
    assert_eq!(compare_accounts(&a, &a), 0);
}

#[test]
fn sort_dedup_orders_and_drops_repeats() {
    let v = vec![[3u8; 32], [1u8; 32], [3u8; 32], [2u8; 32], [1u8; 32]];
    assert_eq!(sort_dedup_accounts(&v), vec![[1u8; 32], [2u8; 32], [3u8; 32]]);
    assert!(sort_dedup_accounts(&Vec::new()).is_empty());
    let mut expected = pre_funded_accounts();
    expected.sort();
    expected.dedup();
    assert_eq!(sort_dedup_accounts(&pre_funded_accounts()), expected);
}

#[test]
fn sort_dedup_is_idempotent() {
    let v = vec![[9u8; 32], [4u8; 32], [9u8; 32]];
    let once = sort_dedup_accounts(&v);
    assert_eq!(sort_dedup_accounts(&once), once);
}

#[test]
fn testnet_genesis_funds_and_owns() {
    let endowed = vec![[1u8; 32], [2u8; 32]];
    let g = testnet_genesis(&endowed, 2000, [5u8; 32]);
    assert_eq!(g.balances, vec![([1u8; 32], ENDOWMENT), ([2u8; 32], ENDOWMENT)]);
    assert_eq!(ENDOWMENT, 1u128 << 60);
    assert_eq!(g.parachain_id, 2000);
    assert_eq!(g.sudo_key, Some([5u8; 32]));
    assert_eq!(g.orchestrator_para_id, ORCHESTRATOR);
    assert_eq!(ORCHESTRATOR, 1000);
    assert!(!g.start_in_maintenance_mode);
    assert_eq!(g.asset_metadata.len(), 1);
    assert_eq!(g.asset_metadata[0].asset, CurrencyId::DOT);
    assert_eq!(g.asset_metadata[0].name, b"vDOT".to_vec());
    assert_eq!(g.asset_metadata[0].symbol, b"vDOT".to_vec());
    assert_eq!(g.asset_metadata[0].decimals, DOT_ASSET_DECIMALS);
    assert_eq!(g.assets[0].owner, sovereign_bytes(2000));
    assert!(g.assets[0].is_sufficient);
    assert_eq!(g.assets[0].min_balance, 1);
    assert_eq!(g.asset_accounts[0].account, sovereign_bytes(2000));
    assert_eq!(g.asset_accounts[0].balance, 0);
    assert_eq!(g.transfer_system_para_account, Some(sovereign_bytes(2000)));
}

#[test]
fn development_config_parameters() {
    let p = development_config(2000, vec!["/ip4/127.0.0.1/tcp/30333".to_string()]);
    assert_eq!(p.name, "Development");
    assert_eq!(p.id, "dev");
    assert_eq!(p.chain_type, ChainType::Development);
    assert_eq!(p.protocol_id, None);
    assert_eq!(p.boot_nodes, vec!["/ip4/127.0.0.1/tcp/30333".to_string()]);
    assert_eq!(p.properties.token_symbol, "UNIT");
    assert_eq!(p.properties.token_decimals, 12);
    assert_eq!(p.properties.ss58_format, 42);
    assert!(!p.properties.is_ethereum);
    assert_eq!(p.extensions.relay_chain, "rococo-local");
    assert_eq!(p.extensions.para_id, 2000);
    let mut expected = pre_funded_accounts();
    expected.sort();
    expected.dedup();
    let funded: Vec<[u8; 32]> = p.genesis.balances.iter().map(|b| b.0).collect();
    assert_eq!(funded, expected);
    assert_eq!(p.genesis.sudo_key, Some(public_of("Alice")));
}

#[test]
fn local_testnet_config_names_the_parachain() {
    let p = local_testnet_config(2000, Vec::new());
    assert_eq!(p.name, "Simple Container 2000");
    assert_eq!(p.id, "simple_container_2000");
    assert_eq!(p.protocol_id, Some("container-chain-2000".to_string()));
    assert_eq!(p.chain_type, ChainType::Local);
    assert_eq!(p.extensions.para_id, 2000);
    let zero = local_testnet_config(0, Vec::new());
    assert_eq!(zero.name, "Simple Container 0");
    let max = local_testnet_config(u32::MAX, Vec::new());
    assert_eq!(max.id, "simple_container_4294967295");
    let seven = local_testnet_config(7, Vec::new());
    assert_eq!(seven.protocol_id, Some("container-chain-7".to_string()));
}

#[test]
fn try_chain_spec_picks_the_kind() {
    let dev = try_chain_spec(ChainType::Development, 1000, Vec::new()).unwrap();
    assert_eq!(dev.id, "dev");
    let local = try_chain_spec(ChainType::Local, 1000, Vec::new()).unwrap();
    assert_eq!(local.id, "simple_container_1000");
}

#[test]
fn emulator_genesis_parameters() {
    let ed: u128 = 1_000_000_000;
    let g = genesis(ed);
    assert_eq!(g.balances.len(), 5);
    assert_eq!(g.balances[0], (public_of("Alice"), ed * 4096));
    assert_eq!(g.balances[4], (public_of("Eve"), ed * 4096));
    assert_eq!(g.parachain_id, PARA_ID);
    assert_eq!(g.invulnerables, vec![public_of("Alice"), public_of("Bob")]);
    assert_eq!(g.candidacy_bond, ed * 16);
    assert_eq!(g.session_keys[1].0, public_of("Bob"));
    assert_eq!(g.session_keys[1].2.aura, public_of("Bob"));
    assert_eq!(g.safe_xcm_version, Some(SAFE_XCM_VERSION));
    assert_eq!(g.sudo_key, Some(public_of("Alice")));
    assert_eq!(g.xcm_para_account, Some(sovereign_bytes(2000)));
    assert_eq!(g.asset_metadata[0].asset.parents, 0);
    assert_eq!(g.asset_metadata[0].asset.interior.len(), 2);
    assert!(try_genesis(u128::MAX).is_none());
    assert!(try_genesis(ed).is_some());
}

#[test]
fn emulator_accounts() {
    assert_eq!(init_balances()[2], public_of("Charlie"));
    assert_eq!(sudo_key(), public_of("Alice"));
    let inv = invulnerables();
    assert_eq!(inv[1], (public_of("Bob"), public_of("Bob")));
    assert_eq!(get_collator_keys_from_seed("Dave"), public_of("Dave"));
    assert_eq!(template_session_keys([4u8; 32]).aura, [4u8; 32]);
}
