//! The parameters of the chain specifications that the node offers, and the
//! genesis state they start from.
use vstd::prelude::*;
use crate::bytes::AccountId;
use crate::chain_spec::{
    calculate_sovereign_account, dev_public, dev_seeds_valid, get_account_id_from_seed,
    pre_funded_accounts, sort_dedup_accounts, sovereign_account_bytes, strictly_sorted,
    try_pre_funded_accounts, Extensions, dev_seeds,
};
use crate::effects::CurrencyId;
use crate::keys::account_from_ss58check;

verus! {

/// The character of a decimal digit.
pub open spec fn digit_char(d: nat) -> char {
    (48 + d) as char
}

/// The decimal form of `n`, most significant digit first, without leading
/// zeros.
pub open spec fn decimal(n: nat) -> Seq<char>
    decreases n,
{
    if n < 10 {
        seq![digit_char(n)]
    } else {
        decimal(n / 10) + seq![digit_char(n % 10)]
    }
}

fn digit_str(d: u32) -> (r: &'static str)
    requires
        d < 10,
    ensures
        r@ == seq![digit_char(d as nat)],
{
    proof {
        reveal_strlit("0");
        reveal_strlit("1");
        reveal_strlit("2");
        reveal_strlit("3");
        reveal_strlit("4");
        reveal_strlit("5");
        reveal_strlit("6");
        reveal_strlit("7");
        reveal_strlit("8");
        reveal_strlit("9");
    }
    match d {
        0 => "0",
        1 => "1",
        2 => "2",
        3 => "3",
        4 => "4",
        5 => "5",
        6 => "6",
        7 => "7",
        8 => "8",
        _ => "9",
    }
}

/// Appends the decimal form of `n` to `s`.
fn append_decimal(s: &mut String, n: u32)
    ensures
        final(s)@ == old(s)@ + decimal(n as nat),
    decreases n,
{
    if n >= 10 {
        append_decimal(s, n / 10);
    }
    s.append(digit_str(n % 10));
    proof {
        if n >= 10 {
            assert(s@ =~= old(s)@ + decimal(n as nat));
        }
    }
}

/// The parachain id of the orchestrator chain.
pub const ORCHESTRATOR: u32 = 1000;

/// What each pre-funded account holds at genesis: 2^60 units.
pub const ENDOWMENT: u128 = 1152921504606846976;

/// The decimals of the DOT asset's metadata at genesis.
pub const DOT_ASSET_DECIMALS: u8 = 10;

/// The bytes `vDOT`, the name and symbol of the DOT asset at genesis.
pub open spec fn v_dot_bytes() -> Seq<u8> {
    seq![118u8, 68u8, 79u8, 84u8]
}

/// The kind of a chain.
#[derive(Debug, Clone, Copy, PartialEq, Eq, Structural)]
pub enum ChainType {
    Development,
    Local,
}

/// The token properties that a chain specification announces.
#[derive(Debug)]
pub struct TokenProperties {
    pub token_symbol: String,
    pub token_decimals: u32,
    pub ss58_format: u16,
    pub is_ethereum: bool,
}

/// The metadata of an asset (named by `A`) at genesis.
#[derive(Debug)]
pub struct AssetMetadata<A> {
    pub asset: A,
    pub name: Vec<u8>,
    pub symbol: Vec<u8>,
    pub decimals: u8,
}

/// An asset (named by `A`) that exists at genesis.
#[derive(Debug)]
pub struct AssetGenesis<A> {
    pub asset: A,
    pub owner: AccountId,
    pub is_sufficient: bool,
    pub min_balance: u128,
}

/// An asset account (of an asset named by `A`) at genesis.
#[derive(Debug)]
pub struct AssetAccountGenesis<A> {
    pub asset: A,
    pub account: AccountId,
    pub balance: u128,
}

/// The genesis state of the chain, as far as the chain's own pallets and
/// the balances are concerned.
#[derive(Debug)]
pub struct GenesisConfig {
    pub balances: Vec<(AccountId, u128)>,
    pub parachain_id: u32,
    pub sudo_key: Option<AccountId>,
    pub orchestrator_para_id: u32,
    pub start_in_maintenance_mode: bool,
    pub asset_metadata: Vec<AssetMetadata<CurrencyId>>,
    pub assets: Vec<AssetGenesis<CurrencyId>>,
    pub asset_accounts: Vec<AssetAccountGenesis<CurrencyId>>,
    pub transfer_system_para_account: Option<AccountId>,
}

/// What a chain specification is made of, besides its runtime code.
#[derive(Debug)]
pub struct ChainSpecParams {
    pub name: String,
    pub id: String,
    pub chain_type: ChainType,
    /// The boot nodes' addresses, as given. Parsing them as multiaddresses
    /// with a peer id belongs to the node's network crate, which this library
    /// does not use: an address that does not parse is carried as it is.
    pub boot_nodes: Vec<String>,
    pub protocol_id: Option<String>,
    pub properties: TokenProperties,
    pub extensions: Extensions,
    pub genesis: GenesisConfig,
}

/// The token properties of the chain: `UNIT` with 12 decimals, the generic
/// Substrate address format, not an Ethereum chain.
pub open spec fn unit_properties(p: TokenProperties) -> bool {
    &&& p.token_symbol@ == "UNIT"@
    &&& p.token_decimals == 12
    &&& p.ss58_format == 42
    &&& !p.is_ethereum
}

/// `g` is the test-network genesis for the endowed accounts `endowed`,
/// parachain `para_id` and root key `root_key`: each endowed account holds
/// `ENDOWMENT`, and the parachain's sovereign account owns the DOT asset and
/// is the transfer system's account.
pub open spec fn is_testnet_genesis(
    g: GenesisConfig,
    endowed: Seq<AccountId>,
    para_id: u32,
    root_key: AccountId,
) -> bool {
    let para_account = sovereign_account_bytes(para_id);
    &&& g.balances@.len() == endowed.len()
    &&& forall|i: int| 0 <= i < endowed.len() ==> #[trigger] g.balances@[i] == (endowed[i], ENDOWMENT)
    &&& g.parachain_id == para_id
    &&& g.sudo_key == Some(root_key)
    &&& g.orchestrator_para_id == ORCHESTRATOR
    &&& !g.start_in_maintenance_mode
    &&& g.asset_metadata@.len() == 1
    &&& g.asset_metadata@[0].asset == CurrencyId::DOT
    &&& g.asset_metadata@[0].name@ == v_dot_bytes()
    &&& g.asset_metadata@[0].symbol@ == v_dot_bytes()
    &&& g.asset_metadata@[0].decimals == DOT_ASSET_DECIMALS
    &&& g.assets@.len() == 1
    &&& g.assets@[0].asset == CurrencyId::DOT
    &&& g.assets@[0].owner@ == para_account
    &&& g.assets@[0].is_sufficient
    &&& g.assets@[0].min_balance == 1
    &&& g.asset_accounts@.len() == 1
    &&& g.asset_accounts@[0].asset == CurrencyId::DOT
    &&& g.asset_accounts@[0].account@ == para_account
    &&& g.asset_accounts@[0].balance == 0
    &&& g.transfer_system_para_account matches Some(a) && a@ == para_account
}

fn v_dot() -> (r: Vec<u8>)
    ensures
        r@ == v_dot_bytes(),
{
    let r = vec![118u8, 68u8, 79u8, 84u8];
    assert(r@ =~= v_dot_bytes());
    r
}

/// The genesis state of a test network: the endowed accounts funded, the
/// root key as sudo, and the DOT asset owned by the parachain's sovereign
/// account on the relay chain.
pub fn testnet_genesis(endowed_accounts: &Vec<AccountId>, id: u32, root_key: AccountId) -> (r:
    GenesisConfig)
    ensures
        is_testnet_genesis(r, endowed_accounts@, id, root_key),
{
    let sovereign = match calculate_sovereign_account(id) {
        Ok(s) => s,
        Err(_) => String::new(),
    };
    let para_account = match account_from_ss58check(sovereign.as_str()) {
        Some(a) => a,
        None => [0u8; 32],
    };
    let mut balances: Vec<(AccountId, u128)> = Vec::new();
    let mut i: usize = 0;
    while i < endowed_accounts.len()
        invariant
            i <= endowed_accounts@.len(),
            balances@.len() == i,
            forall|j: int| 0 <= j < i ==> #[trigger] balances@[j] == (endowed_accounts@[j], ENDOWMENT),
        decreases endowed_accounts@.len() - i,
    {
        balances.push((endowed_accounts[i], ENDOWMENT));
        i = i + 1;
    }
    let metadata = AssetMetadata {
        asset: CurrencyId::DOT,
        name: v_dot(),
        symbol: v_dot(),
        decimals: DOT_ASSET_DECIMALS,
    };
    let asset = AssetGenesis {
        asset: CurrencyId::DOT,
        owner: para_account,
        is_sufficient: true,
        min_balance: 1,
    };
    let account = AssetAccountGenesis { asset: CurrencyId::DOT, account: para_account, balance: 0 };
    GenesisConfig {
        balances,
        parachain_id: id,
        sudo_key: Some(root_key),
        orchestrator_para_id: ORCHESTRATOR,
        start_in_maintenance_mode: false,
        asset_metadata: vec![metadata],
        assets: vec![asset],
        asset_accounts: vec![account],
        transfer_system_para_account: Some(para_account),
    }
}

/// The relay chain that the specifications name.
pub open spec fn relay_chain_name() -> Seq<char> {
    "rococo-local"@
}

/// The accounts funded at genesis: the development accounts in increasing
/// byte order, each once.
pub open spec fn funded_accounts(s: Seq<AccountId>) -> bool {
    &&& strictly_sorted(s)
    &&& forall|a: AccountId| #[trigger] s.contains(a) <==> exists|i: int|
        0 <= i < dev_seeds().len() && dev_public(dev_seeds()[i]) == Some(a@)
}

/// What every chain specification of the node shares: its token properties,
/// its extensions, and a test-network genesis for the funded development
/// accounts with Alice as root.
pub open spec fn common_params(p: ChainSpecParams, para_id: u32, boot_nodes: Seq<String>) -> bool {
    &&& p.boot_nodes@ == boot_nodes
    &&& unit_properties(p.properties)
    &&& p.extensions.relay_chain@ == relay_chain_name()
    &&& p.extensions.para_id == para_id
    &&& funded_accounts(p.genesis.balances@.map_values(|b: (AccountId, u128)| b.0))
    &&& exists|root: AccountId|
        dev_public("Alice"@) == Some(root@) && is_testnet_genesis(
            p.genesis,
            p.genesis.balances@.map_values(|b: (AccountId, u128)| b.0),
            para_id,
            root,
        )
}

/// The development specification of parachain `para_id`: named
/// `Development`, with id `dev` and no protocol id.
pub open spec fn is_development_config(p: ChainSpecParams, para_id: u32, boot_nodes: Seq<String>) -> bool {
    &&& p.name@ == "Development"@
    &&& p.id@ == "dev"@
    &&& p.chain_type == ChainType::Development
    &&& p.protocol_id is None
    &&& common_params(p, para_id, boot_nodes)
}

/// The local test-network specification of parachain `para_id`: named
/// `Simple Container <id>`, with id `simple_container_<id>` and protocol id
/// `container-chain-<id>`.
pub open spec fn is_local_testnet_config(p: ChainSpecParams, para_id: u32, boot_nodes: Seq<String>) -> bool {
    &&& p.name@ == "Simple Container "@ + decimal(para_id as nat)
    &&& p.id@ == "simple_container_"@ + decimal(para_id as nat)
    &&& p.chain_type == ChainType::Local
    &&& p.protocol_id matches Some(pid) && pid@ == "container-chain-"@ + decimal(para_id as nat)
    &&& common_params(p, para_id, boot_nodes)
}

fn unit_token_properties() -> (r: TokenProperties)
    ensures
        unit_properties(r),
{
    TokenProperties {
        token_symbol: String::from_str("UNIT"),
        token_decimals: 12,
        ss58_format: 42,
        is_ethereum: false,
    }
}

fn chain_extensions(para_id: u32) -> (r: Extensions)
    ensures
        r.relay_chain@ == relay_chain_name(),
        r.para_id == para_id,
{
    Extensions { relay_chain: String::from_str("rococo-local"), para_id }
}

/// The funded accounts, their genesis and the rest of what every
/// specification shares.
fn common_config(
    name: String,
    id: String,
    chain_type: ChainType,
    protocol_id: Option<String>,
    para_id: u32,
    boot_nodes: Vec<String>,
) -> (r: ChainSpecParams)
    requires
        dev_seeds_valid(),
    ensures
        r.name == name,
        r.id == id,
        r.chain_type == chain_type,
        r.protocol_id == protocol_id,
        common_params(r, para_id, boot_nodes@),
{
    let pre_funded = pre_funded_accounts();
    let funded = sort_dedup_accounts(&pre_funded);
    let root = get_account_id_from_seed("Alice");
    assert(dev_seeds()[0] == "Alice"@);
    let genesis = testnet_genesis(&funded, para_id, root);
    let r = ChainSpecParams {
        name,
        id,
        chain_type,
        boot_nodes,
        protocol_id,
        properties: unit_token_properties(),
        extensions: chain_extensions(para_id),
        genesis,
    };
    let ghost accounts = r.genesis.balances@.map_values(|b: (AccountId, u128)| b.0);
    assert(accounts =~= funded@);
    assert forall|a: AccountId| #[trigger] accounts.contains(a) <==> exists|i: int|
        0 <= i < dev_seeds().len() && dev_public(dev_seeds()[i]) == Some(a@) by {
        if accounts.contains(a) {
            assert(pre_funded@.contains(a));
            let k = choose|k: int| 0 <= k < pre_funded@.len() && pre_funded@[k] == a;
            assert(dev_public(dev_seeds()[k]) == Some(pre_funded@[k]@));
        }
        if exists|i: int| 0 <= i < dev_seeds().len() && dev_public(dev_seeds()[i]) == Some(a@) {
            let i = choose|i: int| 0 <= i < dev_seeds().len() && dev_public(dev_seeds()[i]) == Some(a@);
            assert(dev_public(dev_seeds()[i]) == Some(pre_funded@[i]@));
            assert(pre_funded@[i]@ == a@);
            assert(pre_funded@[i] == a);
            assert(pre_funded@.contains(a));
        }
    }
    r
}

/// The development chain specification of parachain `para_id`; the
/// development seeds' URIs must be valid. The boot nodes are carried
/// unparsed.
pub fn development_config(para_id: u32, boot_nodes: Vec<String>) -> (r: ChainSpecParams)
    requires
        dev_seeds_valid(),
    ensures
        is_development_config(r, para_id, boot_nodes@),
{
    common_config(
        String::from_str("Development"),
        String::from_str("dev"),
        ChainType::Development,
        None,
        para_id,
        boot_nodes,
    )
}

/// The local test-network chain specification of parachain `para_id`; the
/// development seeds' URIs must be valid. The boot nodes are carried
/// unparsed.
pub fn local_testnet_config(para_id: u32, boot_nodes: Vec<String>) -> (r: ChainSpecParams)
    requires
        dev_seeds_valid(),
    ensures
        is_local_testnet_config(r, para_id, boot_nodes@),
{
    let mut name = String::from_str("Simple Container ");
    append_decimal(&mut name, para_id);
    let mut id = String::from_str("simple_container_");
    append_decimal(&mut id, para_id);
    let mut protocol_id = String::from_str("container-chain-");
    append_decimal(&mut protocol_id, para_id);
    common_config(name, id, ChainType::Local, Some(protocol_id), para_id, boot_nodes)
}

/// The chain specification of the given kind for parachain `para_id`, or
/// `None` where a development seed's URI is not valid.
pub fn try_chain_spec(chain_type: ChainType, para_id: u32, boot_nodes: Vec<String>) -> (r: Option<
    ChainSpecParams,
>)
    ensures
        r is Some <==> dev_seeds_valid(),
        r matches Some(p) ==> match chain_type {
            ChainType::Development => is_development_config(p, para_id, boot_nodes@),
            ChainType::Local => is_local_testnet_config(p, para_id, boot_nodes@),
        },
{
    match try_pre_funded_accounts() {
        None => None,
        Some(_) => match chain_type {
            ChainType::Development => Some(development_config(para_id, boot_nodes)),
            ChainType::Local => Some(local_testnet_config(para_id, boot_nodes)),
        },
    }
}

} // verus!
