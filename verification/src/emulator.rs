//! The genesis of the chain in an emulated test network: its funded
//! development accounts, collators, session keys and the DOT derivative.
use vstd::prelude::*;
use crate::asset_adapter::{Junction, Location};
use crate::bytes::AccountId;
use crate::chain_spec::{
    calculate_sovereign_account, dev_public, dev_seeds, dev_seeds_valid, get_account_id_from_seed,
    get_from_seed, sovereign_account_bytes, try_pre_funded_accounts,
};
use crate::genesis::{AssetAccountGenesis, AssetGenesis, AssetMetadata, DOT_ASSET_DECIMALS, v_dot_bytes};
use crate::keys::account_from_ss58check;

verus! {

/// The parachain id of the chain in the emulated network.
pub const PARA_ID: u32 = 2000;

/// The XCM version that the chain knows to be safe at genesis.
pub const SAFE_XCM_VERSION: u32 = 3;

/// The number of development accounts funded in the emulated network.
pub const INIT_BALANCE_COUNT: usize = 5;

/// The session keys of a collator: its Aura key.
#[derive(Debug, Clone, Copy, PartialEq, Eq)]
pub struct SessionKeys {
    pub aura: [u8; 32],
}

/// The genesis of the chain in the emulated network.
#[derive(Debug)]
pub struct EmulatorGenesis {
    pub balances: Vec<(AccountId, u128)>,
    pub asset_metadata: Vec<AssetMetadata<Location>>,
    pub assets: Vec<AssetGenesis<Location>>,
    pub asset_accounts: Vec<AssetAccountGenesis<Location>>,
    pub xcm_para_account: Option<AccountId>,
    pub parachain_id: u32,
    pub invulnerables: Vec<AccountId>,
    pub candidacy_bond: u128,
    pub session_keys: Vec<(AccountId, AccountId, SessionKeys)>,
    pub safe_xcm_version: Option<u32>,
    pub sudo_key: Option<AccountId>,
}

/// The location of the DOT derivative inside the chain: the assets pallet
/// (instance 10), asset 1.
pub open spec fn is_dot_asset_location(l: Location) -> bool {
    l.parents == 0 && l.interior@ == seq![Junction::PalletInstance(10), Junction::GeneralIndex(1)]
}

fn dot_asset_location() -> (r: Location)
    ensures
        is_dot_asset_location(r),
{
    let r = Location { parents: 0, interior: vec![Junction::PalletInstance(10), Junction::GeneralIndex(1)] };
    assert(r.interior@ =~= seq![Junction::PalletInstance(10), Junction::GeneralIndex(1)]);
    r
}

/// The Aura key of a collator from a development seed; the seed's URI must
/// be valid.
pub fn get_collator_keys_from_seed(seed: &str) -> (r: [u8; 32])
    requires
        dev_public(seed@) is Some,
    ensures
        dev_public(seed@) == Some(r@),
{
    get_from_seed(seed)
}

/// The session keys made of an Aura key.
pub fn template_session_keys(keys: [u8; 32]) -> (r: SessionKeys)
    ensures
        r.aura == keys,
{
    SessionKeys { aura: keys }
}

/// The development accounts funded in the emulated network: Alice, Bob,
/// Charlie, Dave and Eve, in that order.
pub fn init_balances() -> (r: Vec<AccountId>)
    requires
        dev_seeds_valid(),
    ensures
        r@.len() == INIT_BALANCE_COUNT,
        forall|i: int| 0 <= i < INIT_BALANCE_COUNT ==> dev_public(dev_seeds()[i]) == Some(#[trigger] r@[i]@),
{
    proof {
        reveal_strlit("Alice");
        reveal_strlit("Bob");
        reveal_strlit("Charlie");
        reveal_strlit("Dave");
        reveal_strlit("Eve");
    }
    assert(dev_public(dev_seeds()[0]) is Some);
    assert(dev_public(dev_seeds()[1]) is Some);
    assert(dev_public(dev_seeds()[2]) is Some);
    assert(dev_public(dev_seeds()[3]) is Some);
    assert(dev_public(dev_seeds()[4]) is Some);
    let mut r: Vec<AccountId> = Vec::new();
    r.push(get_account_id_from_seed("Alice"));
    r.push(get_account_id_from_seed("Bob"));
    r.push(get_account_id_from_seed("Charlie"));
    r.push(get_account_id_from_seed("Dave"));
    r.push(get_account_id_from_seed("Eve"));
    r
}

/// The collators that cannot be removed: Alice and Bob, each with the Aura
/// key of the same seed.
pub fn invulnerables() -> (r: Vec<(AccountId, [u8; 32])>)
    requires
        dev_seeds_valid(),
    ensures
        r@.len() == 2,
        dev_public("Alice"@) == Some(r@[0].0@),
        dev_public("Alice"@) == Some(r@[0].1@),
        dev_public("Bob"@) == Some(r@[1].0@),
        dev_public("Bob"@) == Some(r@[1].1@),
{
    assert(dev_public(dev_seeds()[0]) is Some);
    assert(dev_public(dev_seeds()[1]) is Some);
    let mut r: Vec<(AccountId, [u8; 32])> = Vec::new();
    r.push((get_account_id_from_seed("Alice"), get_collator_keys_from_seed("Alice")));
    r.push((get_account_id_from_seed("Bob"), get_collator_keys_from_seed("Bob")));
    r
}

/// The root account of the emulated network: Alice.
pub fn sudo_key() -> (r: AccountId)
    requires
        dev_seeds_valid(),
    ensures
        dev_public("Alice"@) == Some(r@),
{
    assert(dev_public(dev_seeds()[0]) is Some);
    get_account_id_from_seed("Alice")
}

/// `g` is the emulated network's genesis for an existential deposit `ed`:
/// the first development accounts hold `4096 * ed`, Alice and Bob are the
/// collators (bond `16 * ed`) with their Aura keys, Alice is root, and the
/// chain's sovereign account owns the DOT derivative.
pub open spec fn is_emulator_genesis(g: EmulatorGenesis, ed: u128) -> bool {
    let para_account = sovereign_account_bytes(PARA_ID);
    &&& g.balances@.len() == INIT_BALANCE_COUNT
    &&& forall|i: int| 0 <= i < INIT_BALANCE_COUNT ==> dev_public(dev_seeds()[i]) == Some(
        (#[trigger] g.balances@[i]).0@,
    ) && g.balances@[i].1 == ed * 4096
    &&& g.asset_metadata@.len() == 1
    &&& is_dot_asset_location(g.asset_metadata@[0].asset)
    &&& g.asset_metadata@[0].name@ == v_dot_bytes()
    &&& g.asset_metadata@[0].symbol@ == v_dot_bytes()
    &&& g.asset_metadata@[0].decimals == DOT_ASSET_DECIMALS
    &&& g.assets@.len() == 1
    &&& is_dot_asset_location(g.assets@[0].asset)
    &&& g.assets@[0].owner@ == para_account
    &&& g.assets@[0].is_sufficient
    &&& g.assets@[0].min_balance == 1
    &&& g.asset_accounts@.len() == 1
    &&& is_dot_asset_location(g.asset_accounts@[0].asset)
    &&& g.asset_accounts@[0].account@ == para_account
    &&& g.asset_accounts@[0].balance == 0
    &&& g.xcm_para_account matches Some(a) && a@ == para_account
    &&& g.parachain_id == PARA_ID
    &&& g.invulnerables@.len() == 2
    &&& dev_public("Alice"@) == Some(g.invulnerables@[0]@)
    &&& dev_public("Bob"@) == Some(g.invulnerables@[1]@)
    &&& g.candidacy_bond == ed * 16
    &&& g.session_keys@.len() == 2
    &&& forall|i: int| 0 <= i < 2 ==> {
        &&& (#[trigger] g.session_keys@[i]).0 == g.invulnerables@[i]
        &&& g.session_keys@[i].1 == g.invulnerables@[i]
    }
    &&& dev_public("Alice"@) == Some(g.session_keys@[0].2.aura@)
    &&& dev_public("Bob"@) == Some(g.session_keys@[1].2.aura@)
    &&& g.safe_xcm_version == Some(SAFE_XCM_VERSION)
    &&& g.sudo_key matches Some(k) && dev_public("Alice"@) == Some(k@)
}

/// The genesis of the chain in the emulated network, for the runtime's
/// existential deposit `existential_deposit`; the development seeds' URIs
/// must be valid.
pub fn genesis(existential_deposit: u128) -> (r: EmulatorGenesis)
    requires
        dev_seeds_valid(),
        existential_deposit * 4096 <= u128::MAX,
    ensures
        is_emulator_genesis(r, existential_deposit),
{
    let sovereign = match calculate_sovereign_account(PARA_ID) {
        Ok(s) => s,
        Err(_) => String::new(),
    };
    let para_account = match account_from_ss58check(sovereign.as_str()) {
        Some(a) => a,
        None => [0u8; 32],
    };
    let alice = sudo_key();
    let endowed = init_balances();
    let mut balances: Vec<(AccountId, u128)> = Vec::new();
    let mut i: usize = 0;
    while i < endowed.len()
        invariant
            endowed@.len() == INIT_BALANCE_COUNT,
            i <= endowed@.len(),
            existential_deposit * 4096 <= u128::MAX,
            balances@.len() == i,
            forall|j: int| 0 <= j < i ==> #[trigger] balances@[j] == (endowed@[j], (existential_deposit * 4096) as u128),
        decreases endowed@.len() - i,
    {
        balances.push((endowed[i], existential_deposit * 4096));
        i = i + 1;
    }
    let collators = invulnerables();
    let mut invulnerable_accounts: Vec<AccountId> = Vec::new();
    invulnerable_accounts.push(collators[0].0);
    invulnerable_accounts.push(collators[1].0);
    let mut session_keys: Vec<(AccountId, AccountId, SessionKeys)> = Vec::new();
    session_keys.push((collators[0].0, collators[0].0, template_session_keys(collators[0].1)));
    session_keys.push((collators[1].0, collators[1].0, template_session_keys(collators[1].1)));
    let mut name: Vec<u8> = Vec::new();
    name.push(118u8);
    name.push(68u8);
    name.push(79u8);
    name.push(84u8);
    assert(name@ =~= v_dot_bytes());
    let symbol = name.clone();
    let metadata = AssetMetadata { asset: dot_asset_location(), name, symbol, decimals: DOT_ASSET_DECIMALS };
    let asset = AssetGenesis { asset: dot_asset_location(), owner: para_account, is_sufficient: true, min_balance: 1 };
    let account = AssetAccountGenesis { asset: dot_asset_location(), account: para_account, balance: 0 };
    let g = EmulatorGenesis {
        balances,
        asset_metadata: vec![metadata],
        assets: vec![asset],
        asset_accounts: vec![account],
        xcm_para_account: Some(para_account),
        parachain_id: PARA_ID,
        invulnerables: invulnerable_accounts,
        candidacy_bond: existential_deposit * 16,
        session_keys,
        safe_xcm_version: Some(SAFE_XCM_VERSION),
        sudo_key: Some(alice),
    };
    assert(g.balances@[0].0 == endowed@[0]);
    g
}

/// The genesis of the chain in the emulated network, or `None` where a
/// development seed's URI is not valid or `4096 * existential_deposit` does
/// not fit in a balance.
pub fn try_genesis(existential_deposit: u128) -> (r: Option<EmulatorGenesis>)
    ensures
        r is Some <==> dev_seeds_valid() && existential_deposit * 4096 <= u128::MAX,
        r matches Some(g) ==> is_emulator_genesis(g, existential_deposit),
{
    if existential_deposit > u128::MAX / 4096 {
        return None;
    }
    match try_pre_funded_accounts() {
        Some(_) => Some(genesis(existential_deposit)),
        None => None,
    }
}

} // verus!
