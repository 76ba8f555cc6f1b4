use defi_learning::address::Address;
use defi_learning::derivation::program_authority;
use defi_learning::errors::Error;
use defi_learning::instructions::{
    admin_mint, initialize_config, initialize_program_controlled_token_mint,
    initialize_token_mint,
};
use defi_learning::ledger::{Asset, Ledger, TokenAccount};
use defi_learning::state::ConfigStore;

fn admin() -> Address {
    Address::new([1u8; 32])
}

/// A deployment with an initialized config, one program-controlled asset
/// (index 0) and one empty account of it (index 0); returns the store, the
/// ledger and the authority's proof exponent.
fn setup() -> (ConfigStore, Ledger, u8) {
    let mut store = ConfigStore::new();
    initialize_config(&mut store, admin()).unwrap();
    let mut ledger = Ledger::new();
    let asset = initialize_program_controlled_token_mint(&mut ledger).unwrap();
    assert_eq!(asset, 0);
    let holder = Address::new([7u8; 32]);
    ledger.create_account(asset, holder).unwrap();
    let (_, exponent) = program_authority().unwrap();
    (store, ledger, exponent)
}

#[test]
fn program_controlled_asset_carries_the_derived_authority() {
    let mut ledger = Ledger::new();
    let asset = initialize_program_controlled_token_mint(&mut ledger).unwrap();
    let (authority, _) = program_authority().unwrap();
    assert_eq!(ledger.assets[asset].mint_authority.bytes, authority.bytes);
    assert_eq!(ledger.assets[asset].supply, 0);
    assert_eq!(ledger.assets[asset].decimals, 6);
}

#[test]
fn authorized_mint_increases_supply_and_balance() {
    let (store, mut ledger, exponent) = setup();
    let caller = admin();
    assert_eq!(
        admin_mint(&store, &caller, &mut ledger, 0, 0, exponent, 100),
        Ok(())
    );
    assert_eq!(ledger.assets[0].supply, 100);
    assert_eq!(ledger.accounts[0].balance, 100);
}

#[test]
fn unauthorized_mint_is_rejected_and_supply_unchanged() {
    let (store, mut ledger, exponent) = setup();
    let outsider = Address::new([9u8; 32]);
    assert_eq!(
        admin_mint(&store, &outsider, &mut ledger, 0, 0, exponent, 100),
        Err(Error::Unauthorized)
    );
    assert_eq!(ledger.assets[0].supply, 0);
    assert_eq!(ledger.accounts[0].balance, 0);
}

#[test]
fn mismatched_proof_exponent_is_rejected_and_nothing_changes() {
    let (store, mut ledger, exponent) = setup();
    let caller = admin();
    let wrong = exponent.wrapping_add(1);
    assert_eq!(
        admin_mint(&store, &caller, &mut ledger, 0, 0, wrong, 100),
        Err(Error::InvalidAuthorityProof)
    );
    assert_eq!(ledger.assets[0].supply, 0);
    assert_eq!(ledger.accounts[0].balance, 0);
}

#[test]
fn minting_before_config_creation_is_rejected() {
    let store = ConfigStore::new();
    let mut ledger = Ledger::new();
    let asset = initialize_program_controlled_token_mint(&mut ledger).unwrap();
    ledger.create_account(asset, admin()).unwrap();
    let (_, exponent) = program_authority().unwrap();
    assert_eq!(
        admin_mint(&store, &admin(), &mut ledger, 0, 0, exponent, 1),
        Err(Error::NotInitialized)
    );
}

#[test]
fn minting_a_missing_asset_or_account_is_rejected() {
    let (store, mut ledger, exponent) = setup();
    let caller = admin();
    assert_eq!(
        admin_mint(&store, &caller, &mut ledger, 5, 0, exponent, 1),
        Err(Error::NoSuchAsset)
    );
    assert_eq!(
        admin_mint(&store, &caller, &mut ledger, 0, 5, exponent, 1),
        Err(Error::NoSuchAccount)
    );
}

#[test]
fn minting_into_an_account_of_another_asset_is_rejected() {
    let (store, mut ledger, exponent) = setup();
    let external_authority = Address::new([4u8; 32]);
    let other_asset = initialize_token_mint(&mut ledger, external_authority);
    let other_holder = Address::new([5u8; 32]);
    let other_account = ledger.create_account(other_asset, other_holder).unwrap();
    assert_eq!(
        admin_mint(&store, &admin(), &mut ledger, 0, other_account, exponent, 1),
        Err(Error::AssetMismatch)
    );
}

#[test]
fn supply_overflow_is_rejected_and_supply_unchanged() {
    let (store, mut ledger, exponent) = setup();
    let caller = admin();
    assert_eq!(
        admin_mint(&store, &caller, &mut ledger, 0, 0, exponent, u64::MAX),
        Ok(())
    );
    assert_eq!(
        admin_mint(&store, &caller, &mut ledger, 0, 0, exponent, 1),
        Err(Error::SupplyOverflow)
    );
    assert_eq!(ledger.assets[0].supply, u64::MAX);
    assert_eq!(ledger.accounts[0].balance, u64::MAX);
}

#[test]
fn mint_overflowing_the_destination_balance_is_rejected() {
    let mut store = ConfigStore::new();
    initialize_config(&mut store, admin()).unwrap();
    let (authority, exponent) = program_authority().unwrap();
    let mut ledger = Ledger {
        assets: vec![Asset { decimals: 6, mint_authority: authority, supply: 0 }],
        accounts: vec![TokenAccount {
            asset: 0,
            owner: Address::new([7u8; 32]),
            balance: u64::MAX,
        }],
    };
    assert_eq!(
        admin_mint(&store, &admin(), &mut ledger, 0, 0, exponent, 1),
        Err(Error::BalanceOverflow)
    );
    assert_eq!(ledger.assets[0].supply, 0);
    assert_eq!(ledger.accounts[0].balance, u64::MAX);
}

#[test]
fn external_authority_asset_rejects_the_program_proof() {
    // An asset whose authority is an explicit external signer: the program
    // authority's proof does not re-derive to it, so delegated minting fails.
    let (store, mut ledger, exponent) = setup();
    let external_authority = Address::new([4u8; 32]);
    let asset = initialize_token_mint(&mut ledger, external_authority);
    let holder = Address::new([5u8; 32]);
    let account = ledger.create_account(asset, holder).unwrap();
    assert_eq!(
        admin_mint(&store, &admin(), &mut ledger, asset, account, exponent, 1),
        Err(Error::InvalidAuthorityProof)
    );
}
