use defi_learning::address::Address;
use defi_learning::derivation::program_authority;
use defi_learning::errors::Error;
use defi_learning::instructions::{
    admin_mint, initialize_config, initialize_program_controlled_token_mint,
    initialize_token_mint, transfer_token,
};
use defi_learning::ledger::{Asset, Ledger, TokenAccount};
use defi_learning::state::ConfigStore;

fn admin() -> Address {
    Address::new([1u8; 32])
}

fn alice() -> Address {
    Address::new([7u8; 32])
}

fn bob() -> Address {
    Address::new([8u8; 32])
}

/// A deployment with one program-controlled asset, 100 tokens minted into
/// alice's account (index 0), and an empty account of bob's (index 1).
fn setup() -> Ledger {
    let mut store = ConfigStore::new();
    initialize_config(&mut store, admin()).unwrap();
    let mut ledger = Ledger::new();
    let asset = initialize_program_controlled_token_mint(&mut ledger).unwrap();
    ledger.create_account(asset, alice()).unwrap();
    ledger.create_account(asset, bob()).unwrap();
    let (_, exponent) = program_authority().unwrap();
    admin_mint(&store, &admin(), &mut ledger, asset, 0, exponent, 100).unwrap();
    ledger
}

#[test]
fn owner_signed_transfer_moves_balance_and_keeps_supply() {
    let mut ledger = setup();
    // Signed by the source owner, who is not the admin: the admin plays no
    // part in transfers.
    assert_eq!(transfer_token(&mut ledger, 0, 1, 30, &alice()), Ok(()));
    assert_eq!(ledger.accounts[0].balance, 70);
    assert_eq!(ledger.accounts[1].balance, 30);
    assert_eq!(ledger.assets[0].supply, 100);
}

#[test]
fn transfer_without_owner_signature_is_rejected_and_balances_unchanged() {
    let mut ledger = setup();
    // Neither the recipient nor even the admin may move alice's tokens.
    assert_eq!(
        transfer_token(&mut ledger, 0, 1, 30, &bob()),
        Err(Error::MissingOwnerSignature)
    );
    assert_eq!(
        transfer_token(&mut ledger, 0, 1, 30, &admin()),
        Err(Error::MissingOwnerSignature)
    );
    assert_eq!(ledger.accounts[0].balance, 100);
    assert_eq!(ledger.accounts[1].balance, 0);
}

#[test]
fn cross_asset_transfer_is_rejected_before_any_mutation() {
    let mut ledger = setup();
    let other_asset = initialize_token_mint(&mut ledger, Address::new([4u8; 32]));
    let other_account = ledger.create_account(other_asset, bob()).unwrap();
    assert_eq!(
        transfer_token(&mut ledger, 0, other_account, 10, &alice()),
        Err(Error::AssetMismatch)
    );
    assert_eq!(ledger.accounts[0].balance, 100);
    assert_eq!(ledger.accounts[other_account].balance, 0);
}

#[test]
fn overdrawn_transfer_is_rejected() {
    let mut ledger = setup();
    assert_eq!(
        transfer_token(&mut ledger, 0, 1, 101, &alice()),
        Err(Error::InsufficientBalance)
    );
    assert_eq!(ledger.accounts[0].balance, 100);
    assert_eq!(ledger.accounts[1].balance, 0);
}

#[test]
fn transfer_to_missing_account_is_rejected() {
    let mut ledger = setup();
    assert_eq!(
        transfer_token(&mut ledger, 0, 9, 1, &alice()),
        Err(Error::NoSuchAccount)
    );
    assert_eq!(
        transfer_token(&mut ledger, 9, 0, 1, &alice()),
        Err(Error::NoSuchAccount)
    );
}

#[test]
fn transfer_overflowing_the_destination_is_rejected() {
    let mut ledger = Ledger {
        assets: vec![Asset {
            decimals: 6,
            mint_authority: Address::new([0u8; 32]),
            supply: u64::MAX,
        }],
        accounts: vec![
            TokenAccount { asset: 0, owner: alice(), balance: 5 },
            TokenAccount { asset: 0, owner: bob(), balance: u64::MAX },
        ],
    };
    assert_eq!(
        transfer_token(&mut ledger, 0, 1, 1, &alice()),
        Err(Error::BalanceOverflow)
    );
    assert_eq!(ledger.accounts[0].balance, 5);
    assert_eq!(ledger.accounts[1].balance, u64::MAX);
}

#[test]
fn transfer_to_self_changes_nothing() {
    let mut ledger = setup();
    assert_eq!(transfer_token(&mut ledger, 0, 0, 40, &alice()), Ok(()));
    assert_eq!(ledger.accounts[0].balance, 100);
    assert_eq!(ledger.assets[0].supply, 100);
}
