//! The operations surfaced to external callers: thin forwarders that
//! assemble validated parameters, run the authorization guard where one is
//! required, and invoke the ledger.

use vstd::prelude::*;
use crate::address::Address;
use crate::auth::{authorize, authorized};
use crate::constants::{mint_authority_tag_spec, program_id_spec};
use crate::derivation::{derived, program_authority};
use crate::errors::Error;
use crate::ledger::{Asset, Ledger, TokenAccount, mint_refusal, transfer_refusal, transferred_accounts};
use crate::services::{MintToken, mint_token};
use crate::state::{Config, ConfigStore};

verus! {

/// Create the singleton config record, fixing the admin identity for the
/// deployment.  First writer wins: a second call fails with
/// `AlreadyInitialized` and changes nothing.
pub fn initialize_config(store: &mut ConfigStore, admin: Address) -> (r: Result<(), Error>)
    ensures
        old(store).record is Some ==> r == Err::<(), Error>(Error::AlreadyInitialized)
            && final(store).record == old(store).record,
        old(store).record is None ==> r == Ok::<(), Error>(())
            && final(store).record == Some(Config { admin }),
{
    store.initialize(admin)
}

/// Create a new asset whose mint authority is an explicit external signer.
/// No admin guard: creation authority is whoever signs the creating request.
pub fn initialize_token_mint(ledger: &mut Ledger, mint_authority: Address) -> (id: usize)
    ensures
        id == old(ledger).assets@.len(),
        final(ledger).assets@ == old(ledger).assets@.push(
            (Asset { decimals: 6, mint_authority, supply: 0 }),
        ),
        final(ledger).accounts@ == old(ledger).accounts@,
{
    ledger.create_asset(6, mint_authority)
}

/// Create a new asset whose mint authority is the derived, keyless program
/// authority, so that only delegated mints through this program can ever
/// mint it.
pub fn initialize_program_controlled_token_mint(ledger: &mut Ledger) -> (r: Result<usize, Error>)
    ensures
        r is Ok <==> derived(mint_authority_tag_spec(), program_id_spec()) is Some,
        r is Err ==> r->Err_0 == Error::DerivationExhausted && *final(ledger) == *old(ledger),
        r is Ok ==> r->Ok_0 == old(ledger).assets@.len()
            && final(ledger).accounts@ == old(ledger).accounts@
            && final(ledger).assets@ == old(ledger).assets@.push(final(ledger).assets@.last())
            && final(ledger).assets@.last().decimals == 6
            && final(ledger).assets@.last().supply == 0
            && final(ledger).assets@.last().mint_authority@
                == (derived(mint_authority_tag_spec(), program_id_spec())->0).0,
{
    let authority = match program_authority() {
        Ok((address, _)) => address,
        Err(e) => {
            return Err(e);
        },
    };
    Ok(ledger.create_asset(6, authority))
}

/// Why an admin mint would be refused, or `None` if it is accepted: the
/// config must exist, the caller must be the recorded admin, and then the
/// ledger's own mint checks apply, in that order.
pub open spec fn admin_mint_refusal(
    store: ConfigStore,
    caller: Seq<u8>,
    ledger: Ledger,
    asset: usize,
    destination: usize,
    amount: u64,
    exponent: u8,
) -> Option<Error> {
    if store.record is None {
        Some(Error::NotInitialized)
    } else if !authorized(store.record->0, caller) {
        Some(Error::Unauthorized)
    } else {
        mint_refusal(ledger, asset, destination, amount, mint_authority_tag_spec(), exponent)
    }
}

/// Mint new tokens into a destination account.  The authorization guard
/// runs first, before any ledger call: a caller other than the recorded
/// admin is refused with `Unauthorized` and nothing changes.  The mint is
/// then delegated to the ledger under the program authority's signer
/// proof.  On success the asset's supply and the destination's balance
/// each grow by exactly `amount`.
pub fn admin_mint(
    store: &ConfigStore,
    caller: &Address,
    ledger: &mut Ledger,
    asset: usize,
    destination: usize,
    proof_exponent: u8,
    amount: u64,
) -> (r: Result<(), Error>)
    ensures
        r is Err <==> admin_mint_refusal(
            *store, caller@, *old(ledger), asset, destination, amount, proof_exponent) is Some,
        r is Err ==> Some(r->Err_0) == admin_mint_refusal(
            *store, caller@, *old(ledger), asset, destination, amount, proof_exponent),
        r is Err ==> *final(ledger) == *old(ledger),
        r is Ok ==> final(ledger).assets@ == old(ledger).assets@.update(asset as int, (Asset {
            decimals: old(ledger).assets@[asset as int].decimals,
            mint_authority: old(ledger).assets@[asset as int].mint_authority,
            supply: (old(ledger).assets@[asset as int].supply + amount) as u64,
        })),
        r is Ok ==> final(ledger).accounts@ == old(ledger).accounts@.update(
            destination as int,
            (TokenAccount {
                asset: old(ledger).accounts@[destination as int].asset,
                owner: old(ledger).accounts@[destination as int].owner,
                balance: (old(ledger).accounts@[destination as int].balance + amount) as u64,
            }),
        ),
{
    let config = match store.get() {
        Ok(config) => config,
        Err(e) => {
            return Err(e);
        },
    };
    match authorize(config, caller) {
        Ok(()) => {},
        Err(e) => {
            return Err(e);
        },
    }
    mint_token(ledger, MintToken { asset, destination, exponent: proof_exponent, amount })
}

/// Move tokens between two accounts of the same asset on the source
/// owner's signature.  The admin plays no part: neither the config record
/// nor the program authority is consulted, and no asset's supply changes.
pub fn transfer_token(
    ledger: &mut Ledger,
    source: usize,
    destination: usize,
    amount: u64,
    owner: &Address,
) -> (r: Result<(), Error>)
    ensures
        final(ledger).assets@ == old(ledger).assets@,
        r is Err <==> transfer_refusal(*old(ledger), source, destination, amount, owner@)
            is Some,
        r is Err ==> Some(r->Err_0) == transfer_refusal(
            *old(ledger), source, destination, amount, owner@),
        r is Err ==> *final(ledger) == *old(ledger),
        r is Ok ==> final(ledger).accounts@ == transferred_accounts(
            old(ledger).accounts@, source as int, destination as int, amount),
{
    ledger.transfer(source, destination, amount, owner)
}

} // verus!
