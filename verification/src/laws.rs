//! The guarantees of the control plane, stated as proved laws over the
//! interface contracts of the guard, the deriver and the ledger.

use vstd::prelude::*;
use crate::auth::authorized;
use crate::errors::Error;
use crate::instructions::admin_mint_refusal;
use crate::ledger::{Ledger, TokenAccount, authority_proof_ok, mint_refusal, transfer_refusal, transferred_accounts};
use crate::state::ConfigStore;

verus! {

/// Law: the admin guard is decisive.  An admin mint requested by any caller
/// other than the recorded admin is refused with `Unauthorized`, whatever
/// the rest of the request looks like; by `admin_mint`'s contract the
/// ledger — supply included — is then unchanged.
pub proof fn lemma_admin_guard(
    store: ConfigStore,
    caller: Seq<u8>,
    ledger: Ledger,
    asset: usize,
    destination: usize,
    amount: u64,
    exponent: u8,
)
    requires
        store.record is Some,
        caller != store.record->0.admin@,
    ensures
        admin_mint_refusal(store, caller, ledger, asset, destination, amount, exponent)
            == Some(Error::Unauthorized),
{
}

/// Law: an authorized mint is owed success.  When the caller is the
/// recorded admin, the destination account belongs to the asset, the proof
/// exponent re-derives to the asset's mint authority, and neither the
/// supply nor the destination balance would overflow, the request is
/// accepted; by `admin_mint`'s contract the supply and the destination
/// balance then each grow by exactly the requested amount.
pub proof fn lemma_authorized_mint_accepted(
    store: ConfigStore,
    caller: Seq<u8>,
    ledger: Ledger,
    asset: usize,
    destination: usize,
    amount: u64,
    tag: Seq<u8>,
    exponent: u8,
)
    requires
        store.record is Some,
        authorized(store.record->0, caller),
        asset < ledger.assets@.len(),
        destination < ledger.accounts@.len(),
        ledger.accounts@[destination as int].asset == asset,
        authority_proof_ok(tag, exponent, ledger.assets@[asset as int].mint_authority@),
        ledger.assets@[asset as int].supply + amount <= u64::MAX,
        ledger.accounts@[destination as int].balance + amount <= u64::MAX,
    ensures
        mint_refusal(ledger, asset, destination, amount, tag, exponent) is None,
{
}

/// Law: a mismatched proof is rejected before any bookkeeping.  If the
/// supplied exponent does not re-derive to the asset's configured mint
/// authority, the mint is refused with `InvalidAuthorityProof`; by the
/// ledger's contract no supply or balance then changes.
pub proof fn lemma_proof_mismatch_rejected(
    ledger: Ledger,
    asset: usize,
    destination: usize,
    amount: u64,
    tag: Seq<u8>,
    exponent: u8,
)
    requires
        asset < ledger.assets@.len(),
        destination < ledger.accounts@.len(),
        ledger.accounts@[destination as int].asset == asset,
        !authority_proof_ok(tag, exponent, ledger.assets@[asset as int].mint_authority@),
    ensures
        mint_refusal(ledger, asset, destination, amount, tag, exponent)
            == Some(Error::InvalidAuthorityProof),
{
}

/// Law: transfers are independent of the admin.  A transfer between two
/// accounts of the same asset, signed by the source owner, is accepted
/// whenever the source balance suffices and the destination balance does
/// not overflow — the acceptance condition names only the source owner,
/// never the config record or the program authority.  By `transfer`'s
/// contract the asset table, and with it every supply, is unchanged.
pub proof fn lemma_owner_transfer_accepted(
    ledger: Ledger,
    source: usize,
    destination: usize,
    amount: u64,
    signer: Seq<u8>,
)
    requires
        source < ledger.accounts@.len(),
        destination < ledger.accounts@.len(),
        signer == ledger.accounts@[source as int].owner@,
        ledger.accounts@[source as int].asset == ledger.accounts@[destination as int].asset,
        amount <= ledger.accounts@[source as int].balance,
        source != destination ==> ledger.accounts@[destination as int].balance + amount
            <= u64::MAX,
    ensures
        transfer_refusal(ledger, source, destination, amount, signer) is None,
{
}

/// Law: a transfer not signed by the source owner is rejected, whatever
/// identity did sign; by `transfer`'s contract both balances are then
/// unchanged.
pub proof fn lemma_unsigned_transfer_rejected(
    ledger: Ledger,
    source: usize,
    destination: usize,
    amount: u64,
    signer: Seq<u8>,
)
    requires
        source < ledger.accounts@.len(),
        destination < ledger.accounts@.len(),
        signer != ledger.accounts@[source as int].owner@,
    ensures
        transfer_refusal(ledger, source, destination, amount, signer)
            == Some(Error::MissingOwnerSignature),
{
}

/// Law: a transfer whose source and destination declare different
/// underlying assets is rejected with `AssetMismatch` before any balance
/// mutation.
pub proof fn lemma_cross_asset_rejected(
    ledger: Ledger,
    source: usize,
    destination: usize,
    amount: u64,
    signer: Seq<u8>,
)
    requires
        source < ledger.accounts@.len(),
        destination < ledger.accounts@.len(),
        signer == ledger.accounts@[source as int].owner@,
        ledger.accounts@[source as int].asset != ledger.accounts@[destination as int].asset,
    ensures
        transfer_refusal(ledger, source, destination, amount, signer)
            == Some(Error::AssetMismatch),
{
}

/// Law: a transfer moves balance, it never creates or destroys it.  After
/// a successful transfer between distinct accounts, the two balances sum
/// to what they summed to before, and every other account is untouched.
pub proof fn lemma_transfer_moves_balance(
    accounts: Seq<TokenAccount>,
    source: int,
    destination: int,
    amount: u64,
)
    requires
        0 <= source < accounts.len(),
        0 <= destination < accounts.len(),
        source != destination,
        amount <= accounts[source].balance,
        accounts[destination].balance + amount <= u64::MAX,
    ensures
        transferred_accounts(accounts, source, destination, amount).len() == accounts.len(),
        transferred_accounts(accounts, source, destination, amount)[source].balance
            + transferred_accounts(accounts, source, destination, amount)[destination].balance
            == accounts[source].balance + accounts[destination].balance,
        forall|i: int| 0 <= i < accounts.len() && i != source && i != destination
            ==> transferred_accounts(accounts, source, destination, amount)[i] == accounts[i],
{
}

} // verus!
