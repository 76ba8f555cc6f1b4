//! A model of the external token ledger service at its interface boundary.
//!
//! The ledger is the system of record for asset supply and account
//! balances.  This module states its interface contract — what creating,
//! minting and transferring do to supply and balances, and how the ledger
//! verifies a delegated authority proof by re-deriving the authority
//! address — so that the control plane's guarantees can be proved against
//! it.  The ledger accepts a (tag, exponent) proof as a signature exactly
//! when the pair re-derives to the authority the asset was configured with.

use vstd::prelude::*;
use crate::address::Address;
use crate::constants::{program_id, program_id_spec};
use crate::derivation::{candidate_address, candidate_of};
use crate::errors::Error;

verus! {

/// A token asset: its precision, the authority allowed to mint it, and the
/// total supply in circulation.
#[derive(Clone, Copy, Debug)]
pub struct Asset {
    pub decimals: u8,
    pub mint_authority: Address,
    pub supply: u64,
}

/// A token account: the asset it holds, its owner, and its balance.
#[derive(Clone, Copy, Debug)]
pub struct TokenAccount {
    pub asset: usize,
    pub owner: Address,
    pub balance: u64,
}

/// The ledger state: assets and accounts, each referenced by its index.
pub struct Ledger {
    pub assets: Vec<Asset>,
    pub accounts: Vec<TokenAccount>,
}

/// Whether a (tag, exponent) pair proves control of an authority address:
/// the pair must re-derive, under the global derivation rule, to exactly
/// that address.
pub open spec fn authority_proof_ok(tag: Seq<u8>, exponent: u8, authority: Seq<u8>) -> bool {
    candidate_of(tag, exponent, program_id_spec()) == Some(authority)
}

/// Why a mint request would be refused, or `None` if it is accepted.
/// Checks run in this order, and the first failure is reported.
pub open spec fn mint_refusal(
    ledger: Ledger,
    asset: usize,
    destination: usize,
    amount: u64,
    tag: Seq<u8>,
    exponent: u8,
) -> Option<Error> {
    if asset >= ledger.assets@.len() {
        Some(Error::NoSuchAsset)
    } else if destination >= ledger.accounts@.len() {
        Some(Error::NoSuchAccount)
    } else if ledger.accounts@[destination as int].asset != asset {
        Some(Error::AssetMismatch)
    } else if !authority_proof_ok(tag, exponent, ledger.assets@[asset as int].mint_authority@) {
        Some(Error::InvalidAuthorityProof)
    } else if ledger.assets@[asset as int].supply + amount > u64::MAX {
        Some(Error::SupplyOverflow)
    } else if ledger.accounts@[destination as int].balance + amount > u64::MAX {
        Some(Error::BalanceOverflow)
    } else {
        None
    }
}

/// Why a transfer request would be refused, or `None` if it is accepted.
/// Checks run in this order, and the first failure is reported.
pub open spec fn transfer_refusal(
    ledger: Ledger,
    source: usize,
    destination: usize,
    amount: u64,
    signer: Seq<u8>,
) -> Option<Error> {
    if source >= ledger.accounts@.len() {
        Some(Error::NoSuchAccount)
    } else if destination >= ledger.accounts@.len() {
        Some(Error::NoSuchAccount)
    } else if signer != ledger.accounts@[source as int].owner@ {
        Some(Error::MissingOwnerSignature)
    } else if ledger.accounts@[source as int].asset != ledger.accounts@[destination as int].asset {
        Some(Error::AssetMismatch)
    } else if ledger.accounts@[source as int].balance < amount {
        Some(Error::InsufficientBalance)
    } else if source != destination && ledger.accounts@[destination as int].balance + amount
        > u64::MAX {
        Some(Error::BalanceOverflow)
    } else {
        None
    }
}

/// The account table after a successful transfer: the source debited, then
/// the destination credited.  A transfer to the source itself leaves the
/// balance as it was.
pub open spec fn transferred_accounts(
    accounts: Seq<TokenAccount>,
    source: int,
    destination: int,
    amount: u64,
) -> Seq<TokenAccount> {
    let debited = accounts.update(source, (TokenAccount {
        asset: accounts[source].asset,
        owner: accounts[source].owner,
        balance: (accounts[source].balance - amount) as u64,
    }));
    debited.update(destination, (TokenAccount {
        asset: debited[destination].asset,
        owner: debited[destination].owner,
        balance: (debited[destination].balance + amount) as u64,
    }))
}

impl Ledger {
    /// A ledger with no assets and no accounts.
    pub fn new() -> (l: Ledger)
        ensures
            l.assets@ == Seq::<Asset>::empty(),
            l.accounts@ == Seq::<TokenAccount>::empty(),
    {
        Ledger { assets: Vec::new(), accounts: Vec::new() }
    }

    /// Create a new asset with zero supply and a fixed mint authority;
    /// returns its index.
    pub fn create_asset(&mut self, decimals: u8, mint_authority: Address) -> (id: usize)
        ensures
            id == old(self).assets@.len(),
            final(self).assets@ == old(self).assets@.push(
                (Asset { decimals, mint_authority, supply: 0 }),
            ),
            final(self).accounts@ == old(self).accounts@,
    {
        let id = self.assets.len();
        self.assets.push(Asset { decimals, mint_authority, supply: 0 });
        id
    }

    /// Create an empty token account of an existing asset; returns its
    /// index.
    pub fn create_account(&mut self, asset: usize, owner: Address) -> (r: Result<usize, Error>)
        ensures
            asset < old(self).assets@.len() ==> r is Ok
                && r->Ok_0 == old(self).accounts@.len()
                && final(self).accounts@ == old(self).accounts@.push(
                    (TokenAccount { asset, owner, balance: 0 }),
                )
                && final(self).assets@ == old(self).assets@,
            asset >= old(self).assets@.len() ==> r == Err::<usize, Error>(Error::NoSuchAsset)
                && *final(self) == *old(self),
    {
        if asset >= self.assets.len() {
            return Err(Error::NoSuchAsset);
        }
        let id = self.accounts.len();
        self.accounts.push(TokenAccount { asset, owner, balance: 0 });
        Ok(id)
    }

    /// Mint `amount` new tokens of `asset` into `destination`, on the
    /// strength of a (tag, exponent) authority proof.  The ledger
    /// re-derives the address from the proof and accepts it as a signature
    /// only if it equals the asset's configured mint authority.  On success
    /// the supply and the destination balance each grow by exactly
    /// `amount`; on failure nothing changes.
    pub fn mint(
        &mut self,
        asset: usize,
        destination: usize,
        amount: u64,
        tag: &[u8],
        exponent: u8,
    ) -> (r: Result<(), Error>)
        requires
            tag@.len() <= 32,
        ensures
            r is Err <==> mint_refusal(*old(self), asset, destination, amount, tag@, exponent)
                is Some,
            r is Err ==> Some(r->Err_0) == mint_refusal(
                *old(self), asset, destination, amount, tag@, exponent),
            r is Err ==> *final(self) == *old(self),
            r is Ok ==> final(self).assets@ == old(self).assets@.update(asset as int, (Asset {
                decimals: old(self).assets@[asset as int].decimals,
                mint_authority: old(self).assets@[asset as int].mint_authority,
                supply: (old(self).assets@[asset as int].supply + amount) as u64,
            })),
            r is Ok ==> final(self).accounts@ == old(self).accounts@.update(
                destination as int,
                (TokenAccount {
                    asset: old(self).accounts@[destination as int].asset,
                    owner: old(self).accounts@[destination as int].owner,
                    balance: (old(self).accounts@[destination as int].balance + amount) as u64,
                }),
            ),
    {
        if asset >= self.assets.len() {
            return Err(Error::NoSuchAsset);
        }
        if destination >= self.accounts.len() {
            return Err(Error::NoSuchAccount);
        }
        if self.accounts[destination].asset != asset {
            return Err(Error::AssetMismatch);
        }
        let pid = program_id();
        let proof_ok = match candidate_address(tag, exponent, &pid) {
            Some(address) => address.equals(&self.assets[asset].mint_authority),
            None => false,
        };
        if !proof_ok {
            return Err(Error::InvalidAuthorityProof);
        }
        let supply = self.assets[asset].supply;
        if amount > u64::MAX - supply {
            return Err(Error::SupplyOverflow);
        }
        let balance = self.accounts[destination].balance;
        if amount > u64::MAX - balance {
            return Err(Error::BalanceOverflow);
        }
        let mut minted_asset = self.assets[asset];
        minted_asset.supply = supply + amount;
        self.assets[asset] = minted_asset;
        let mut credited = self.accounts[destination];
        credited.balance = balance + amount;
        self.accounts[destination] = credited;
        Ok(())
    }

    /// Move `amount` tokens between two accounts of the same asset, on the
    /// owner's signature.  Transfers never change any asset's supply or
    /// authority; on failure no balance changes.
    pub fn transfer(
        &mut self,
        source: usize,
        destination: usize,
        amount: u64,
        signer: &Address,
    ) -> (r: Result<(), Error>)
        ensures
            final(self).assets@ == old(self).assets@,
            r is Err <==> transfer_refusal(*old(self), source, destination, amount, signer@)
                is Some,
            r is Err ==> Some(r->Err_0) == transfer_refusal(
                *old(self), source, destination, amount, signer@),
            r is Err ==> *final(self) == *old(self),
            r is Ok ==> final(self).accounts@ == transferred_accounts(
                old(self).accounts@, source as int, destination as int, amount),
    {
        if source >= self.accounts.len() {
            return Err(Error::NoSuchAccount);
        }
        if destination >= self.accounts.len() {
            return Err(Error::NoSuchAccount);
        }
        if !signer.equals(&self.accounts[source].owner) {
            return Err(Error::MissingOwnerSignature);
        }
        if self.accounts[source].asset != self.accounts[destination].asset {
            return Err(Error::AssetMismatch);
        }
        let source_balance = self.accounts[source].balance;
        if source_balance < amount {
            return Err(Error::InsufficientBalance);
        }
        if source != destination && amount > u64::MAX - self.accounts[destination].balance {
            return Err(Error::BalanceOverflow);
        }
        let mut debited = self.accounts[source];
        debited.balance = source_balance - amount;
        self.accounts[source] = debited;
        let mut credited = self.accounts[destination];
        credited.balance = credited.balance + amount;
        self.accounts[destination] = credited;
        Ok(())
    }
}

} // verus!
