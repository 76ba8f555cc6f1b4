//! The error taxonomy of the control plane and of the ledger interface.

use vstd::prelude::*;

verus! {

/// Why an operation was refused.  Every failure aborts the whole request;
/// callers see the specific kind, never a generic failure.
#[derive(Clone, Copy, Debug, PartialEq, Eq, Structural)]
pub enum Error {
    /// A config record already exists at the derived config address.
    AlreadyInitialized,
    /// No config record exists yet.
    NotInitialized,
    /// The caller's identity differs from the recorded admin.
    Unauthorized,
    /// The supplied proof exponent does not re-derive to the authority the
    /// asset was configured with.
    InvalidAuthorityProof,
    /// The derivation search space was exhausted without finding a keyless
    /// address.
    DerivationExhausted,
    /// The named asset does not exist in the ledger.
    NoSuchAsset,
    /// The named token account does not exist in the ledger.
    NoSuchAccount,
    /// Source and destination accounts declare different underlying assets,
    /// or the destination account is not of the asset being minted.
    AssetMismatch,
    /// The source account holds less than the transferred amount.
    InsufficientBalance,
    /// Minting the requested amount would overflow the asset's total supply.
    SupplyOverflow,
    /// Crediting the requested amount would overflow the destination balance.
    BalanceOverflow,
    /// The transfer request was not signed by the source account's owner.
    MissingOwnerSignature,
}

} // verus!
