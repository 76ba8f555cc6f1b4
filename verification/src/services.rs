//! The delegated signing service.
//!
//! A pending mint needs the program's own authority.  The service packages
//! the fixed mint-authority namespace tag together with the caller-supplied
//! proof exponent as the signer proof attached to the outgoing ledger call.
//! The program never holds a secret: the ledger accepts the proof exactly
//! when it re-derives to the authority the asset was configured with, and
//! rejects a mismatched exponent with `InvalidAuthorityProof`.

use vstd::prelude::*;
use crate::constants::{mint_authority_tag, mint_authority_tag_spec};
use crate::errors::Error;
use crate::ledger::{Asset, Ledger, TokenAccount, mint_refusal};

verus! {

/// A pending delegated mint: which asset, into which account, how much,
/// and the proof exponent discovered at derivation time.
#[derive(Clone, Copy, Debug)]
pub struct MintToken {
    pub asset: usize,
    pub destination: usize,
    pub exponent: u8,
    pub amount: u64,
}

/// Attach the program's signer proof — the fixed mint-authority tag plus
/// the supplied exponent — to a mint operation and forward it to the
/// ledger.  The service is a faithful, non-authoritative packager: whether
/// the proof is accepted is decided inside the ledger's verification.
pub fn mint_token(ledger: &mut Ledger, data: MintToken) -> (r: Result<(), Error>)
    ensures
        r is Err <==> mint_refusal(
            *old(ledger), data.asset, data.destination, data.amount,
            mint_authority_tag_spec(), data.exponent) is Some,
        r is Err ==> Some(r->Err_0) == mint_refusal(
            *old(ledger), data.asset, data.destination, data.amount,
            mint_authority_tag_spec(), data.exponent),
        r is Err ==> *final(ledger) == *old(ledger),
        r is Ok ==> final(ledger).assets@ == old(ledger).assets@.update(
            data.asset as int,
            (Asset {
                decimals: old(ledger).assets@[data.asset as int].decimals,
                mint_authority: old(ledger).assets@[data.asset as int].mint_authority,
                supply: (old(ledger).assets@[data.asset as int].supply + data.amount) as u64,
            }),
        ),
        r is Ok ==> final(ledger).accounts@ == old(ledger).accounts@.update(
            data.destination as int,
            (TokenAccount {
                asset: old(ledger).accounts@[data.destination as int].asset,
                owner: old(ledger).accounts@[data.destination as int].owner,
                balance: (old(ledger).accounts@[data.destination as int].balance
                    + data.amount) as u64,
            }),
        ),
{
    let tag = mint_authority_tag();
    ledger.mint(data.asset, data.destination, data.amount, tag.as_slice(), data.exponent)
}

} // verus!
