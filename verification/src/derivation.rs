//! The deterministic address deriver.
//!
//! `derive` maps a namespace tag to an (address, proof-exponent) pair.  The
//! search walks the exponent downward from its largest value and keeps the
//! first candidate that falls outside the domain of key-holdable (curve)
//! addresses, so the pair is a pure function of the tag and the global
//! derivation rule, and the derived address is provably keyless.

use vstd::prelude::*;
use crate::address::Address;
use crate::constants::{config_tag, config_tag_spec, mint_authority_tag, mint_authority_tag_spec, program_id, program_id_spec};
use crate::errors::Error;

verus! {

/// What the outside derivation rule returns for one candidate: the 32-byte
/// digest of (tag, exponent, program id) if it is keyless, `None` if the
/// digest lies on the curve.  A function of its arguments alone.
pub uninterp spec fn candidate_of(tag: Seq<u8>, exponent: u8, program_id: Seq<u8>) -> Option<Seq<u8>>;

/// Whether a 32-byte value lies on the Ed25519 curve, i.e. is a valid
/// public key for which a private key can exist.
pub uninterp spec fn on_curve(address: Seq<u8>) -> bool;

/// Relies on `Pubkey::create_program_address` (anchor_lang's re-export of
/// solana-pubkey): it hashes the seeds `[tag, [exponent]]` together with the
/// program id and a fixed marker, so the candidate is a function of the
/// arguments alone; it returns the 32-byte digest iff the digest is not a
/// curve point, and an error otherwise.
#[verifier::external_body]
pub(crate) fn candidate_address(tag: &[u8], exponent: u8, program_id: &Address) -> (r: Option<Address>)
    requires
        tag@.len() <= 32,
    ensures
        r is Some <==> candidate_of(tag@, exponent, program_id@) is Some,
        r is Some ==> r->0@ == candidate_of(tag@, exponent, program_id@)->0,
        r is Some ==> !on_curve(r->0@),
{
    let pid = anchor_lang::solana_program::pubkey::Pubkey::new_from_array(program_id.bytes);
    let seeds: &[&[u8]] = &[tag, &[exponent]];
    match anchor_lang::solana_program::pubkey::Pubkey::create_program_address(seeds, &pid) {
        Ok(p) => Some(Address { bytes: p.to_bytes() }),
        Err(_) => None,
    }
}

/// Relies on `Pubkey::is_on_curve` (anchor_lang's re-export of
/// solana-pubkey): true iff the bytes decompress to an Ed25519 curve point.
#[verifier::external_body]
fn address_on_curve(address: &Address) -> (r: bool)
    ensures
        r == on_curve(address@),
{
    anchor_lang::solana_program::pubkey::Pubkey::new_from_array(address.bytes).is_on_curve()
}

/// True iff no private key can exist for the address: it lies outside the
/// domain of key-holdable curve points.
pub fn is_keyless(address: &Address) -> (r: bool)
    ensures
        r == !on_curve(address@),
{
    !address_on_curve(address)
}

/// The first keyless candidate found walking the exponent downward from
/// `exponent` to zero.
pub open spec fn derive_from(tag: Seq<u8>, program_id: Seq<u8>, exponent: int) -> Option<(Seq<u8>, u8)>
    decreases exponent + 1,
{
    if exponent < 0 {
        None
    } else {
        match candidate_of(tag, exponent as u8, program_id) {
            Some(address) => Some((address, exponent as u8)),
            None => derive_from(tag, program_id, exponent - 1),
        }
    }
}

/// The derived (address, proof-exponent) pair for a namespace tag: the
/// whole search, started at the largest exponent.
pub open spec fn derived(tag: Seq<u8>, program_id: Seq<u8>) -> Option<(Seq<u8>, u8)> {
    derive_from(tag, program_id, 255)
}

/// Derive the keyless (address, proof-exponent) pair for a namespace tag.
///
/// Fails only if every exponent in the search space yields a curve point,
/// which is practically unreachable.
pub fn derive(tag: &[u8], program_id: &Address) -> (r: Result<(Address, u8), Error>)
    requires
        tag@.len() <= 32,
    ensures
        r is Ok <==> derived(tag@, program_id@) is Some,
        r is Ok ==> derived(tag@, program_id@) == Some(((r->Ok_0).0@, (r->Ok_0).1)),
        r is Ok ==> !on_curve((r->Ok_0).0@),
        r is Err ==> r->Err_0 == Error::DerivationExhausted,
{
    let mut exponent: u8 = 255;
    loop
        invariant
            tag@.len() <= 32,
            derived(tag@, program_id@) == derive_from(tag@, program_id@, exponent as int),
        decreases exponent as int + 1,
    {
        match candidate_address(tag, exponent, program_id) {
            Some(address) => {
                return Ok((address, exponent));
            },
            None => {},
        }
        if exponent == 0 {
            proof {
                assert(derive_from(tag@, program_id@, 0) == derive_from(tag@, program_id@, -1));
                assert(derive_from(tag@, program_id@, -1) is None);
            }
            return Err(Error::DerivationExhausted);
        }
        exponent = exponent - 1;
    }
}

/// Law: derivation is deterministic.  For a fixed namespace tag and program
/// identity, the derived (address, proof-exponent) pair is a function of
/// the tag alone, so repeated derivation always yields the same pair.
pub proof fn lemma_derivation_deterministic(
    tag: Seq<u8>,
    program_id: Seq<u8>,
    first: Option<(Seq<u8>, u8)>,
    second: Option<(Seq<u8>, u8)>,
)
    requires
        first == derived(tag, program_id),
        second == derived(tag, program_id),
    ensures
        first == second,
{
}

/// The derived address of the singleton config record, with its proof
/// exponent.  Reproducible from the fixed config tag alone, so any caller
/// can locate the record without a registry.
pub fn config_address() -> (r: Result<(Address, u8), Error>)
    ensures
        r is Ok <==> derived(config_tag_spec(), program_id_spec()) is Some,
        r is Ok ==> derived(config_tag_spec(), program_id_spec())
            == Some(((r->Ok_0).0@, (r->Ok_0).1)),
        r is Ok ==> !on_curve((r->Ok_0).0@),
        r is Err ==> r->Err_0 == Error::DerivationExhausted,
{
    let tag = config_tag();
    let pid = program_id();
    derive(tag.as_slice(), &pid)
}

/// The program authority: the keyless pair derived from the fixed mint
/// authority tag.  This is the signing identity for delegated minting.
pub fn program_authority() -> (r: Result<(Address, u8), Error>)
    ensures
        r is Ok <==> derived(mint_authority_tag_spec(), program_id_spec()) is Some,
        r is Ok ==> derived(mint_authority_tag_spec(), program_id_spec())
            == Some(((r->Ok_0).0@, (r->Ok_0).1)),
        r is Ok ==> !on_curve((r->Ok_0).0@),
        r is Err ==> r->Err_0 == Error::DerivationExhausted,
{
    let tag = mint_authority_tag();
    let pid = program_id();
    derive(tag.as_slice(), &pid)
}

} // verus!
