//! Protocol constants: the fixed namespace tags and the program identity.
//!
//! The tags are versioned protocol constants: the external ledger re-derives
//! authority addresses from the very same bytes, so they must never change.

use vstd::prelude::*;
use crate::address::Address;

verus! {

/// The namespace tag under which the config record's address is derived:
/// the bytes of `"config"`.
pub open spec fn config_tag_spec() -> Seq<u8> {
    seq![99u8, 111u8, 110u8, 102u8, 105u8, 103u8]
}

pub fn config_tag() -> (t: Vec<u8>)
    ensures
        t@ == config_tag_spec(),
{
    let mut t: Vec<u8> = Vec::new();
    t.push(99);
    t.push(111);
    t.push(110);
    t.push(102);
    t.push(105);
    t.push(103);
    proof {
        assert(t@ =~= config_tag_spec());
    }
    t
}

/// The namespace tag under which the program's mint authority is derived:
/// the bytes of `"mint_authority"`.
pub open spec fn mint_authority_tag_spec() -> Seq<u8> {
    seq![109u8, 105u8, 110u8, 116u8, 95u8, 97u8, 117u8, 116u8, 104u8, 111u8, 114u8, 105u8, 116u8, 121u8]
}

pub fn mint_authority_tag() -> (t: Vec<u8>)
    ensures
        t@ == mint_authority_tag_spec(),
{
    let mut t: Vec<u8> = Vec::new();
    t.push(109);
    t.push(105);
    t.push(110);
    t.push(116);
    t.push(95);
    t.push(97);
    t.push(117);
    t.push(116);
    t.push(104);
    t.push(111);
    t.push(114);
    t.push(105);
    t.push(116);
    t.push(121);
    proof {
        assert(t@ =~= mint_authority_tag_spec());
    }
    t
}

/// The identity of the program itself, a fixed input of the global
/// derivation rule.
pub open spec fn program_id_spec() -> Seq<u8> {
    Seq::new(32, |i: int| 29u8)
}

pub fn program_id() -> (a: Address)
    ensures
        a@ == program_id_spec(),
{
    let a = Address::new([29u8; 32]);
    proof {
        assert(a@ =~= program_id_spec());
    }
    a
}

} // verus!
