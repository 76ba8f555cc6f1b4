//! An authority-gated token control plane.
//!
//! The library decides who may mint new tokens of a program-controlled
//! asset and forwards ordinary transfers to a token ledger.  Its two
//! pillars are a persistent admin identity that gates privileged
//! operations, and a deterministically derived, keyless program
//! authority that signs delegated mint operations by reproducible
//! derivation instead of by possession of a secret.

pub mod address;
pub mod auth;
pub mod constants;
pub mod derivation;
pub mod errors;
pub mod instructions;
pub mod laws;
pub mod ledger;
pub mod services;
pub mod state;

pub use crate::instructions::{
    admin_mint, initialize_config, initialize_program_controlled_token_mint,
    initialize_token_mint, transfer_token,
};

use vstd::prelude::*;

verus! {

} // verus!
