//! Escrow-backed value exchange coordinated by the TGP control-plane protocol.

use vstd::prelude::*;

pub mod amount;
pub mod controller;
pub mod escrow;
pub mod gateway;
pub mod http;
pub mod json;
pub mod ledger;
pub mod tgp;
pub mod vault;
pub mod wire;
pub mod zk;

verus! {

/// Version of this library.
pub const VERSION: &'static str = "0.1.0";

} // verus!
