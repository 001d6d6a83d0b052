//! An escrowed token swap: two parties exchange fungible-token holdings
//! through a neutral vault account whose transfer authority is held by a
//! deterministically derived controller identity for the lifetime of the
//! trade.

pub mod authority;
pub mod errors;
pub mod escrow;
pub mod keys;
pub mod laws;
pub mod ledger;
