//! An authenticated in-memory ledger engine.
//!
//! Accounts are named by compressed secp256k1 public keys; a transfer is
//! applied only when it carries a valid signature by the source account's
//! key, neither account is frozen, and the balances admit it. Settled
//! actions are recorded in an append-only history log.

pub mod crypto;
pub mod errors;
pub mod history;
pub mod laws;
pub mod ledger;
pub mod message;
pub mod store;
