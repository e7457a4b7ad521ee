//! Token-weighted on-chain governance: proposal creation, one-vote-per-account
//! voting inside a time-boxed window, quorum and acceptance evaluation, and
//! exactly-once execution of the approved treasury transfer.
//!
//! The governance engine is a pure state machine. Everything the host
//! environment would normally supply ambiently (caller identity, block
//! timestamp) is passed in as an [`engine::ExecutionContext`], and everything
//! the governance token supplies (balances, total supply, the transfer) is
//! passed in or handed back as plain values, so the whole decision logic is
//! verified.

pub mod engine;
pub mod laws;
pub mod ledger;
pub mod store;
pub mod types;
