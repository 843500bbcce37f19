//! A per-user, per-asset account ledger.
//!
//! Accounts hold four fixed-point balances (available, frozen, total income,
//! total expense, all in millionths of a unit). Action types describe how one
//! operation changes each balance, and the ledger engine applies batches of
//! action requests atomically, exactly once per external order number, and
//! never lets a decremented balance go negative.

pub mod error;
pub mod amount;
pub mod action_type;
pub mod account;
pub mod asset_type;
pub mod account_log;
pub mod request;
pub mod service;
pub mod laws;
