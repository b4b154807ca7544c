//! Custodial exchange-and-staking ledger for tokenized city assets.
//!
//! The library holds the accounting engine: the buy/sell pricing arithmetic,
//! the custodial vault bookkeeping, and the staking and reward-accrual state
//! machine. Each operation works on plain records, validates everything
//! before it mutates anything, and returns the external transfers that the
//! surrounding platform must perform atomically with the record changes.

pub mod error;
pub mod key;
pub mod state;
pub mod vault;
pub mod pricing;
pub mod exchange;
pub mod reward;
pub mod staking;
pub mod admin;
pub mod program;

pub use program::{buy, claim, close_stake, sell, stake, unstake, vault_initialize, withdraw};
