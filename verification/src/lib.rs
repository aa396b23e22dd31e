//! A minimal account-balance ledger with a faucet and an append-only
//! transfer log.
//!
//! The ledger owns a mapping from accounts to balances, a fixed total
//! supply, a distributor account that starts with the whole supply, and a
//! log of transfer records. Transfers move value between accounts without
//! minting or burning; the faucet drips a fixed amount from the
//! distributor and records the movement in the log.

pub mod balances;
pub mod dapp;
