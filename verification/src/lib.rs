//! Trade execution and key-custody core for a custodial Solana trading agent.
//!
//! The library holds the verified core: the key vault that keeps private keys
//! only in authenticated-encrypted form, the limit guard that admits or
//! rejects trades against per-user ceilings, the trade ledger with its
//! terminal-status invariant, and the trade-execution state machine that ties
//! them together. I/O shells (HTTP, chat, persistence engines) live outside
//! and drive the state machine through plain values.

pub mod config;
pub mod errors;
pub mod executor;
pub mod keyvault;
pub mod ledger;
pub mod limits;
pub mod quote;
pub mod retry;
pub mod solana;
pub mod telegram;
pub mod wallets;
pub mod window;
