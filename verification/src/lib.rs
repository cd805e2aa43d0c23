//! Verified core of a decentralized dispute-resolution court: parties raise
//! disputes, an administrator approves them, jurors stake tokens to join, a
//! panel is drawn, jurors vote, and stakes are claimed back afterwards.

pub mod accounts;
pub mod errors;
pub mod instructions;
pub mod laws;
pub mod metadata;
pub mod pubkey;
pub mod solana;
pub mod state;
