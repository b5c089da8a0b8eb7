//! A Solana transaction bundler: it assembles client instructions into
//! transactions, prices them from recent prioritization fees, validates them
//! against a security policy, and drives each transaction through a
//! simulate / sign / submit / confirm state machine over a weighted,
//! health-scored pool of RPC endpoints.
//!
//! All decision logic lives in this crate and is verified; the surrounding
//! process (file, environment and network access) feeds it plain values.

pub mod bundler;
pub mod cli;
pub mod codec;
pub mod config;
pub mod errors;
pub mod fees;
pub mod pool;
pub mod signing;
pub mod simulator;
pub mod transaction;
pub mod types;

pub use errors::BundlerError;
pub use errors::BundlerResult;
