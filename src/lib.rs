//! A small client library for a Solana cluster: exact rendering of token
//! amounts, mnemonic-based key generation, address resolution for balance
//! queries and the text of the cluster, supply and balance reports.

pub mod address;
pub mod amount;
pub mod clock;
pub mod command;
pub mod keygen;
pub mod report;
