//! Ingestion core of a blockchain indexer: classification of ledger transfer
//! events into canonical transaction kinds, resolution of cross-chain token
//! traces, and chunked, last-write-wins persistence of token balances.

pub mod id;
pub mod balance;
pub mod strutil;
pub mod token;
pub mod transfer;
pub mod ibc;
pub mod transaction;
pub mod utils;
pub mod repository;
