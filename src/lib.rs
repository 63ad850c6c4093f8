//! Escrowed cross-asset swaps settled by an off-ledger worker.
//!
//! The crate holds the verified core: the canonical binary encoding of ledger
//! transactions and signed off-ledger messages, the escrow ledger's state
//! machine, the swap saga's decisions, and the interpretation of execution
//! outcomes reported by the ledger's RPC endpoint.
pub mod calendar;
pub mod calls;
pub mod crypto;
pub mod encoding;
pub mod fees;
pub mod intents;
pub mod ledger;
pub mod outcome;
pub mod primitives;
pub mod saga;
pub mod text;
pub mod transaction;
pub mod types;
