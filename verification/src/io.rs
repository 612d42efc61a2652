//! The records at the ledger's edges: what comes in, and what goes out.

pub mod input;
pub mod output;
