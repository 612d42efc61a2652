//! The ledger's data model: amounts, balances, transactions, accounts.

pub mod account;
pub mod balance;
pub mod common;
pub mod error;
pub mod ledger;
pub mod transaction;
