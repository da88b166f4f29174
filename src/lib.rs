//! Certificate-backed deposits on a cell-model ledger: the two on-chain
//! predicates that judge deposit, mint and withdraw transactions, and the
//! assembly steps that build transactions of exactly the accepted shapes.

pub mod calculator;
pub mod cell;
pub mod certificate_type;
pub mod check_lock;
pub mod config;
pub mod encoding;
pub mod hash;
pub mod laws;
pub mod operation;
pub mod protocol;
pub mod spore;
