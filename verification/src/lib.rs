//! A ledger of accounts, one for each client. Rows are decoded into
//! transactions, each transaction is applied to the account of its client,
//! and what the rules of the ledger forbid is turned down and leaves the
//! account as it was.
//!
//! - [`amount`]: money, as a fixed-point number of four fractional digits.
//! - [`transaction`]: actions and transactions, and the decoding of a row.
//! - [`account`]: the account of one client and what a transaction does to it.
//! - [`engine`]: the accounts of all clients, and a run over many rows.
//! - [`report`]: the lines in which the accounts are reported.
//! - [`laws`]: what holds of every account and of every run.
//! - [`error`]: what a row or a transaction is turned down for.
//! - [`decimal`], [`record`], [`integer`]: the calls into other crates and
//!   into std that the rest relies on without proof.

pub mod account;
pub mod amount;
pub mod decimal;
pub mod engine;
pub mod error;
pub mod integer;
pub mod laws;
pub mod record;
pub mod report;
pub mod transaction;
