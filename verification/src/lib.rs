//! An account-based value ledger with a debt/borrow subsystem.
//!
//! The library has three parts:
//!
//! * a fixed-width binary codec for ledger account records and debt-log
//!   entries ([`codec`]), with the canonical byte ordering of counterparty
//!   pairs ([`addr`]) and the caller request formats ([`request`]),
//! * the ledger engine, which applies the five account operations
//!   (provision, credit, transfer, freeze, borrow) under strict numeric
//!   invariants, both on typed records ([`ledger`]) and in place on their
//!   backing buffers ([`engine`]),
//! * debt-log reconciliation, which folds successive borrow events between
//!   the same counterparty pair into one signed running total and keeps a
//!   bounded registry of known counterparties ([`debtlog`], [`registry`]).
//!
//! Storage provisioning, signature checking and transaction submission are
//! collaborators outside this crate: every function here is a terminating
//! computation over plain values, verified against its contract.

pub mod addr;
pub mod codec;
pub mod debtlog;
pub mod engine;
pub mod error;
pub mod ledger;
pub mod registry;
pub mod request;
