//! A small double-entry bookkeeping ledger over a pooled, single-file
//! relational store.
//!
//! The ledger records accounts, transactions and postings.  Every
//! transaction is created atomically together with its postings, and the
//! amounts of those postings must sum to zero (the double-entry balance
//! invariant).  Balances are derived reads: the sum of all posting amounts
//! for one account.

pub mod config;
pub mod errors;
pub mod ledger;
pub mod repo;
pub mod store;
