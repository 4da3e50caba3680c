//! A cross-chain payment settlement engine with its balance ledger, chain
//! registry and payment record store, together with a direct payment ledger
//! and a bill-splitting ledger.
//!
//! The execution environment (the calling account, the current time and the
//! value transferred with a call) is handed to each operation as plain
//! parameters, and every observable signal is appended to an event log that
//! the caller may drain.

pub mod account;
pub mod bill_splitting;
pub mod ledger;
pub mod payment;
pub mod registry;
pub mod store;
pub mod table;
pub mod xcm_handler;
