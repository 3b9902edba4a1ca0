//! A single-item, open ascending-bid auction as a verified state machine.
//!
//! [`contract`] opens an auction and dispatches actions and queries;
//! [`exec`] holds the three actions (bid, close, retract) with the exact
//! outcome of each; [`query`] the read-only answers; [`laws`] the properties
//! that hold across actions. Actions never move funds themselves: they return
//! the transfers for the host to carry out.

pub mod contract;
pub mod error;
pub mod exec;
pub mod laws;
pub mod ledger;
pub mod msg;
pub mod query;
pub mod state;

pub use crate::error::ContractError;
