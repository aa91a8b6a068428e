//! A factory module for on-ledger asset collections.
//!
//! The factory spawns child asset-registry modules on demand, correlates the
//! host's asynchronous instantiation replies back to a durable pending record,
//! and validates batched mint and transfer operations before any execution
//! intent is emitted.  All state transitions are pure functions over
//! [`state::FactoryState`] (or [`token::TokenState`] for the child registry
//! itself): the host shell persists the state, performs queries, and delivers
//! the intents that these functions return.

pub mod contract;
pub mod error;
pub mod msg;
pub mod state;
pub mod token;
