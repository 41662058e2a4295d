//! A ledger that keeps track of the wealthiest of its registered participants.
//!
//! `state` holds the store and the records it keeps, `msg` the request and
//! response types, `contract` the transitions that drive the store, and
//! `laws` what holds across them.
pub mod contract;
pub mod msg;
pub mod laws;
pub mod state;
