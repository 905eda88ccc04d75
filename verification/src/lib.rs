//! A deterministic accounting engine that releases a fixed token supply to a
//! single beneficiary, driven by an externally reported "ecostate" metric.
//!
//! The engine is pure: every handler takes the contract state, the balance
//! ledger, and the execution context as explicit values, and states its exact
//! effect in its contract. Storage, message (de)serialization, and address
//! canonicalization are left to the surrounding host.

pub mod codec;
pub mod contract;
pub mod errors;
pub mod laws;
pub mod ledger;
pub mod msg;
pub mod state;
