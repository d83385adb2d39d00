//! A fungible-token ledger: an account-balance store with owner-authorized
//! delegated transfers, a conservation-of-supply invariant, and a recorded
//! event log; beside it, a small boolean/seed state holder.
//!
//! The host environment supplies the calling principal for each operation and
//! transports the recorded events; both are passed in and out as plain values.

pub mod account;
pub mod allowances;
pub mod balances;
pub mod flipper;
pub mod token;
