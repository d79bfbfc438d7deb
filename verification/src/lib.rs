//! Campaign-ledger logic for a crowdfunding program.
//!
//! A single `Campaign` record moves through a small set of one-way state
//! transitions: creation, pledging, cancellation, ending, and fund
//! withdrawal, each guarded by authorization and timing checks. The hosting
//! runtime owns the clock, account balances, the reserve floor and value
//! transfer; it hands those to this crate as plain values, and this crate
//! decides and applies every transition.

pub mod campaign;
pub mod laws;
pub mod ledger;
