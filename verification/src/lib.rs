//! Escrowed fitness wagers between two parties.
//!
//! A creator stakes value on a challenge, a second party accepts it, both
//! report a score, and adjudication awards twice the stake to the strictly
//! higher score. Until someone accepts, the creator may cancel and take the
//! stake back.
//!
//! The crate holds the rules and the registry of wagers and proves them
//! against a mathematical model. It never moves funds and never publishes
//! anything itself: each operation takes the caller's identity, the attached
//! value and the time as plain arguments, names the transfer the ledger has to
//! make, and returns the event to publish once the operation has succeeded.

pub mod account;
pub mod challenge;
pub mod contract;
pub mod error;
pub mod events;
pub mod laws;
pub mod ledger;
pub mod model;
