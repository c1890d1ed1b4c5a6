//! A permissioned registry and marketplace for tokenized carbon credits.
//!
//! The library is the decision core of the system: a role-based
//! access-control ledger, a carbon-credit asset registry, an
//! emissions-compliance ledger, and a decaying-price (Dutch) auction engine.
//! Every operation is a pure state transition over plain values; the
//! surrounding execution substrate (the record store, the fungible-token
//! ledger holding actual balances, the clock, and the event transport) is an
//! external collaborator that supplies inputs such as the current time and
//! the caller's credit balance, and applies each returned state and event
//! atomically.

pub mod access_control;
pub mod auction;
pub mod carbon_credits;
pub mod errors;
pub mod events;
pub mod industry;
pub mod state;
