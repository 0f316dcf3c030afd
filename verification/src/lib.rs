//! An escrow-and-settlement engine for conditional payments between two
//! parties.  Funds attached to a record are held by the engine and released
//! to the payee, or refunded to the payer, only when the record's proof
//! policy is satisfied; expiry refunds and a dispute window with a designated
//! arbiter guarantee that funds are never stuck and never move twice.
//!
//! The engine itself is pure: every entry point is a function from the
//! current store, the caller, the block time and the call's arguments to a
//! new store and a list of transfer orders.  Performing the transfers, and
//! persisting the store, is the host's business.

pub mod contract;
pub mod error;
pub mod helpers;
pub mod laws;
pub mod msg;
pub mod queries;
pub mod state;
pub mod tasks;
pub mod text;
