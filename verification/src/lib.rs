//! Verified bookkeeping core for a multi-party physical-goods supply chain.
//!
//! Every record (identities, factories, products, warehouses, orders,
//! logistics, sellers, stock and transaction entries) is a plain value, and
//! every operation is a verified transition over the records it touches.
//! The durable record store, the raw value transfer primitive and the clock
//! are external collaborators: callers load the records, hand in the current
//! balances, the rent reserve and the timestamp, and apply the returned
//! balance changes.

pub mod address;
pub mod distribution;
pub mod errors;
pub mod identity;
pub mod laws;
pub mod production;
pub mod retail;
pub mod settlement;
pub mod states;
