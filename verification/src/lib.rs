//! A reward ledger whose core is the redemption of in-game coins for
//! subscription time: a saga that debits the local ledger and then asks a
//! remote service to extend the subscription, with one authoritative outcome
//! per request.

pub mod config;
pub mod coordinator;
pub mod counters;
pub mod execution;
pub mod extender;
pub mod guard;
pub mod laws;
pub mod ledger;
pub mod outcome;
pub mod request;
pub mod saga;
pub mod store;
