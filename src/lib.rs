//! A typed bridge over the stargate query and message envelopes.
//!
//! `query` sends an encoded request through a host querier and sorts what
//! comes back into transport, remote and decode failures; `message` wraps an
//! encoded payload with its routing path for inclusion in a transaction.

pub mod dex;
pub mod envelope;
pub mod error;
pub mod message;
pub mod query;
pub mod timestamp;
