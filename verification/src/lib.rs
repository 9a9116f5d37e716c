//! Audit library for finding privileged access held by non-administrative
//! directory accounts: a bounded-concurrency work-queue state machine, an
//! identity index over fetched collections, and the cross-reference
//! resolvers that turn role assignments, group memberships and group
//! ownerships into discovery records.

pub mod config;
pub mod discovery;
pub mod index;
pub mod laws;
pub mod model;
pub mod queue;
pub mod resolve;
