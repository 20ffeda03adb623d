//! The core of a real-time chat relay.
//!
//! Clients connect over a duplex text channel, receive a generated
//! display name and a history snapshot, and exchange messages that are
//! broadcast to every connected peer, durably logged, and aged out
//! after a retention window. This crate holds the decision core of
//! that relay — the broadcast hub, the message store, the line formats
//! and the per-connection pump logic — with its behaviour stated in
//! contracts and machine-checked. The surrounding server (transport,
//! storage engine, task scheduling) performs what these functions
//! decide.

mod clock;
pub mod decimal;
pub mod message;
pub mod hub;
pub mod session;
pub mod store;

use vstd::prelude::*;

verus! {

/// Number of seconds a message may stay in the store before the
/// retention sweeper removes it (seven days).
pub const RETENTION_SECONDS: i64 = 604800;

/// The cutoff below which a message is too old to keep, given the
/// current time. Timestamps are seconds since the Unix epoch.
pub open spec fn retention_cutoff(now: int) -> int {
    now - RETENTION_SECONDS
}

} // verus!
