//! Core of a push-notification relay: a token-keyed registry of broadcast
//! channels, a publish handler that fans a message out to every subscriber
//! of a routing key, and the per-connection session state machine.

pub mod connect;
pub mod json;
pub mod laws;
pub mod publish;
pub mod registry;
pub mod session;
pub mod text;

use vstd::prelude::*;

verus! {

/// Number of pending messages a broadcast channel buffers for a slow
/// subscriber before the oldest unread one is dropped.
pub const CHANNEL_CAPACITY: usize = 100;

/// Seconds between liveness probes sent to an idle connection.
pub const HEARTBEAT_SECS: u64 = 30;

} // verus!
