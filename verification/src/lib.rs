//! Session-keepalive core of a censorship-resistant tunnel client.
//!
//! The library holds the verified logic of the keepalive subsystem: the
//! packet classifier and rate-limiter bank behind ACK decimation, the wire
//! codecs for the local frame and the tunnel's unreliable channel, exit
//! selection, the connection-race negotiator, the VPN hello negotiation and
//! relay steps, and the per-epoch actor and supervisor decisions.  All I/O,
//! timers and task scheduling live outside, in a thin driver that performs
//! the actions these state machines emit and feeds the resulting events back.

use vstd::prelude::*;

pub mod actor;
pub mod bucket;
pub mod classify;
pub mod codec;
pub mod exits;
pub mod hello;
pub mod negotiate;
pub mod relay;

verus! {

/// Seconds before a pending direct connect falls back to the bridge race.
pub const FALLBACK_TIMER_SECS: u64 = 5;

/// Seconds the whole connection path may take before it times out.
pub const CONNECT_DEADLINE_SECS: u64 = 10;

/// Seconds the authentication handshake may take.
pub const AUTH_DEADLINE_SECS: u64 = 5;

/// Seconds between watchdog probes.
pub const WATCHDOG_PERIOD_SECS: u64 = 200;

/// Seconds one watchdog probe may take before it counts as failed.
pub const WATCHDOG_PROBE_SECS: u64 = 60;

/// Seconds between ClientHello resends while no ServerHello has arrived.
pub const HELLO_RETRY_SECS: u64 = 1;

/// Seconds the supervisor pauses before restarting a failed epoch.
pub const RESTART_PAUSE_SECS: u64 = 1;

/// Downstream packets between two statistics snapshots.
pub const DOWNSTREAM_STATS_EVERY: u64 = 1000;

/// The fixed remote port of a direct exit connection.
pub const DIRECT_CONNECT_PORT: u16 = 19831;

/// Everything that can end one tunnel epoch, plus the one recoverable
/// condition (`WatchdogProbeFailure`) and the two collaborator failures
/// (cache fetches and a closed request channel).
#[derive(Clone, Copy, Debug, PartialEq, Eq, Structural)]
pub enum TunnelError {
    /// The cache returned an empty exit list.
    NoExitsFound,
    /// The cache returned an empty bridge list for the chosen exit.
    NoBridgesFound,
    /// Every bridge connection attempt failed.
    BridgesExhausted,
    /// The overall connection path exceeded its ten-second bound.
    ConnectTimeout,
    /// The authentication handshake exceeded its five-second bound.
    AuthTimeout,
    /// The authentication handshake itself failed.
    AuthFailure,
    /// Opening a reliable stream for a requester failed.
    StreamOpenFailure,
    /// The unreliable channel failed to send or receive.
    TransportFailure,
    /// The periodic watchdog probe failed; recovered locally, never fatal.
    WatchdogProbeFailure,
    /// A cache collaborator fetch (exits, bridges, token) failed outright.
    CacheFailure,
    /// The request channel closed: every handle was dropped.
    RequestChannelClosed,
}

} // verus!
