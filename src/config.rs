use vstd::prelude::*;

verus! {

/// Pause between two ticks of the reconciliation loop, in milliseconds.
pub const DEFAULT_TICK_MS: u64 = 50;

/// How long one receive may wait for an inbound message, in milliseconds.
pub const DEFAULT_RECV_TIMEOUT_MS: u64 = 50;

/// Pause after a failed connection attempt, in milliseconds.
pub const DEFAULT_RECONNECT_BACKOFF_MS: u64 = 2000;

/// Where the client connects and how it paces itself.
pub struct Config {
    pub endpoint: String,
    pub tick_ms: u64,
    pub recv_timeout_ms: u64,
    pub reconnect_backoff_ms: u64,
}

impl Config {
    /// A configuration for `endpoint` with the standard intervals.
    pub fn new(endpoint: String) -> (r: Config)
        ensures
            r.endpoint@ == endpoint@,
            r.tick_ms == DEFAULT_TICK_MS,
            r.recv_timeout_ms == DEFAULT_RECV_TIMEOUT_MS,
            r.reconnect_backoff_ms == DEFAULT_RECONNECT_BACKOFF_MS,
    {
        Config {
            endpoint,
            tick_ms: DEFAULT_TICK_MS,
            recv_timeout_ms: DEFAULT_RECV_TIMEOUT_MS,
            reconnect_backoff_ms: DEFAULT_RECONNECT_BACKOFF_MS,
        }
    }

    /// A configuration for `endpoint` with intervals of the caller's choice.
    pub fn with_intervals(
        endpoint: String,
        tick_ms: u64,
        recv_timeout_ms: u64,
        reconnect_backoff_ms: u64,
    ) -> (r: Config)
        ensures
            r.endpoint@ == endpoint@,
            r.tick_ms == tick_ms,
            r.recv_timeout_ms == recv_timeout_ms,
            r.reconnect_backoff_ms == reconnect_backoff_ms,
    {
        Config { endpoint, tick_ms, recv_timeout_ms, reconnect_backoff_ms }
    }
}

} // verus!
