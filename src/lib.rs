//! Keeps a keyboard toggle (Caps Lock) in step across machines through a relay.
//!
//! The library holds the decisions: the wire codec, the client's state machine
//! (connection management and the per-tick reconciliation), and the reading of
//! a platform status report. Performing the actions it asks for (connecting,
//! sending, sleeping, touching the keyboard) is left to the caller.

pub mod config;
pub mod laws;
pub mod machine;
pub mod report;
pub mod wire;

pub use config::{Config, DEFAULT_RECONNECT_BACKOFF_MS, DEFAULT_RECV_TIMEOUT_MS, DEFAULT_TICK_MS};
pub use machine::{Action, Client, Event, Inbound, Phase};
pub use report::caps_lock_on_in_report;
pub use wire::WireMessage;
