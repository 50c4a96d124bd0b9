use vstd::prelude::*;
use crate::config::Config;
use crate::wire::{WireMessage, parse_payload};

verus! {

/// What one bounded receive on the connection produced.
#[derive(Debug)]
pub enum Inbound {
    /// A text frame with this payload.
    Text(String),
    /// A frame that carries no text (binary, ping, pong, close).
    NonText,
    /// The stream of inbound frames has ended: the connection is closed.
    Ended,
    /// Reading from the connection failed.
    Failed,
    /// Nothing arrived within the receive timeout.
    Silent,
}

/// What the caller reports back after performing an [`Action`].
#[derive(Debug)]
pub enum Event {
    /// A connection to the endpoint was established.
    Connected,
    /// The connection attempt failed.
    ConnectFailed,
    /// The requested pause is over.
    Waited,
    /// The local toggle was read and has this state.
    Sampled(bool),
    /// Reading or setting the local toggle failed.
    HardwareFailed,
    /// The message was sent.
    Sent,
    /// Sending the message failed.
    SendFailed,
    /// A bounded receive finished with this outcome.
    Received(Inbound),
    /// The local toggle was set.
    HardwareSet,
}

/// What the client asks its caller to do next.
#[derive(Clone, Copy, Debug, PartialEq, Eq, Structural)]
pub enum Action {
    /// Open a connection to the configured endpoint.
    Connect,
    /// Pause for this many milliseconds.
    Wait(u64),
    /// Read the local toggle state.
    Sample,
    /// Send this message over the connection.
    Send(WireMessage),
    /// Wait at most this many milliseconds for one inbound message.
    Receive(u64),
    /// Force the local toggle to this state.
    SetHardware(bool),
}

/// Where the client stands. `last_known` is the toggle state the relay was last
/// told of, or observed at the start of the session; `None` before the first sample.
#[derive(Clone, Copy, Debug, PartialEq, Eq, Structural)]
pub enum Phase {
    /// Disconnected: about to attempt a connection.
    Connecting,
    /// Disconnected: pausing after a failed attempt.
    BackingOff,
    /// Connected: about to read the local toggle.
    Sampling { last_known: Option<bool> },
    /// Connected: publishing the sampled state `current`.
    Sending { current: bool },
    /// Connected: listening for a remote instruction; `current` was just sampled.
    Receiving { current: bool },
    /// Connected: applying a remote instruction for `target`, which disagreed with
    /// the sampled `current`.
    Applying { current: bool, target: bool },
    /// Connected: pausing until the next tick.
    Idling { last_known: Option<bool> },
}

/// The phase that follows a finished receive while the sampled state is `current`.
/// A failed read or a closed stream ends the session.
pub open spec fn after_receive(current: bool, inbound: Inbound) -> Phase {
    match inbound {
        Inbound::Failed => Phase::Connecting,
        Inbound::Ended => Phase::Connecting,
        Inbound::Text(s) => match parse_payload(s@) {
            Some(m) => if m.requested() != current {
                Phase::Applying { current, target: m.requested() }
            } else {
                Phase::Idling { last_known: Some(current) }
            },
            None => Phase::Idling { last_known: Some(current) },
        },
        _ => Phase::Idling { last_known: Some(current) },
    }
}

/// The transition of the client on one event. An event that does not answer
/// the pending action leaves the phase as it is.
pub open spec fn next_phase(p: Phase, e: Event) -> Phase {
    match p {
        Phase::Connecting => match e {
            Event::Connected => Phase::Sampling { last_known: None },
            Event::ConnectFailed => Phase::BackingOff,
            _ => p,
        },
        Phase::BackingOff => match e {
            Event::Waited => Phase::Connecting,
            _ => p,
        },
        Phase::Sampling { last_known } => match e {
            Event::Sampled(c) => match last_known {
                None => Phase::Sampling { last_known: Some(c) },
                Some(k) => if k != c {
                    Phase::Sending { current: c }
                } else {
                    Phase::Receiving { current: c }
                },
            },
            Event::HardwareFailed => Phase::Idling { last_known },
            _ => p,
        },
        Phase::Sending { current } => match e {
            Event::Sent => Phase::Receiving { current },
            Event::SendFailed => Phase::Connecting,
            _ => p,
        },
        Phase::Receiving { current } => match e {
            Event::Received(inbound) => after_receive(current, inbound),
            _ => p,
        },
        Phase::Applying { current, target } => match e {
            Event::HardwareSet => Phase::Idling { last_known: Some(current) },
            Event::HardwareFailed => Phase::Idling { last_known: Some(current) },
            _ => p,
        },
        Phase::Idling { last_known } => match e {
            Event::Waited => Phase::Sampling { last_known },
            _ => p,
        },
    }
}

/// The action that a phase waits on.
pub open spec fn action_of(cfg: Config, p: Phase) -> Action {
    match p {
        Phase::Connecting => Action::Connect,
        Phase::BackingOff => Action::Wait(cfg.reconnect_backoff_ms),
        Phase::Sampling { .. } => Action::Sample,
        Phase::Sending { current } => Action::Send(WireMessage::announcing(current)),
        Phase::Receiving { .. } => Action::Receive(cfg.recv_timeout_ms),
        Phase::Applying { target, .. } => Action::SetHardware(target),
        Phase::Idling { .. } => Action::Wait(cfg.tick_ms),
    }
}

/// Whether an event is an answer to an action.
pub open spec fn answers(a: Action, e: Event) -> bool {
    match a {
        Action::Connect => e is Connected || e is ConnectFailed,
        Action::Wait(_) => e is Waited,
        Action::Sample => e is Sampled || e is HardwareFailed,
        Action::Send(_) => e is Sent || e is SendFailed,
        Action::Receive(_) => e is Received,
        Action::SetHardware(_) => e is HardwareSet || e is HardwareFailed,
    }
}

/// The synchronising client: its configuration and the phase it is in.
pub struct Client {
    pub config: Config,
    pub phase: Phase,
}

impl Client {
    /// A client that has not connected yet.
    pub fn new(config: Config) -> (r: Client)
        ensures
            r.config == config,
            r.phase == Phase::Connecting,
    {
        Client { config, phase: Phase::Connecting }
    }

    /// The action the client waits on.
    pub fn action(&self) -> (a: Action)
        ensures
            a == action_of(self.config, self.phase),
    {
        match self.phase {
            Phase::Connecting => Action::Connect,
            Phase::BackingOff => Action::Wait(self.config.reconnect_backoff_ms),
            Phase::Sampling { .. } => Action::Sample,
            Phase::Sending { current } => Action::Send(WireMessage::from_state(current)),
            Phase::Receiving { .. } => Action::Receive(self.config.recv_timeout_ms),
            Phase::Applying { target, .. } => Action::SetHardware(target),
            Phase::Idling { .. } => Action::Wait(self.config.tick_ms),
        }
    }

    /// Takes in the outcome of the last action and returns the next action.
    pub fn step(&mut self, e: Event) -> (a: Action)
        ensures
            final(self).config == old(self).config,
            final(self).phase == next_phase(old(self).phase, e),
            a == action_of(final(self).config, final(self).phase),
    {
        self.phase = next(self.phase, e);
        self.action()
    }
}

fn received(current: bool, inbound: Inbound) -> (r: Phase)
    ensures
        r == after_receive(current, inbound),
{
    match inbound {
        Inbound::Failed => Phase::Connecting,
        Inbound::Ended => Phase::Connecting,
        Inbound::Text(s) => match WireMessage::parse(s.as_str()) {
            Some(m) => {
                let wanted = m.requested_state();
                if wanted != current {
                    Phase::Applying { current, target: wanted }
                } else {
                    Phase::Idling { last_known: Some(current) }
                }
            },
            None => Phase::Idling { last_known: Some(current) },
        },
        _ => Phase::Idling { last_known: Some(current) },
    }
}

fn next(p: Phase, e: Event) -> (r: Phase)
    ensures
        r == next_phase(p, e),
{
    match p {
        Phase::Connecting => match e {
            Event::Connected => Phase::Sampling { last_known: None },
            Event::ConnectFailed => Phase::BackingOff,
            _ => p,
        },
        Phase::BackingOff => match e {
            Event::Waited => Phase::Connecting,
            _ => p,
        },
        Phase::Sampling { last_known } => match e {
            Event::Sampled(c) => match last_known {
                None => Phase::Sampling { last_known: Some(c) },
                Some(k) => if k != c {
                    Phase::Sending { current: c }
                } else {
                    Phase::Receiving { current: c }
                },
            },
            Event::HardwareFailed => Phase::Idling { last_known },
            _ => p,
        },
        Phase::Sending { current } => match e {
            Event::Sent => Phase::Receiving { current },
            Event::SendFailed => Phase::Connecting,
            _ => p,
        },
        Phase::Receiving { current } => match e {
            Event::Received(inbound) => received(current, inbound),
            _ => p,
        },
        Phase::Applying { current, .. } => match e {
            Event::HardwareSet => Phase::Idling { last_known: Some(current) },
            Event::HardwareFailed => Phase::Idling { last_known: Some(current) },
            _ => p,
        },
        Phase::Idling { last_known } => match e {
            Event::Waited => Phase::Sampling { last_known },
            _ => p,
        },
    }
}

} // verus!
