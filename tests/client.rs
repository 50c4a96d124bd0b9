use std::collections::VecDeque;

use globalcaps::{
    Action, Client, Config, Event, Inbound, Phase, WireMessage, DEFAULT_RECONNECT_BACKOFF_MS,
    DEFAULT_RECV_TIMEOUT_MS, DEFAULT_TICK_MS,
};

/// A stand-in for the keyboard and the relay connection.
struct World {
    toggle: bool,
    /// Values the toggle takes at successive samples, before falling back to `toggle`.
    scripted_samples: VecDeque<bool>,
    inbox: VecDeque<Inbound>,
    sent: Vec<String>,
    set_calls: Vec<bool>,
    connect_failures: usize,
    connects: usize,
    waits: Vec<u64>,
}

impl World {
    fn new(toggle: bool) -> World {
        World {
            toggle,
            scripted_samples: VecDeque::new(),
            inbox: VecDeque::new(),
            sent: Vec::new(),
            set_calls: Vec::new(),
            connect_failures: 0,
            connects: 0,
            waits: Vec::new(),
        }
    }

    fn perform(&mut self, action: Action) -> Event {
        match action {
            Action::Connect => {
                self.connects += 1;
                if self.connect_failures > 0 {
                    self.connect_failures -= 1;
                    Event::ConnectFailed
                } else {
                    Event::Connected
                }
            }
            Action::Wait(ms) => {
                self.waits.push(ms);
                Event::Waited
            }
            Action::Sample => {
                if let Some(v) = self.scripted_samples.pop_front() {
                    self.toggle = v;
                }
                Event::Sampled(self.toggle)
            }
            Action::Send(m) => {
                self.sent.push(m.payload().to_string());
                Event::Sent
            }
            Action::Receive(_) => Event::Received(self.inbox.pop_front().unwrap_or(Inbound::Silent)),
            Action::SetHardware(on) => {
                self.set_calls.push(on);
                self.toggle = on;
                Event::HardwareSet
            }
        }
    }
}

fn test_config() -> Config {
    Config::with_intervals("wss://relay.test/ws".to_string(), 5, 7, 11)
}

/// Runs the client against the world for `steps` actions.
fn drive(client: &mut Client, world: &mut World, steps: usize) {
    let mut action = client.action();
    for _ in 0..steps {
        let event = world.perform(action);
        action = client.step(event);
    }
}

/// Connects and takes the initial sample, leaving the client about to sample a tick.
fn connected_client(initial: bool) -> Client {
    let mut client = Client::new(test_config());
    client.step(Event::Connected);
    client.step(Event::Sampled(initial));
    assert_eq!(client.phase, Phase::Sampling { last_known: Some(initial) });
    client
}

#[test]
fn local_change_is_published_then_remote_off_applied_once() {
    let mut world = World::new(false);
    let mut client = Client::new(test_config());
    // connect, initial sample (false), tick sample (false), receive, wait
    drive(&mut client, &mut world, 5);
    assert!(world.sent.is_empty());
    world.toggle = true;
    world.inbox.push_back(Inbound::Silent);
    world.inbox.push_back(Inbound::Text("0".to_string()));
    // sample true, send, receive nothing, wait
    drive(&mut client, &mut world, 4);
    assert_eq!(world.sent, vec!["1".to_string()]);
    // sample true, receive "0", set false, wait
    drive(&mut client, &mut world, 4);
    assert_eq!(world.set_calls, vec![false]);
    assert!(!world.toggle);
    drive(&mut client, &mut world, 40);
    assert_eq!(world.set_calls, vec![false]);
}

#[test]
fn remote_on_while_already_on_never_sets() {
    let mut world = World::new(true);
    let mut client = Client::new(test_config());
    for _ in 0..5 {
        world.inbox.push_back(Inbound::Text("1".to_string()));
    }
    drive(&mut client, &mut world, 60);
    assert!(world.set_calls.is_empty());
    assert!(world.toggle);
}

#[test]
fn unknown_payload_is_ignored() {
    let mut world = World::new(false);
    let mut client = Client::new(test_config());
    world.inbox.push_back(Inbound::Text("ping".to_string()));
    drive(&mut client, &mut world, 40);
    assert!(world.set_calls.is_empty());
    assert!(world.sent.is_empty());
    assert!(!world.toggle);
    assert_eq!(world.connects, 1);

    let mut client = connected_client(false);
    client.step(Event::Sampled(false));
    let next = client.step(Event::Received(Inbound::Text("ping".to_string())));
    assert_eq!(client.phase, Phase::Idling { last_known: Some(false) });
    assert_eq!(next, Action::Wait(5));
}

#[test]
fn agreeing_message_does_not_touch_toggle() {
    for state in [false, true] {
        let mut client = Client { config: test_config(), phase: Phase::Receiving { current: state } };
        let payload = if state { "1" } else { "0" };
        let next = client.step(Event::Received(Inbound::Text(payload.to_string())));
        assert_eq!(next, Action::Wait(5));
        assert_eq!(client.phase, Phase::Idling { last_known: Some(state) });
    }
}

#[test]
fn disagreeing_message_sets_requested_state() {
    let mut client = Client { config: test_config(), phase: Phase::Receiving { current: false } };
    let next = client.step(Event::Received(Inbound::Text("1".to_string())));
    assert_eq!(next, Action::SetHardware(true));
    let next = client.step(Event::HardwareSet);
    assert_eq!(next, Action::Wait(5));
    // the session still holds the sampled state, so the change is echoed at the next tick
    assert_eq!(client.phase, Phase::Idling { last_known: Some(false) });
    client.step(Event::Waited);
    assert_eq!(client.step(Event::Sampled(true)), Action::Send(WireMessage::SetOn));
}

#[test]
fn repeated_samples_send_at_most_once() {
    let mut world = World::new(false);
    let mut client = connected_client(false);
    world.toggle = true;
    drive(&mut client, &mut world, 200);
    assert_eq!(world.sent, vec!["1".to_string()]);
}

#[test]
fn alternating_samples_send_each_change() {
    let mut world = World::new(false);
    let mut client = connected_client(false);
    // one sample per tick: sample, send, receive, wait
    world.scripted_samples.extend([true, false, true]);
    drive(&mut client, &mut world, 12);
    assert_eq!(world.sent, vec!["1".to_string(), "0".to_string(), "1".to_string()]);
}

#[test]
fn reconnects_after_failures_with_backoff() {
    let mut world = World::new(false);
    world.connect_failures = 3;
    let mut client = Client::new(test_config());
    // three failures and their pauses, then a success
    drive(&mut client, &mut world, 7);
    assert_eq!(world.connects, 4);
    assert_eq!(world.waits, vec![11, 11, 11]);
    assert_eq!(client.phase, Phase::Sampling { last_known: None });
}

#[test]
fn timeout_moves_on_to_next_sample() {
    let mut client = Client { config: test_config(), phase: Phase::Receiving { current: true } };
    assert_eq!(client.action(), Action::Receive(7));
    assert_eq!(client.step(Event::Received(Inbound::Silent)), Action::Wait(5));
    assert_eq!(client.step(Event::Waited), Action::Sample);
    assert_eq!(client.phase, Phase::Sampling { last_known: Some(true) });
}

#[test]
fn send_failure_reconnects() {
    let mut client = connected_client(false);
    assert_eq!(client.step(Event::Sampled(true)), Action::Send(WireMessage::SetOn));
    assert_eq!(client.step(Event::SendFailed), Action::Connect);
    assert_eq!(client.phase, Phase::Connecting);
    // a fresh session starts from a fresh sample and does not resend it
    client.step(Event::Connected);
    client.step(Event::Sampled(true));
    assert_eq!(client.step(Event::Sampled(true)), Action::Receive(7));
}

#[test]
fn receive_failure_reconnects() {
    let mut client = Client { config: test_config(), phase: Phase::Receiving { current: false } };
    assert_eq!(client.step(Event::Received(Inbound::Failed)), Action::Connect);
    assert_eq!(client.phase, Phase::Connecting);
}

#[test]
fn closed_stream_reconnects() {
    let mut client = Client { config: test_config(), phase: Phase::Receiving { current: true } };
    assert_eq!(client.step(Event::Received(Inbound::Ended)), Action::Connect);
    assert_eq!(client.phase, Phase::Connecting);
    // the fresh session starts from a fresh sample
    assert_eq!(client.step(Event::Connected), Action::Sample);
    assert_eq!(client.phase, Phase::Sampling { last_known: None });
}

#[test]
fn other_receive_outcomes_go_idle() {
    for inbound in [Inbound::NonText, Inbound::Silent] {
        let mut client = Client { config: test_config(), phase: Phase::Receiving { current: false } };
        assert_eq!(client.step(Event::Received(inbound)), Action::Wait(5));
        assert_eq!(client.phase, Phase::Idling { last_known: Some(false) });
    }
}

#[test]
fn hardware_failure_skips_the_tick() {
    let mut client = connected_client(true);
    assert_eq!(client.step(Event::HardwareFailed), Action::Wait(5));
    assert_eq!(client.phase, Phase::Idling { last_known: Some(true) });
    let mut client = Client {
        config: test_config(),
        phase: Phase::Applying { current: false, target: true },
    };
    assert_eq!(client.step(Event::HardwareFailed), Action::Wait(5));
    assert_eq!(client.phase, Phase::Idling { last_known: Some(false) });
    let mut client = Client::new(test_config());
    client.step(Event::Connected);
    assert_eq!(client.step(Event::HardwareFailed), Action::Wait(5));
    assert_eq!(client.step(Event::Waited), Action::Sample);
    assert_eq!(client.phase, Phase::Sampling { last_known: None });
}

#[test]
fn unexpected_event_keeps_phase() {
    let mut client = Client::new(test_config());
    assert_eq!(client.step(Event::Sent), Action::Connect);
    assert_eq!(client.phase, Phase::Connecting);
    let mut client = Client { config: test_config(), phase: Phase::Sending { current: true } };
    assert_eq!(client.step(Event::Waited), Action::Send(WireMessage::SetOn));
}

#[test]
fn default_config_intervals() {
    let cfg = Config::new("wss://relay.test/ws".to_string());
    assert_eq!(cfg.endpoint, "wss://relay.test/ws");
    assert_eq!(cfg.tick_ms, 50);
    assert_eq!(cfg.recv_timeout_ms, 50);
    assert_eq!(cfg.reconnect_backoff_ms, 2000);
    assert_eq!(DEFAULT_TICK_MS, 50);
    assert_eq!(DEFAULT_RECV_TIMEOUT_MS, 50);
    assert_eq!(DEFAULT_RECONNECT_BACKOFF_MS, 2000);
    let client = Client::new(cfg);
    assert_eq!(client.action(), Action::Connect);
}

#[test]
fn backoff_uses_configured_interval() {
    let mut client = Client::new(Config::new("wss://relay.test/ws".to_string()));
    assert_eq!(client.step(Event::ConnectFailed), Action::Wait(2000));
    assert_eq!(client.step(Event::Waited), Action::Connect);
}

#[test]
fn sent_state_is_remembered() {
    let mut client = connected_client(false);
    assert_eq!(client.step(Event::Sampled(true)), Action::Send(WireMessage::SetOn));
    assert_eq!(client.step(Event::Sent), Action::Receive(7));
    assert_eq!(client.phase, Phase::Receiving { current: true });
    client.step(Event::Received(Inbound::Text("ping".to_string())));
    assert_eq!(client.phase, Phase::Idling { last_known: Some(true) });
    client.step(Event::Waited);
    assert_eq!(client.step(Event::Sampled(true)), Action::Receive(7));
}
