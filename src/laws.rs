use vstd::prelude::*;
use crate::config::Config;
use crate::machine::{Action, Event, Inbound, Phase, action_of, answers, next_phase};
use crate::wire::parse_payload;

verus! {

/// The phase reached from `p` after the events `evs`, in order.
pub open spec fn run(p: Phase, evs: Seq<Event>) -> Phase
    decreases evs.len(),
{
    if evs.len() == 0 {
        p
    } else {
        run(next_phase(p, evs[0]), evs.drop_first())
    }
}

/// The actions asked for along a run: the one pending in `p`, then the one
/// returned after each event of `evs`.
pub open spec fn trace(cfg: Config, p: Phase, evs: Seq<Event>) -> Seq<Action>
    decreases evs.len(),
{
    if evs.len() == 0 {
        seq![action_of(cfg, p)]
    } else {
        seq![action_of(cfg, p)] + trace(cfg, next_phase(p, evs[0]), evs.drop_first())
    }
}

/// Each event of `evs` answers the action pending when it arrives.
pub open spec fn valid_run(cfg: Config, p: Phase, evs: Seq<Event>) -> bool
    decreases evs.len(),
{
    evs.len() == 0 || (answers(action_of(cfg, p), evs[0]) && valid_run(
        cfg,
        next_phase(p, evs[0]),
        evs.drop_first(),
    ))
}

/// How many of `acts` are sends.
pub open spec fn count_sends(acts: Seq<Action>) -> nat
    decreases acts.len(),
{
    if acts.len() == 0 {
        0
    } else {
        (if acts[0] is Send {
            1nat
        } else {
            0nat
        }) + count_sends(acts.drop_first())
    }
}

/// How many of `acts` are connection attempts.
pub open spec fn count_connects(acts: Seq<Action>) -> nat
    decreases acts.len(),
{
    if acts.len() == 0 {
        0
    } else {
        (if acts[0] is Connect {
            1nat
        } else {
            0nat
        }) + count_connects(acts.drop_first())
    }
}

/// Every sample among `evs` reads `c`.
pub open spec fn samples_read(evs: Seq<Event>, c: bool) -> bool {
    forall|i: int| 0 <= i < evs.len() && #[trigger] evs[i] is Sampled ==> evs[i]->Sampled_0 == c
}

/// `n` failed connection attempts, each followed by its pause, then a success.
pub open spec fn failed_attempts(n: nat) -> Seq<Event>
    decreases n,
{
    if n == 0 {
        seq![Event::Connected]
    } else {
        seq![Event::ConnectFailed, Event::Waited] + failed_attempts((n - 1) as nat)
    }
}

/// The local toggle after an action is performed: setting forces it, nothing else touches it.
pub open spec fn toggle_after(state: bool, a: Action) -> bool {
    match a {
        Action::SetHardware(t) => t,
        _ => state,
    }
}

/// The relay has been told of `c`, or is about to be, or nothing was sampled yet.
spec fn settled(p: Phase, c: bool) -> bool {
    match p {
        Phase::Sampling { last_known } => last_known != Some(!c),
        Phase::Idling { last_known } => last_known != Some(!c),
        Phase::Sending { current } => current == c,
        Phase::Receiving { current } => current == c,
        Phase::Applying { current, .. } => current == c,
        _ => true,
    }
}

proof fn lemma_trace_unfold(cfg: Config, p: Phase, evs: Seq<Event>)
    requires
        evs.len() > 0,
    ensures
        trace(cfg, p, evs)[0] == action_of(cfg, p),
        trace(cfg, p, evs).drop_first() == trace(cfg, next_phase(p, evs[0]), evs.drop_first()),
{
    assert(trace(cfg, p, evs).drop_first() =~= trace(
        cfg,
        next_phase(p, evs[0]),
        evs.drop_first(),
    ));
}

proof fn lemma_trace_nonempty(cfg: Config, p: Phase, evs: Seq<Event>)
    ensures
        trace(cfg, p, evs).len() == evs.len() + 1,
    decreases evs.len(),
{
    if evs.len() > 0 {
        lemma_trace_nonempty(cfg, next_phase(p, evs[0]), evs.drop_first());
    }
}

proof fn lemma_settled_sends_nothing(cfg: Config, p: Phase, evs: Seq<Event>, c: bool)
    requires
        settled(p, c),
        valid_run(cfg, p, evs),
        samples_read(evs, c),
    ensures
        count_sends(trace(cfg, p, evs).drop_first()) == 0,
    decreases evs.len(),
{
    if evs.len() > 0 {
        let q = next_phase(p, evs[0]);
        let rest = evs.drop_first();
        assert(evs[0] is Sampled ==> evs[0]->Sampled_0 == c);
        assert(samples_read(rest, c)) by {
            assert forall|i: int| 0 <= i < rest.len() && #[trigger] rest[i] is Sampled implies rest[i]->Sampled_0
                == c by {
                assert(rest[i] == evs[i + 1]);
            }
        }
        lemma_trace_unfold(cfg, p, evs);
        lemma_settled_sends_nothing(cfg, q, rest, c);
        lemma_trace_nonempty(cfg, q, rest);
        let t = trace(cfg, q, rest);
        if rest.len() > 0 {
            lemma_trace_unfold(cfg, q, rest);
        }
        assert(!(q is Sending));
        assert(t[0] == action_of(cfg, q));
        assert(count_sends(t) == count_sends(t.drop_first()));
    }
}

/// Over a run in which every sample reads the same value, at most one message
/// is sent after the run begins: a repeated state is never published twice.
pub proof fn law_no_redundant_sends(cfg: Config, p: Phase, evs: Seq<Event>, c: bool)
    requires
        valid_run(cfg, p, evs),
        samples_read(evs, c),
    ensures
        count_sends(trace(cfg, p, evs).drop_first()) <= 1,
    decreases evs.len(),
{
    if evs.len() > 0 {
        let q = next_phase(p, evs[0]);
        let rest = evs.drop_first();
        assert(evs[0] is Sampled ==> evs[0]->Sampled_0 == c);
        assert(samples_read(rest, c)) by {
            assert forall|i: int| 0 <= i < rest.len() && #[trigger] rest[i] is Sampled implies rest[i]->Sampled_0
                == c by {
                assert(rest[i] == evs[i + 1]);
            }
        }
        lemma_trace_unfold(cfg, p, evs);
        lemma_trace_nonempty(cfg, q, rest);
        let t = trace(cfg, q, rest);
        if rest.len() > 0 {
            lemma_trace_unfold(cfg, q, rest);
        }
        assert(t[0] == action_of(cfg, q));
        if q is Sending {
            assert(settled(q, c));
            lemma_settled_sends_nothing(cfg, q, rest, c);
        } else {
            law_no_redundant_sends(cfg, q, rest, c);
        }
    }
}

/// Once `c` has been sent, the session compares later samples against `c`:
/// whatever a receive that keeps the connection brings, the phase that follows keeps
/// `c` as the state last told to the relay.
pub proof fn law_sent_state_is_remembered(c: bool, inbound: Inbound)
    requires
        !(inbound is Failed),
        !(inbound is Ended),
    ensures
        next_phase(Phase::Sending { current: c }, Event::Sent) == (Phase::Receiving { current: c }),
        next_phase(Phase::Receiving { current: c }, Event::Received(inbound)) == (Phase::Idling {
            last_known: Some(c),
        }) || next_phase(Phase::Receiving { current: c }, Event::Received(inbound)) == (
        Phase::Applying { current: c, target: !c }),
{
}

/// A session ends exactly when a send fails or a receive finds the connection
/// lost (a read error or a closed stream): then the client connects anew.
pub proof fn law_session_ends_on_lost_transport(p: Phase, e: Event)
    requires
        p is Sampling || p is Sending || p is Receiving || p is Applying || p is Idling,
    ensures
        next_phase(p, e) is Connecting <==> (p is Sending && e is SendFailed) || (p is Receiving
            && e is Received && (e->Received_0 is Failed || e->Received_0 is Ended)),
{
}

/// A message that asks for the state the toggle already has is dropped: the
/// client goes idle and does not ask for the toggle to be set.
pub proof fn law_agreeing_message_is_ignored(cfg: Config, current: bool, payload: String)
    requires
        parse_payload(payload@) is Some,
        parse_payload(payload@)->Some_0.requested() == current,
    ensures
        next_phase(Phase::Receiving { current }, Event::Received(Inbound::Text(payload)))
            == (Phase::Idling { last_known: Some(current) }),
        !(action_of(
            cfg,
            next_phase(Phase::Receiving { current }, Event::Received(Inbound::Text(payload))),
        ) is SetHardware),
{
}

/// The toggle is only ever set to change it: a step that asks for it to be set
/// to `t` comes from a receive whose sampled state differs from `t`.
pub proof fn law_set_only_on_disagreement(cfg: Config, p: Phase, e: Event)
    requires
        !(p is Applying),
        action_of(cfg, next_phase(p, e)) is SetHardware,
    ensures
        p is Receiving,
        action_of(cfg, next_phase(p, e))->SetHardware_0 != p->Receiving_current,
{
}

/// A message that disagrees with the sampled state has the toggle set to the
/// requested state.
pub proof fn law_convergence(cfg: Config, current: bool, payload: String)
    requires
        parse_payload(payload@) is Some,
        parse_payload(payload@)->Some_0.requested() != current,
    ensures
        toggle_after(
            current,
            action_of(
                cfg,
                next_phase(Phase::Receiving { current }, Event::Received(Inbound::Text(payload))),
            ),
        ) == parse_payload(payload@)->Some_0.requested(),
{
}

proof fn lemma_failed_attempt(cfg: Config, inner: Seq<Event>)
    ensures
        trace(cfg, Phase::Connecting, seq![Event::ConnectFailed, Event::Waited] + inner) == seq![
            Action::Connect,
            Action::Wait(cfg.reconnect_backoff_ms),
        ] + trace(cfg, Phase::Connecting, inner),
        run(Phase::Connecting, seq![Event::ConnectFailed, Event::Waited] + inner) == run(
            Phase::Connecting,
            inner,
        ),
        valid_run(cfg, Phase::Connecting, seq![Event::ConnectFailed, Event::Waited] + inner)
            == valid_run(cfg, Phase::Connecting, inner),
{
    let evs = seq![Event::ConnectFailed, Event::Waited] + inner;
    let mid = evs.drop_first();
    assert(evs[0] == Event::ConnectFailed);
    assert(mid =~= seq![Event::Waited] + inner);
    assert(mid[0] == Event::Waited);
    assert(mid.drop_first() =~= inner);
    lemma_trace_unfold(cfg, Phase::Connecting, evs);
    lemma_trace_unfold(cfg, Phase::BackingOff, mid);
    let t = trace(cfg, Phase::Connecting, evs);
    assert(t =~= seq![Action::Connect, Action::Wait(cfg.reconnect_backoff_ms)] + trace(
        cfg,
        Phase::Connecting,
        inner,
    ));
    assert(run(Phase::BackingOff, mid) == run(Phase::Connecting, inner));
    assert(valid_run(cfg, Phase::BackingOff, mid) == valid_run(cfg, Phase::Connecting, inner));
}

/// After `n` failed attempts the client has made exactly `n + 1` connection
/// attempts, each failed one followed by a pause of the reconnect backoff, and
/// is then connected and sampling.
pub proof fn law_reconnect_liveness(cfg: Config, n: nat)
    ensures
        valid_run(cfg, Phase::Connecting, failed_attempts(n)),
        run(Phase::Connecting, failed_attempts(n)) == (Phase::Sampling { last_known: None }),
        trace(cfg, Phase::Connecting, failed_attempts(n)).len() == 2 * n + 2,
        count_connects(trace(cfg, Phase::Connecting, failed_attempts(n))) == n + 1,
        forall|i: int|
            0 <= i < 2 * n + 1 ==> #[trigger] trace(cfg, Phase::Connecting, failed_attempts(n))[i]
                == if i % 2 == 0 {
                Action::Connect
            } else {
                Action::Wait(cfg.reconnect_backoff_ms)
            },
        trace(cfg, Phase::Connecting, failed_attempts(n))[(2 * n + 1) as int] == Action::Sample,
    decreases n,
{
    let evs = failed_attempts(n);
    let t = trace(cfg, Phase::Connecting, evs);
    if n == 0 {
        lemma_trace_unfold(cfg, Phase::Connecting, evs);
        assert(evs.drop_first() =~= Seq::<Event>::empty());
        assert(t =~= seq![Action::Connect, Action::Sample]);
        assert(count_connects(t.drop_first().drop_first()) == 0);
        assert(count_connects(t.drop_first()) == 0);
        assert(valid_run(cfg, Phase::Sampling { last_known: None }, evs.drop_first()));
        assert(run(Phase::Sampling { last_known: None }, evs.drop_first()) == (Phase::Sampling {
            last_known: None,
        }));
    } else {
        let m = (n - 1) as nat;
        let inner = failed_attempts(m);
        let ti = trace(cfg, Phase::Connecting, inner);
        law_reconnect_liveness(cfg, m);
        lemma_failed_attempt(cfg, inner);
        assert(t.drop_first().drop_first() =~= ti);
        assert(t[0] == Action::Connect);
        assert(t.drop_first()[0] == Action::Wait(cfg.reconnect_backoff_ms));
        assert(count_connects(t.drop_first()) == count_connects(ti));
        assert(count_connects(t) == 1 + count_connects(ti));
        assert forall|i: int| 0 <= i < 2 * n + 1 implies #[trigger] t[i] == if i % 2 == 0 {
            Action::Connect
        } else {
            Action::Wait(cfg.reconnect_backoff_ms)
        } by {
            if i >= 2 {
                assert(t[i] == ti[i - 2]);
            }
        }
        assert(t[(2 * n + 1) as int] == ti[(2 * m + 1) as int]);
    }
}

/// A receive that times out delays the next sample by the receive timeout and
/// one idle pause, no more.
pub proof fn law_timeout_does_not_block(cfg: Config, current: bool)
    ensures
        trace(
            cfg,
            Phase::Receiving { current },
            seq![Event::Received(Inbound::Silent), Event::Waited],
        ) == seq![Action::Receive(cfg.recv_timeout_ms), Action::Wait(cfg.tick_ms), Action::Sample],
        run(Phase::Receiving { current }, seq![Event::Received(Inbound::Silent), Event::Waited])
            == (Phase::Sampling { last_known: Some(current) }),
{
    let evs = seq![Event::Received(Inbound::Silent), Event::Waited];
    let rest = evs.drop_first();
    assert(rest =~= seq![Event::Waited]);
    assert(rest.drop_first() =~= Seq::<Event>::empty());
    lemma_trace_unfold(cfg, Phase::Receiving { current }, evs);
    lemma_trace_unfold(cfg, Phase::Idling { last_known: Some(current) }, rest);
    assert(run(Phase::Idling { last_known: Some(current) }, rest) == run(
        Phase::Sampling { last_known: Some(current) },
        rest.drop_first(),
    ));
    let t = trace(cfg, Phase::Receiving { current }, evs);
    lemma_trace_nonempty(cfg, Phase::Receiving { current }, evs);
    assert(t =~= seq![Action::Receive(cfg.recv_timeout_ms), Action::Wait(cfg.tick_ms), Action::Sample]);
}

} // verus!
