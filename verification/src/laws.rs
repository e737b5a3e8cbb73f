//! The delivery laws of the relay, stated over the spec-level model and
//! proved once and for all: what a whole run of a session does with a
//! stream of events, and what a publish returns in every situation.

use vstd::prelude::*;
use crate::connect::connect_accepted;
use crate::json::{payload_json, Payload};
use crate::publish::{push_status, PushStatus};
use crate::session::{step_spec, SessionAction, SessionEvent, SessionState};
use crate::text::blank;

verus! {

/// The state a session is in after reacting to a whole sequence of events.
pub open spec fn run_state(s: SessionState, es: Seq<SessionEvent>) -> SessionState
    decreases es.len(),
{
    if es.len() == 0 {
        s
    } else {
        run_state(step_spec(s, es[0]).0, es.drop_first())
    }
}

/// The actions a session performs while reacting to a whole sequence of
/// events, one per event, in order.
pub open spec fn run_actions(s: SessionState, es: Seq<SessionEvent>) -> Seq<SessionAction>
    decreases es.len(),
{
    if es.len() == 0 {
        Seq::empty()
    } else {
        seq![step_spec(s, es[0]).1] + run_actions(step_spec(s, es[0]).0, es.drop_first())
    }
}

/// Connecting with a valid routing key and then publishing a valid message
/// to it: the key is accepted, the publish against the registry that now
/// holds the key is accepted, and an active session on that key that
/// receives the broadcast forwards to its client exactly the canonical
/// payload text whose `msg` field is the published message, fields in the
/// fixed order.
pub proof fn lemma_connect_then_publish(
    keys: Set<Seq<char>>,
    token: Seq<char>,
    p: Payload,
    d: SessionEvent,
)
    requires
        !blank(token),
        !blank(p.msg),
        d matches SessionEvent::Delivery(m) && m@ == payload_json(p),
    ensures
        connect_accepted(token),
        push_status(keys.insert(token), token, p.msg) == PushStatus::Accepted,
        step_spec(SessionState::Active, d).0 == SessionState::Active,
        (step_spec(SessionState::Active, d).1 matches SessionAction::Forward(f) && f@
            == payload_json(p)),
{
}

/// Publishing against a routing key that was never connected to is answered
/// Not Found, whatever the message; `publish`'s contract adds that nothing
/// is then broadcast on any channel.
pub proof fn lemma_unknown_key_not_found(keys: Set<Seq<char>>, token: Seq<char>, msg: Seq<char>)
    requires
        !keys.contains(token),
        !blank(msg),
    ensures
        push_status(keys, token, msg) == PushStatus::NotFound,
{
}

/// Publishing an empty-or-whitespace message is answered Bad Request,
/// whether or not the key has a channel; `publish`'s contract adds that
/// nothing is then broadcast and nothing changes.
pub proof fn lemma_blank_message_rejected(keys: Set<Seq<char>>, token: Seq<char>, msg: Seq<char>)
    requires
        blank(msg),
    ensures
        push_status(keys, token, msg) == PushStatus::BadRequest,
{
}

/// Connecting with an empty-or-whitespace routing key is refused;
/// `open_session`'s contract adds that no session then exists and the
/// registry is left as it was.
pub proof fn lemma_blank_token_rejected(token: Seq<char>)
    requires
        blank(token),
    ensures
        !connect_accepted(token),
{
}

/// Every session still active on a key sees every publish to it, in publish
/// order: an active session fed any sequence of broadcast deliveries stays
/// active and forwards exactly the delivered payloads, in order. Two
/// simultaneous sessions fed the same deliveries therefore forward the same
/// payloads in the same relative order.
pub proof fn lemma_deliveries_all_forwarded(es: Seq<SessionEvent>)
    requires
        forall|i: int| 0 <= i < es.len() ==> es[i] is Delivery,
    ensures
        run_state(SessionState::Active, es) == SessionState::Active,
        run_actions(SessionState::Active, es).len() == es.len(),
        forall|i: int|
            0 <= i < es.len() ==> (es[i] matches SessionEvent::Delivery(m)
                ==> #[trigger] run_actions(SessionState::Active, es)[i]
                == SessionAction::Forward(m)),
    decreases es.len(),
{
    if es.len() > 0 {
        assert(es[0] is Delivery);
        let tail = es.drop_first();
        assert(forall|i: int| 0 <= i < tail.len() ==> tail[i] is Delivery);
        lemma_deliveries_all_forwarded(tail);
        assert(step_spec(SessionState::Active, es[0]).0 == SessionState::Active);
        assert forall|i: int| 0 <= i < es.len() implies (es[i] matches SessionEvent::Delivery(m)
            ==> #[trigger] run_actions(SessionState::Active, es)[i] == SessionAction::Forward(
            m,
        )) by {
            if i == 0 {
                assert(run_actions(SessionState::Active, es)[0] == step_spec(
                    SessionState::Active,
                    es[0],
                ).1);
            } else {
                assert(run_actions(SessionState::Active, es)[i] == run_actions(
                    SessionState::Active,
                    tail,
                )[i - 1]);
                assert(tail[i - 1] == es[i]);
            }
        }
    }
}

/// An event that drives an active session to `Closed`.
pub open spec fn closing(e: SessionEvent) -> bool {
    e is ClientClose || e is ReadError || e is WriteFailed
}

/// The payloads of the broadcast deliveries among `es`, in order.
pub open spec fn delivered_payloads(es: Seq<SessionEvent>) -> Seq<String>
    decreases es.len(),
{
    if es.len() == 0 {
        Seq::empty()
    } else {
        let rest = delivered_payloads(es.drop_first());
        match es[0] {
            SessionEvent::Delivery(m) => seq![m] + rest,
            _ => rest,
        }
    }
}

/// The payloads of the forwards among `acts`, in order.
pub open spec fn forwarded_payloads(acts: Seq<SessionAction>) -> Seq<String>
    decreases acts.len(),
{
    if acts.len() == 0 {
        Seq::empty()
    } else {
        let rest = forwarded_payloads(acts.drop_first());
        match acts[0] {
            SessionAction::Forward(m) => seq![m] + rest,
            _ => rest,
        }
    }
}

/// The ordering guarantee within one session: however deliveries interleave
/// with heartbeat ticks and inbound client frames, as long as nothing closes
/// the session it forwards exactly the delivered payloads, in the order they
/// were published.
pub proof fn lemma_forwarding_preserves_order(es: Seq<SessionEvent>)
    requires
        forall|i: int| 0 <= i < es.len() ==> !closing(es[i]),
    ensures
        run_state(SessionState::Active, es) == SessionState::Active,
        forwarded_payloads(run_actions(SessionState::Active, es)) == delivered_payloads(es),
    decreases es.len(),
{
    if es.len() > 0 {
        assert(!closing(es[0]));
        let tail = es.drop_first();
        assert(forall|i: int| 0 <= i < tail.len() ==> !closing(tail[i]));
        lemma_forwarding_preserves_order(tail);
        let head_act = step_spec(SessionState::Active, es[0]).1;
        let acts = run_actions(SessionState::Active, es);
        assert(acts == seq![head_act] + run_actions(SessionState::Active, tail));
        assert(acts.drop_first() =~= run_actions(SessionState::Active, tail));
        assert(acts[0] == head_act);
    }
}

/// A session, once closed, reacts to nothing: whatever else happens —
/// further deliveries included — it stays closed and performs no action.
pub proof fn lemma_closed_forwards_nothing(es: Seq<SessionEvent>)
    ensures
        run_state(SessionState::Closed, es) == SessionState::Closed,
        run_actions(SessionState::Closed, es).len() == es.len(),
        forall|i: int|
            0 <= i < es.len() ==> #[trigger] run_actions(SessionState::Closed, es)[i]
                == SessionAction::Ignore,
    decreases es.len(),
{
    if es.len() > 0 {
        let tail = es.drop_first();
        lemma_closed_forwards_nothing(tail);
        assert forall|i: int| 0 <= i < es.len() implies #[trigger] run_actions(
            SessionState::Closed,
            es,
        )[i] == SessionAction::Ignore by {
            if i > 0 {
                assert(run_actions(SessionState::Closed, es)[i] == run_actions(
                    SessionState::Closed,
                    tail,
                )[i - 1]);
            }
        }
    }
}

/// After one session closes, a publish to its former key is still accepted
/// for whoever remains: acceptance depends only on the key having a channel
/// — channels are never removed — never on the number of subscribers.
pub proof fn lemma_publish_outlives_subscribers(
    keys: Set<Seq<char>>,
    token: Seq<char>,
    msg: Seq<char>,
)
    requires
        keys.contains(token),
        !blank(msg),
    ensures
        push_status(keys, token, msg) == PushStatus::Accepted,
{
}

/// Heartbeats need no client or publisher activity: an active session fed
/// nothing but heartbeat ticks stays active and answers every tick, and
/// only ticks, with a liveness probe.
pub proof fn lemma_heartbeats_on_idle(es: Seq<SessionEvent>)
    requires
        forall|i: int| 0 <= i < es.len() ==> es[i] is HeartbeatTick,
    ensures
        run_state(SessionState::Active, es) == SessionState::Active,
        run_actions(SessionState::Active, es).len() == es.len(),
        forall|i: int|
            0 <= i < es.len() ==> #[trigger] run_actions(SessionState::Active, es)[i]
                == SessionAction::Ping,
    decreases es.len(),
{
    if es.len() > 0 {
        assert(es[0] is HeartbeatTick);
        let tail = es.drop_first();
        assert(forall|i: int| 0 <= i < tail.len() ==> tail[i] is HeartbeatTick);
        lemma_heartbeats_on_idle(tail);
        assert forall|i: int| 0 <= i < es.len() implies #[trigger] run_actions(
            SessionState::Active,
            es,
        )[i] == SessionAction::Ping by {
            if i > 0 {
                assert(run_actions(SessionState::Active, es)[i] == run_actions(
                    SessionState::Active,
                    tail,
                )[i - 1]);
            }
        }
    }
}

} // verus!
