//! The realtime gateway: one protocol loop per client connection.
//!
//! The connection loop itself (network reads and writes, task
//! spawning) belongs to the caller.  This module holds everything
//! the loop decides: the inbound and outbound message taxonomy, the
//! per-connection subscription table with its at-most-one-forwarding-
//! task-per-session invariant, the handler for each inbound message,
//! and the control-response envelope encoding.  A malformed inbound
//! frame or a failed registry call always becomes an `error` frame,
//! never a dropped connection.

use vstd::prelude::*;
use crate::agent::{AgentEvent, AgentInput, AgentType, ImageAttachment};
use crate::broadcast::RecvOutcome;
use crate::errors::SessionError;
use crate::registry::{PumpHandle, SessionId, SessionReceiver, SessionRegistry, StartOutcome, StopAction};
use crate::strutil;

verus! {

/// Messages a client sends to the server.
#[derive(Debug, Clone, PartialEq, Eq)]
pub enum ClientMessage {
    /// Subscribe to events for a session.
    Subscribe { session_id: SessionId },
    /// Unsubscribe from a session's events.
    Unsubscribe { session_id: SessionId },
    /// Start a new agent session.
    StartSession {
        session_id: SessionId,
        prompt: String,
        working_dir: String,
        model: Option<String>,
        hidden: bool,
        images: Vec<ImageAttachment>,
    },
    /// Send a follow-up input to a running session.
    SendInput { session_id: SessionId, input: String, hidden: bool, images: Vec<ImageAttachment> },
    /// Answer a control request (permission prompt); the response
    /// payload is carried as serialized JSON.
    RespondToControl { session_id: SessionId, request_id: String, response: String },
    /// Stop a running session.
    StopSession { session_id: SessionId },
    /// Keep-alive probe.
    Ping,
}

/// Messages the server sends to a client.
#[derive(Debug, Clone, PartialEq, Eq)]
pub enum ServerMessage {
    Subscribed { session_id: SessionId },
    Unsubscribed { session_id: SessionId },
    SessionStarted { session_id: SessionId, agent_type: String, agent_session_id: Option<String> },
    AgentEvent { session_id: SessionId, event: AgentEvent },
    SessionEnded { session_id: SessionId, reason: String, error: Option<String> },
    Error { message: String, session_id: Option<SessionId> },
    Pong,
}

impl ServerMessage {
    /// An error frame without a session scope.
    pub fn error(message: String) -> (r: ServerMessage)
        ensures
            r == (ServerMessage::Error { message, session_id: None }),
    {
        ServerMessage::Error { message, session_id: None }
    }

    /// An error frame scoped to one session.
    pub fn session_error(session_id: SessionId, message: String) -> (r: ServerMessage)
        ensures
            r == (ServerMessage::Error { message, session_id: Some(session_id) }),
    {
        ServerMessage::Error { message, session_id: Some(session_id) }
    }

    /// An event frame relaying one agent event.
    pub fn agent_event(session_id: SessionId, event: AgentEvent) -> (r: ServerMessage)
        ensures
            r == (ServerMessage::AgentEvent { session_id, event }),
    {
        ServerMessage::AgentEvent { session_id, event }
    }

    /// The acknowledgement of a successful start.
    pub fn session_started(
        session_id: SessionId,
        agent_type: AgentType,
        agent_session_id: Option<String>,
    ) -> (r: ServerMessage)
        ensures
            r matches ServerMessage::SessionStarted { session_id: sid, agent_type: t, agent_session_id: a }
                && sid == session_id && t@ == crate::agent::spec_agent_type_str(agent_type)
                && a == agent_session_id,
    {
        let name = agent_type.as_str();
        let mut s = String::new();
        strutil::append_str(&mut s, name);
        proof {
            assert(s@ =~= crate::agent::spec_agent_type_str(agent_type));
        }
        ServerMessage::SessionStarted { session_id, agent_type: s, agent_session_id }
    }
}

/// One live forwarding slot: the session a connection subscribed to
/// and the receiver its forwarding task drains.
#[derive(Debug, Clone, Copy, PartialEq, Eq, Structural)]
pub struct Subscription {
    pub session: SessionId,
    pub receiver: SessionReceiver,
}

/// Per-connection state: the sessions this connection currently
/// forwards, at most one forwarding slot per session.
#[derive(Debug)]
pub struct ConnectionState {
    pub subscriptions: Vec<Subscription>,
}

/// The first subscription for the given session, if any.
pub open spec fn spec_find_sub(s: Seq<Subscription>, id: u128) -> Option<Subscription>
    decreases s.len(),
{
    if s.len() == 0 {
        None
    } else if s[0].session.0 == id {
        Some(s[0])
    } else {
        spec_find_sub(s.drop_first(), id)
    }
}

impl ConnectionState {
    /// Each session appears at most once: at most one forwarding
    /// task per (connection, session) pair.
    pub open spec fn wf(self) -> bool {
        forall|i: int, j: int|
            0 <= i < j < self.subscriptions@.len() ==> (#[trigger] self.subscriptions@[i]).session.0
                != (#[trigger] self.subscriptions@[j]).session.0
    }

    /// The subscription held for `id`, if any.
    pub open spec fn spec_sub(self, id: u128) -> Option<Subscription> {
        spec_find_sub(self.subscriptions@, id)
    }

    /// A fresh connection holds no subscriptions.
    pub fn new() -> (r: ConnectionState)
        ensures
            r.wf(),
            r.subscriptions@.len() == 0,
    {
        ConnectionState { subscriptions: Vec::new() }
    }

    /// The index of the subscription for `id`, if any.
    fn find_index(&self, id: SessionId) -> (r: Option<usize>)
        ensures
            match r {
                Some(i) => i < self.subscriptions@.len() && self.subscriptions@[i as int].session.0
                    == id.0 && self.spec_sub(id.0) == Some(self.subscriptions@[i as int]) && (
                forall|j: int| 0 <= j < i ==> (#[trigger] self.subscriptions@[j]).session.0 != id.0),
                None => self.spec_sub(id.0) is None,
            },
    {
        let mut i: usize = 0;
        proof {
            assert(self.subscriptions@.skip(0) =~= self.subscriptions@);
        }
        while i < self.subscriptions.len()
            invariant
                i <= self.subscriptions@.len(),
                forall|j: int| 0 <= j < i ==> (#[trigger] self.subscriptions@[j]).session.0 != id.0,
                spec_find_sub(self.subscriptions@.skip(i as int), id.0) == spec_find_sub(
                    self.subscriptions@,
                    id.0,
                ),
            decreases self.subscriptions@.len() - i,
        {
            if self.subscriptions[i].session.0 == id.0 {
                proof {
                    let tail = self.subscriptions@.skip(i as int);
                    assert(tail[0] == self.subscriptions@[i as int]);
                }
                return Some(i);
            }
            i = i + 1;
            proof {
                let prev = self.subscriptions@.skip(i - 1);
                assert(prev[0] == self.subscriptions@[i - 1]);
                assert(prev.drop_first() =~= self.subscriptions@.skip(i as int));
            }
        }
        proof {
            assert(self.subscriptions@.skip(i as int) =~= Seq::<Subscription>::empty());
        }
        None
    }

    /// Installs a forwarding slot for a session, replacing any prior
    /// one for the same session: the replaced receiver comes back so
    /// the caller can cancel its task, and events are never
    /// double-delivered.
    pub fn install_subscription(&mut self, session: SessionId, receiver: SessionReceiver) -> (r:
        Option<SessionReceiver>)
        requires
            old(self).wf(),
        ensures
            final(self).wf(),
            final(self).spec_sub(session.0) == Some(Subscription { session, receiver }),
            forall|id2: u128|
                id2 != session.0 ==> final(self).spec_sub(id2) == old(self).spec_sub(id2),
            r == match old(self).spec_sub(session.0) {
                Some(sub) => Some(sub.receiver),
                None => None::<SessionReceiver>,
            },
    {
        let sub = Subscription { session, receiver };
        match self.find_index(session) {
            Some(i) => {
                let prior = self.subscriptions[i].receiver;
                proof {
                    lemma_find_sub_update_all(self.subscriptions@, i as int, sub);
                    lemma_sub_wf_update_same_session(self.subscriptions@, i as int, sub);
                }
                self.subscriptions.set(i, sub);
                Some(prior)
            },
            None => {
                proof {
                    lemma_find_sub_push_all(self.subscriptions@, sub);
                    lemma_find_sub_none(self.subscriptions@, session.0);
                    assert forall|a: int, b: int|
                        0 <= a < b < self.subscriptions@.push(sub).len() implies (
                    #[trigger] self.subscriptions@.push(sub)[a]).session.0 != (
                    #[trigger] self.subscriptions@.push(sub)[b]).session.0 by {
                        if b < self.subscriptions@.len() {
                            assert(self.subscriptions@.push(sub)[a] == self.subscriptions@[a]);
                            assert(self.subscriptions@.push(sub)[b] == self.subscriptions@[b]);
                        } else {
                            assert(self.subscriptions@.push(sub)[a] == self.subscriptions@[a]);
                            assert(self.subscriptions@.push(sub)[b] == sub);
                        }
                    }
                }
                self.subscriptions.push(sub);
                None
            },
        }
    }

    /// Removes the forwarding slot for a session, if any, handing
    /// back its receiver so the caller can cancel the task.  The
    /// underlying session is unaffected.
    pub fn remove_subscription(&mut self, session: SessionId) -> (r: Option<SessionReceiver>)
        requires
            old(self).wf(),
        ensures
            final(self).wf(),
            final(self).spec_sub(session.0) is None,
            forall|id2: u128|
                id2 != session.0 ==> final(self).spec_sub(id2) == old(self).spec_sub(id2),
            r == match old(self).spec_sub(session.0) {
                Some(sub) => Some(sub.receiver),
                None => None::<SessionReceiver>,
            },
    {
        match self.find_index(session) {
            Some(i) => {
                proof {
                    lemma_find_sub_remove(self.subscriptions@, i as int, session.0);
                }
                let sub = self.subscriptions.remove(i);
                Some(sub.receiver)
            },
            None => None,
        }
    }

    /// Drops every forwarding slot: what a connection does when it
    /// closes.  Sessions themselves are unaffected and remain
    /// subscribable by other connections.
    pub fn clear(&mut self)
        ensures
            final(self).wf(),
            final(self).subscriptions@.len() == 0,
            forall|id2: u128| final(self).spec_sub(id2) is None,
    {
        self.subscriptions.clear();
    }
}

/// What one step of a forwarding task decides, given what the poll
/// returned.
#[derive(Debug, Clone, PartialEq, Eq)]
pub enum ForwardStep {
    /// Deliver this frame to the connection's outbound queue.
    Deliver(ServerMessage),
    /// Nothing ready; wait for the relay.
    Wait,
    /// The stream ended; the task is done.
    End,
}

/// What one forwarding step decides, as a function of the relay,
/// the cursor, and the session tag.
pub open spec fn spec_forward_step(
    relay: crate::broadcast::BroadcastRelay,
    c: crate::broadcast::BroadcastCursor,
    session: SessionId,
) -> ForwardStep {
    match crate::broadcast::spec_poll_outcome(relay, c) {
        RecvOutcome::Event(event) => ForwardStep::Deliver(
            ServerMessage::AgentEvent { session_id: session, event },
        ),
        RecvOutcome::Pending => ForwardStep::Wait,
        RecvOutcome::Closed => ForwardStep::End,
    }
}

/// One step of a forwarding task: polls the receiver and turns the
/// outcome into the frame to enqueue, a wait, or the end of the
/// task.  Events come out in relay order, each tagged with its
/// session.
pub fn forward_step(
    registry: &SessionRegistry,
    session: SessionId,
    r: &mut SessionReceiver,
) -> (step: ForwardStep)
    requires
        registry.wf(),
        registry.receiver_wf(*old(r)),
    ensures
        registry.receiver_wf(*final(r)),
        final(r).relay_idx == old(r).relay_idx,
        step == spec_forward_step(
            registry.relays@[old(r).relay_idx as int],
            old(r).cursor,
            session,
        ),
        final(r).cursor == crate::broadcast::spec_poll_cursor(
            registry.relays@[old(r).relay_idx as int],
            old(r).cursor,
        ),
{
    let outcome = registry.poll(r);
    match outcome {
        RecvOutcome::Event(event) => ForwardStep::Deliver(ServerMessage::agent_event(session, event)),
        RecvOutcome::Pending => ForwardStep::Wait,
        RecvOutcome::Closed => ForwardStep::End,
    }
}

/// Handles a `ping`: always a `pong`.
pub fn handle_ping() -> (r: ServerMessage)
    ensures
        r == ServerMessage::Pong,
{
    ServerMessage::Pong
}

/// The label of a registry error, as an owned string for an error
/// frame.
fn error_label_string(e: &SessionError) -> (s: String)
    ensures
        s@ == crate::errors::spec_session_error_label(e),
{
    let mut s = String::new();
    strutil::append_str(&mut s, e.label());
    proof {
        assert(s@ =~= crate::errors::spec_session_error_label(e));
    }
    s
}

/// Handles a `subscribe`: on success installs the forwarding slot
/// (replacing a prior one for the same session, whose receiver comes
/// back for cancellation) and acknowledges; on failure answers with
/// a scoped error frame and changes nothing.
pub fn handle_subscribe(
    conn: &mut ConnectionState,
    registry: &SessionRegistry,
    session: SessionId,
) -> (r: (ServerMessage, Option<SessionReceiver>))
    requires
        old(conn).wf(),
        registry.wf(),
    ensures
        final(conn).wf(),
        registry.spec_is_live(session.0) ==> {
            &&& r.0 == (ServerMessage::Subscribed { session_id: session })
            &&& match final(conn).spec_sub(session.0) {
                Some(sub) => registry.receiver_wf(sub.receiver) && match registry.spec_slot(
                    session.0,
                ) {
                    Some(slot) => sub.receiver.relay_idx == slot.relay_idx
                        && sub.receiver.cursor.cursor
                        == registry.relays@[slot.relay_idx as int].events@.len(),
                    None => false,
                },
                None => false,
            }
            &&& r.1 == match old(conn).spec_sub(session.0) {
                Some(sub) => Some(sub.receiver),
                None => None::<SessionReceiver>,
            }
        },
        !registry.spec_is_live(session.0) ==> (r.0 matches ServerMessage::Error {
            session_id: sid,
            ..
        } && sid == Some(session) && final(conn).subscriptions@ == old(conn).subscriptions@
            && r.1 is None),
        forall|id2: u128| id2 != session.0 ==> final(conn).spec_sub(id2) == old(conn).spec_sub(id2),
{
    match registry.subscribe(session) {
        Ok(receiver) => {
            let replaced = conn.install_subscription(session, receiver);
            (ServerMessage::Subscribed { session_id: session }, replaced)
        },
        Err(e) => {
            let message = error_label_string(&e);
            (ServerMessage::session_error(session, message), None)
        },
    }
}

/// Handles an `unsubscribe`: drops the forwarding slot if one
/// exists, hands its receiver back for cancellation, and always
/// acknowledges.
pub fn handle_unsubscribe(conn: &mut ConnectionState, session: SessionId) -> (r: (
    ServerMessage,
    Option<SessionReceiver>,
))
    requires
        old(conn).wf(),
    ensures
        final(conn).wf(),
        r.0 == (ServerMessage::Unsubscribed { session_id: session }),
        final(conn).spec_sub(session.0) is None,
        forall|id2: u128| id2 != session.0 ==> final(conn).spec_sub(id2) == old(conn).spec_sub(id2),
        r.1 == match old(conn).spec_sub(session.0) {
            Some(sub) => Some(sub.receiver),
            None => None::<SessionReceiver>,
        },
{
    let removed = conn.remove_subscription(session);
    (ServerMessage::Unsubscribed { session_id: session }, removed)
}

/// What `handle_start_session` asks the caller to do on success.
pub struct StartedSession {
    /// Drive the process's event source with this handle.
    pub pump: PumpHandle,
    /// The auto-subscribed forwarding receiver for this connection.
    pub receiver: SessionReceiver,
    /// A prior forwarding task for the same session to cancel.
    pub cancel: Option<SessionReceiver>,
}

/// Handles a `start_session` once the caller has resolved the
/// vendor (from its session store) and attempted the spawn: on
/// success records the process, auto-subscribes this connection,
/// and acknowledges with `session_started`; on any failure answers
/// with a scoped error frame carrying the failure's label, leaving
/// registry and connection unchanged.
pub fn handle_start_session(
    conn: &mut ConnectionState,
    registry: &mut SessionRegistry,
    session: SessionId,
    agent_type: AgentType,
    outcome: StartOutcome,
) -> (r: (ServerMessage, Option<StartedSession>))
    requires
        old(conn).wf(),
        old(registry).wf(),
    ensures
        final(conn).wf(),
        final(registry).wf(),
        old(registry).spec_is_live(session.0) ==> (r.0 matches ServerMessage::Error {
            session_id: sid,
            message,
        } && sid == Some(session) && message@ == crate::errors::spec_session_error_label(
            &SessionError::AlreadyRunning,
        ) && r.1 is None && final(registry).slots@ == old(registry).slots@
            && final(conn).subscriptions@ == old(conn).subscriptions@),
        !old(registry).spec_is_live(session.0) && outcome == StartOutcome::NotInstalled ==> (r.0 matches
            ServerMessage::Error { session_id: sid, message } && sid == Some(session) && message@
            == crate::errors::spec_session_error_label(&SessionError::Unavailable) && r.1 is None),
        !old(registry).spec_is_live(session.0) && outcome == StartOutcome::Failed ==> (r.0 matches
            ServerMessage::Error { session_id: sid, message } && sid == Some(session) && message@
            == crate::errors::spec_session_error_label(&SessionError::SpawnFailure) && r.1 is None),
        !old(registry).spec_is_live(session.0) && (outcome matches StartOutcome::Started { .. })
            ==> match r.1 {
            Some(started) => {
                &&& r.0 matches ServerMessage::SessionStarted { session_id: sid, agent_type: t, .. }
                    && sid == session && t@ == crate::agent::spec_agent_type_str(agent_type)
                &&& started.pump.session == session.0
                &&& final(registry).spec_is_live(session.0)
                &&& final(registry).receiver_wf(started.receiver)
                &&& final(conn).spec_sub(session.0) == Some(
                    Subscription { session, receiver: started.receiver },
                )
                &&& started.cancel == match old(conn).spec_sub(session.0) {
                    Some(sub) => Some(sub.receiver),
                    None => None::<SessionReceiver>,
                }
            },
            None => false,
        },
        forall|id2: u128| id2 != session.0 ==> final(conn).spec_sub(id2) == old(conn).spec_sub(id2),
{
    match registry.start_session(session, agent_type, outcome) {
        Ok((pump, receiver)) => {
            let cancel = conn.install_subscription(session, receiver);
            (
                ServerMessage::session_started(session, agent_type, None),
                Some(StartedSession { pump, receiver, cancel }),
            )
        },
        Err(e) => {
            let message = error_label_string(&e);
            (ServerMessage::session_error(session, message), None)
        },
    }
}

/// Handles a `send_input`: on success hands back the encoded input
/// for the caller to write to the process's sink; on failure the
/// scoped error frame to enqueue.
pub fn handle_send_input(registry: &SessionRegistry, session: SessionId, input: String) -> (r:
    Result<AgentInput, ServerMessage>)
    requires
        registry.wf(),
    ensures
        match r {
            Ok(encoded) => registry.spec_is_live(session.0) && match registry.spec_slot(session.0) {
                Some(slot) => slot.has_input && crate::agent::spec_input_matches(
                    slot.agent_type,
                    input@,
                    encoded,
                ),
                None => false,
            },
            Err(frame) => {
                &&& frame matches ServerMessage::Error { session_id: sid, message } && sid == Some(
                    session,
                )
                &&& (!registry.spec_is_live(session.0) ==> (frame matches ServerMessage::Error {
                    message,
                    ..
                } && message@ == crate::errors::spec_session_error_label(&SessionError::NotFound)))
            },
        },
{
    match registry.send_input(session, input) {
        Ok(encoded) => Ok(encoded),
        Err(e) => {
            let message = error_label_string(&e);
            Err(ServerMessage::session_error(session, message))
        },
    }
}

/// Handles a `respond_to_control`: for a live session of the
/// line-protocol vendor with a retained sink, exactly the encoded
/// JSONL envelope for the caller to write; on any failure the
/// scoped error frame.
pub fn handle_respond_to_control(
    registry: &SessionRegistry,
    session: SessionId,
    request_id: &str,
    payload_json: &str,
) -> (r: Result<AgentInput, ServerMessage>)
    requires
        registry.wf(),
    ensures
        r is Ok <==> registry.spec_is_live(session.0) && (match registry.spec_slot(session.0) {
            Some(slot) => slot.has_input && slot.agent_type == crate::agent::AgentType::Nova,
            None => false,
        }),
        match r {
            Ok(encoded) => (encoded matches AgentInput::NovaJsonl(line) && line@
                == spec_control_envelope(request_id@, payload_json@)),
            Err(frame) => frame matches ServerMessage::Error { session_id: sid, .. } && sid == Some(
                session,
            ),
        },
{
    match registry.respond_to_control(session, request_id, payload_json) {
        Ok(encoded) => Ok(encoded),
        Err(e) => {
            let message = error_label_string(&e);
            Err(ServerMessage::session_error(session, message))
        },
    }
}

/// Handles a `stop_session`: drops this connection's forwarding
/// slot first, then stops the session.  On success the caller gets
/// the termination signal to deliver and the `session_ended` frame
/// with reason `stopped`; a stop for an id with no live process
/// answers a scoped error frame.
pub fn handle_stop_session(
    conn: &mut ConnectionState,
    registry: &mut SessionRegistry,
    session: SessionId,
) -> (r: (ServerMessage, Option<StopAction>, Option<SessionReceiver>))
    requires
        old(conn).wf(),
        old(registry).wf(),
    ensures
        final(conn).wf(),
        final(registry).wf(),
        final(registry).relays@ == old(registry).relays@,
        final(conn).spec_sub(session.0) is None,
        forall|id2: u128| id2 != session.0 ==> final(conn).spec_sub(id2) == old(conn).spec_sub(id2),
        old(registry).spec_is_live(session.0) ==> {
            &&& r.0 matches ServerMessage::SessionEnded { session_id: sid, reason, error } && sid
                == session && reason@ == "stopped"@ && error is None
            &&& match r.1 {
                Some(action) => match old(registry).spec_slot(session.0) {
                    Some(slot) => action.pid == slot.pid,
                    None => false,
                },
                None => false,
            }
            &&& !final(registry).spec_is_live(session.0)
        },
        !old(registry).spec_is_live(session.0) ==> {
            &&& r.0 matches ServerMessage::Error { session_id: sid, message } && sid == Some(
                session,
            ) && message@ == crate::errors::spec_session_error_label(&SessionError::NotFound)
            &&& r.1 is None
            &&& final(registry).slots@ == old(registry).slots@
        },
        r.2 == match old(conn).spec_sub(session.0) {
            Some(sub) => Some(sub.receiver),
            None => None::<SessionReceiver>,
        },
{
    let cancelled = conn.remove_subscription(session);
    match registry.stop(session) {
        Ok(action) => {
            let mut reason = String::new();
            strutil::append_str(&mut reason, "stopped");
            proof {
                assert(reason@ =~= "stopped"@);
            }
            (
                ServerMessage::SessionEnded { session_id: session, reason, error: None },
                Some(action),
                cancelled,
            )
        },
        Err(e) => {
            let message = error_label_string(&e);
            (ServerMessage::session_error(session, message), None, cancelled)
        },
    }
}

/// The error frame for an inbound frame that could not be decoded:
/// the connection answers and stays open.
pub fn malformed_frame_error(detail: String) -> (r: ServerMessage)
    ensures
        r matches ServerMessage::Error { message, session_id } && session_id is None && message@
            == "Invalid message: "@ + detail@,
{
    let mut message = String::new();
    strutil::append_str(&mut message, "Invalid message: ");
    strutil::append_str(&mut message, detail.as_str());
    proof {
        assert(message@ =~= "Invalid message: "@ + detail@);
    }
    ServerMessage::error(message)
}

/// A hexadecimal digit character for a value in 0..=15, lower case.
pub open spec fn spec_hex_digit(d: int) -> char {
    if d == 0 {
        '0'
    } else if d == 1 {
        '1'
    } else if d == 2 {
        '2'
    } else if d == 3 {
        '3'
    } else if d == 4 {
        '4'
    } else if d == 5 {
        '5'
    } else if d == 6 {
        '6'
    } else if d == 7 {
        '7'
    } else if d == 8 {
        '8'
    } else if d == 9 {
        '9'
    } else if d == 10 {
        'a'
    } else if d == 11 {
        'b'
    } else if d == 12 {
        'c'
    } else if d == 13 {
        'd'
    } else if d == 14 {
        'e'
    } else {
        'f'
    }
}

/// How one character appears inside a JSON string literal: quote and
/// backslash are escaped, the named control characters take their
/// short escapes, any other control character its `\u00XX` form, and
/// everything else stands as itself.
pub open spec fn spec_json_escape_char(c: char) -> Seq<char> {
    let u = c as u32;
    if c == '"' {
        seq!['\\', '"']
    } else if c == '\\' {
        seq!['\\', '\\']
    } else if u == 8 {
        seq!['\\', 'b']
    } else if u == 9 {
        seq!['\\', 't']
    } else if u == 10 {
        seq!['\\', 'n']
    } else if u == 12 {
        seq!['\\', 'f']
    } else if u == 13 {
        seq!['\\', 'r']
    } else if u < 32 {
        seq!['\\', 'u', '0', '0', spec_hex_digit(u as int / 16), spec_hex_digit(u as int % 16)]
    } else {
        seq![c]
    }
}

/// A whole string's JSON-escaped form.
pub open spec fn spec_json_escape(s: Seq<char>) -> Seq<char>
    decreases s.len(),
{
    if s.len() == 0 {
        Seq::empty()
    } else {
        spec_json_escape_char(s[0]) + spec_json_escape(s.drop_first())
    }
}

proof fn lemma_json_escape_push(s: Seq<char>, c: char)
    ensures
        spec_json_escape(s.push(c)) == spec_json_escape(s) + spec_json_escape_char(c),
    decreases s.len(),
{
    if s.len() == 0 {
        assert(s.push(c)[0] == c);
        assert(s.push(c).drop_first() =~= Seq::<char>::empty());
        assert(spec_json_escape(Seq::<char>::empty()) =~= Seq::<char>::empty());
        assert(spec_json_escape(s.push(c)) =~= spec_json_escape_char(c));
        assert(spec_json_escape(s) + spec_json_escape_char(c) =~= spec_json_escape_char(c));
    } else {
        assert(s.push(c)[0] == s[0]);
        assert(s.push(c).drop_first() =~= s.drop_first().push(c));
        lemma_json_escape_push(s.drop_first(), c);
        assert(spec_json_escape_char(s[0]) + (spec_json_escape(s.drop_first())
            + spec_json_escape_char(c)) =~= (spec_json_escape_char(s[0]) + spec_json_escape(
            s.drop_first(),
        )) + spec_json_escape_char(c));
    }
}

fn hex_digit(d: u32) -> (c: char)
    requires
        d < 16,
    ensures
        c == spec_hex_digit(d as int),
{
    if d == 0 {
        '0'
    } else if d == 1 {
        '1'
    } else if d == 2 {
        '2'
    } else if d == 3 {
        '3'
    } else if d == 4 {
        '4'
    } else if d == 5 {
        '5'
    } else if d == 6 {
        '6'
    } else if d == 7 {
        '7'
    } else if d == 8 {
        '8'
    } else if d == 9 {
        '9'
    } else if d == 10 {
        'a'
    } else if d == 11 {
        'b'
    } else if d == 12 {
        'c'
    } else if d == 13 {
        'd'
    } else if d == 14 {
        'e'
    } else {
        'f'
    }
}

/// Escapes a string for inclusion inside a JSON string literal.
pub fn json_escape_chars(s: &Vec<char>) -> (r: Vec<char>)
    ensures
        r@ == spec_json_escape(s@),
{
    let mut out: Vec<char> = Vec::new();
    let mut i: usize = 0;
    while i < s.len()
        invariant
            i <= s@.len(),
            out@ == spec_json_escape(s@.take(i as int)),
        decreases s@.len() - i,
    {
        let c = s[i];
        let u = c as u32;
        if c == '"' {
            out.push('\\');
            out.push('"');
        } else if c == '\\' {
            out.push('\\');
            out.push('\\');
        } else if u == 8 {
            out.push('\\');
            out.push('b');
        } else if u == 9 {
            out.push('\\');
            out.push('t');
        } else if u == 10 {
            out.push('\\');
            out.push('n');
        } else if u == 12 {
            out.push('\\');
            out.push('f');
        } else if u == 13 {
            out.push('\\');
            out.push('r');
        } else if u < 32 {
            out.push('\\');
            out.push('u');
            out.push('0');
            out.push('0');
            out.push(hex_digit(u / 16));
            out.push(hex_digit(u % 16));
        } else {
            out.push(c);
        }
        i = i + 1;
        proof {
            lemma_json_escape_push(s@.take(i - 1), s@[i - 1]);
            assert(s@.take(i as int).drop_last() =~= s@.take(i - 1));
            assert(s@.take(i as int) =~= s@.take(i - 1).push(s@[i - 1]));
            assert(out@ =~= spec_json_escape(s@.take(i - 1)) + spec_json_escape_char(s@[i - 1]));
        }
    }
    proof {
        assert(s@.take(s@.len() as int) =~= s@);
    }
    out
}

/// The control-response envelope: one JSONL line acknowledging a
/// control request, carrying the request id (escaped) and the
/// response payload (already serialized JSON) verbatim.
pub open spec fn spec_control_envelope(request_id: Seq<char>, payload_json: Seq<char>) -> Seq<char> {
    "{\"type\":\"control_response\",\"response\":{\"subtype\":\"success\",\"request_id\":\""@
        + spec_json_escape(request_id) + "\",\"response\":"@ + payload_json + "}}\n"@
}

/// Builds the control-response envelope line.
pub fn control_envelope(request_id: &str, payload_json: &str) -> (r: String)
    ensures
        r@ == spec_control_envelope(request_id@, payload_json@),
{
    let mut out = String::new();
    strutil::append_str(
        &mut out,
        "{\"type\":\"control_response\",\"response\":{\"subtype\":\"success\",\"request_id\":\"",
    );
    let rid_chars = strutil::str_chars(request_id);
    let escaped = json_escape_chars(&rid_chars);
    let escaped_str = strutil::chars_to_string(&escaped);
    strutil::append_str(&mut out, escaped_str.as_str());
    strutil::append_str(&mut out, "\",\"response\":");
    strutil::append_str(&mut out, payload_json);
    strutil::append_str(&mut out, "}}\n");
    proof {
        assert(out@ =~= spec_control_envelope(request_id@, payload_json@));
    }
    out
}

proof fn lemma_find_sub_push(s: Seq<Subscription>, x: Subscription, id: u128)
    requires
        spec_find_sub(s, x.session.0) is None,
    ensures
        spec_find_sub(s.push(x), id) == if id == x.session.0 {
            Some(x)
        } else {
            spec_find_sub(s, id)
        },
    decreases s.len(),
{
    if s.len() == 0 {
        assert(s.push(x)[0] == x);
        assert(s.push(x).drop_first() =~= Seq::<Subscription>::empty());
    } else {
        assert(s.push(x)[0] == s[0]);
        assert(s.push(x).drop_first() =~= s.drop_first().push(x));
        lemma_find_sub_push(s.drop_first(), x, id);
    }
}

/// `lemma_find_sub_push`, quantified over every looked-up id.
proof fn lemma_find_sub_push_all(s: Seq<Subscription>, x: Subscription)
    requires
        spec_find_sub(s, x.session.0) is None,
    ensures
        forall|q: u128|
            #![auto]
            spec_find_sub(s.push(x), q) == (if q == x.session.0 {
                Some(x)
            } else {
                spec_find_sub(s, q)
            }),
{
    assert forall|q: u128|
        #![auto]
        spec_find_sub(s.push(x), q) == (if q == x.session.0 {
            Some(x)
        } else {
            spec_find_sub(s, q)
        }) by {
        lemma_find_sub_push(s, x, q);
    }
}

/// `lemma_find_sub_update`, quantified over every looked-up id.
proof fn lemma_find_sub_update_all(s: Seq<Subscription>, i: int, x: Subscription)
    requires
        0 <= i < s.len(),
        s[i].session.0 == x.session.0,
        forall|j: int| 0 <= j < i ==> (#[trigger] s[j]).session.0 != x.session.0,
    ensures
        forall|q: u128|
            #![auto]
            spec_find_sub(s.update(i, x), q) == (if q == x.session.0 {
                Some(x)
            } else {
                spec_find_sub(s, q)
            }),
{
    assert forall|q: u128|
        #![auto]
        spec_find_sub(s.update(i, x), q) == (if q == x.session.0 {
            Some(x)
        } else {
            spec_find_sub(s, q)
        }) by {
        lemma_find_sub_update(s, i, x, q);
    }
}

proof fn lemma_find_sub_update(s: Seq<Subscription>, i: int, x: Subscription, id: u128)
    requires
        0 <= i < s.len(),
        s[i].session.0 == x.session.0,
        forall|j: int| 0 <= j < i ==> (#[trigger] s[j]).session.0 != x.session.0,
    ensures
        spec_find_sub(s.update(i, x), id) == if id == x.session.0 {
            Some(x)
        } else {
            spec_find_sub(s, id)
        },
    decreases s.len(),
{
    if i == 0 {
        assert(s.update(i, x)[0] == x);
        assert(s.update(i, x).drop_first() =~= s.drop_first());
    } else {
        assert(s.update(i, x)[0] == s[0]);
        assert(s.update(i, x).drop_first() =~= s.drop_first().update(i - 1, x));
        assert(forall|j: int|
            0 <= j < i - 1 ==> (#[trigger] s.drop_first()[j]).session.0 != x.session.0);
        lemma_find_sub_update(s.drop_first(), i - 1, x, id);
    }
}

proof fn lemma_find_sub_remove_frame(s: Seq<Subscription>, i: int, id: u128, q: u128)
    requires
        0 <= i < s.len(),
        s[i].session.0 == id,
        forall|j: int| 0 <= j < i ==> (#[trigger] s[j]).session.0 != id,
        q != id,
    ensures
        spec_find_sub(s.remove(i), q) == spec_find_sub(s, q),
    decreases s.len(),
{
    if i == 0 {
        assert(s.remove(i) =~= s.drop_first());
    } else {
        assert(s.remove(i)[0] == s[0]);
        assert(s.remove(i).drop_first() =~= s.drop_first().remove(i - 1));
        if s[0].session.0 != q {
            assert(forall|j: int|
                0 <= j < i - 1 ==> (#[trigger] s.drop_first()[j]).session.0 != id);
            lemma_find_sub_remove_frame(s.drop_first(), i - 1, id, q);
        }
    }
}

proof fn lemma_find_sub_remove(s: Seq<Subscription>, i: int, id: u128)
    requires
        0 <= i < s.len(),
        s[i].session.0 == id,
        forall|j: int| 0 <= j < i ==> (#[trigger] s[j]).session.0 != id,
        forall|j1: int, j2: int|
            0 <= j1 < j2 < s.len() ==> (#[trigger] s[j1]).session.0 != (#[trigger] s[j2]).session.0,
    ensures
        spec_find_sub(s.remove(i), id) is None,
        forall|id2: u128| id2 != id ==> spec_find_sub(s.remove(i), id2) == spec_find_sub(s, id2),
    decreases s.len(),
{
    if i == 0 {
        assert(s.remove(i) =~= s.drop_first());
        assert(forall|j: int|
            0 <= j < s.drop_first().len() ==> #[trigger] s.drop_first()[j] == s[j + 1]);
        assert(forall|j: int|
            0 <= j < s.drop_first().len() ==> (#[trigger] s.drop_first()[j]).session.0 != id);
        lemma_find_sub_none_when_absent(s.drop_first(), id);
    } else {
        assert(s.remove(i)[0] == s[0]);
        assert(s.remove(i).drop_first() =~= s.drop_first().remove(i - 1));
        assert(forall|j: int| 0 <= j < i - 1 ==> (#[trigger] s.drop_first()[j]).session.0 != id);
        assert(forall|j1: int, j2: int|
            0 <= j1 < j2 < s.drop_first().len() ==> (#[trigger] s.drop_first()[j1]).session.0 != (
            #[trigger] s.drop_first()[j2]).session.0);
        lemma_find_sub_remove(s.drop_first(), i - 1, id);
    }
    assert forall|id2: u128| id2 != id implies spec_find_sub(s.remove(i), id2) == spec_find_sub(
        s,
        id2,
    ) by {
        lemma_find_sub_remove_frame(s, i, id, id2);
    }
}

proof fn lemma_find_sub_none_when_absent(s: Seq<Subscription>, id: u128)
    requires
        forall|j: int| 0 <= j < s.len() ==> (#[trigger] s[j]).session.0 != id,
    ensures
        spec_find_sub(s, id) is None,
    decreases s.len(),
{
    if s.len() > 0 {
        assert(forall|j: int|
            0 <= j < s.drop_first().len() ==> #[trigger] s.drop_first()[j] == s[j + 1]);
        lemma_find_sub_none_when_absent(s.drop_first(), id);
    }
}

/// When `spec_find_sub` finds nothing, no subscription bears the id.
proof fn lemma_find_sub_none(s: Seq<Subscription>, id: u128)
    requires
        spec_find_sub(s, id) is None,
    ensures
        forall|i: int| 0 <= i < s.len() ==> (#[trigger] s[i]).session.0 != id,
    decreases s.len(),
{
    if s.len() > 0 {
        lemma_find_sub_none(s.drop_first(), id);
        assert forall|i: int| 0 <= i < s.len() implies (#[trigger] s[i]).session.0 != id by {
            if i > 0 {
                assert(s.drop_first()[i - 1] == s[i]);
            }
        }
    }
}

/// Replacing a subscription without changing its session keeps
/// sessions unique.
proof fn lemma_sub_wf_update_same_session(s: Seq<Subscription>, i: int, x: Subscription)
    requires
        0 <= i < s.len(),
        s[i].session.0 == x.session.0,
        forall|a: int, b: int|
            0 <= a < b < s.len() ==> (#[trigger] s[a]).session.0 != (#[trigger] s[b]).session.0,
    ensures
        forall|a: int, b: int|
            0 <= a < b < s.len() ==> (#[trigger] s.update(i, x)[a]).session.0 != (
            #[trigger] s.update(i, x)[b]).session.0,
{
    assert forall|a: int, b: int|
        0 <= a < b < s.len() implies (#[trigger] s.update(i, x)[a]).session.0 != (
    #[trigger] s.update(i, x)[b]).session.0 by {
        assert(s.update(i, x)[a].session.0 == s[a].session.0);
        assert(s.update(i, x)[b].session.0 == s[b].session.0);
    }
}

} // verus!
