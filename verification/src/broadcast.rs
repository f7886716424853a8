//! Order-preserving broadcast relay.
//!
//! One producer appends events; any number of receivers read them
//! independently, each through its own cursor.  Every receiver sees
//! exactly the events appended after it subscribed, in append order,
//! so all subscribers of one relay observe the same events in the
//! same relative order.

use vstd::prelude::*;
use crate::agent::{AgentEvent, ImageAttachment};

verus! {

/// The relay: the ordered log of events emitted so far, and whether
/// the producer has finished.
#[derive(Debug, Clone, PartialEq, Eq)]
pub struct BroadcastRelay {
    pub events: Vec<AgentEvent>,
    pub closed: bool,
}

/// One subscriber's position in a relay's event log.
#[derive(Debug, Clone, Copy, PartialEq, Eq, Structural)]
pub struct BroadcastCursor {
    pub cursor: usize,
}

/// The outcome of polling a relay through a cursor.
#[derive(Debug, Clone, PartialEq, Eq)]
pub enum RecvOutcome {
    /// The next event in order.
    Event(AgentEvent),
    /// No event is ready yet, and more may come.
    Pending,
    /// The stream has ended and everything was delivered.
    Closed,
}

/// The events a cursor has consumed so far: the prefix of the log up
/// to its position.
pub open spec fn spec_received(relay: BroadcastRelay, c: BroadcastCursor) -> Seq<AgentEvent> {
    relay.events@.take(c.cursor as int)
}

/// A cursor is well-formed for a relay when it points into the log.
pub open spec fn spec_cursor_wf(relay: BroadcastRelay, c: BroadcastCursor) -> bool {
    c.cursor <= relay.events@.len()
}

/// What a poll returns: the event at the cursor if one is ready, the
/// end of the stream once the relay is closed and drained, a wait
/// otherwise.
pub open spec fn spec_poll_outcome(relay: BroadcastRelay, c: BroadcastCursor) -> RecvOutcome {
    if c.cursor < relay.events@.len() {
        RecvOutcome::Event(relay.events@[c.cursor as int])
    } else if relay.closed {
        RecvOutcome::Closed
    } else {
        RecvOutcome::Pending
    }
}

/// Where the cursor stands after a poll: advanced past a delivered
/// event, unchanged otherwise.
pub open spec fn spec_poll_cursor(relay: BroadcastRelay, c: BroadcastCursor) -> BroadcastCursor {
    if c.cursor < relay.events@.len() {
        BroadcastCursor { cursor: (c.cursor + 1) as usize }
    } else {
        c
    }
}

impl BroadcastRelay {
    /// A fresh relay: no events, still open.
    pub fn new() -> (r: BroadcastRelay)
        ensures
            r.events@.len() == 0,
            !r.closed,
    {
        BroadcastRelay { events: Vec::new(), closed: false }
    }

    /// Appends one event to the log.
    pub fn emit(&mut self, e: AgentEvent)
        ensures
            final(self).events@ == old(self).events@.push(e),
            final(self).closed == old(self).closed,
    {
        self.events.push(e);
    }

    /// Marks the stream as ended; the log stays readable.
    pub fn close(&mut self)
        ensures
            final(self).events@ == old(self).events@,
            final(self).closed,
    {
        self.closed = true;
    }

    /// A new cursor that will observe exactly the events emitted from
    /// now on.
    pub fn subscribe(&self) -> (c: BroadcastCursor)
        ensures
            spec_cursor_wf(*self, c),
            spec_received(*self, c) == self.events@,
            c.cursor == self.events@.len(),
    {
        BroadcastCursor { cursor: self.events.len() }
    }

    /// Polls the relay through a cursor: hands out the next event in
    /// order if one is ready, reports the definitive end once the
    /// relay is closed and drained, and asks the caller to wait
    /// otherwise.
    pub fn poll(&self, c: &mut BroadcastCursor) -> (r: RecvOutcome)
        requires
            spec_cursor_wf(*self, *old(c)),
        ensures
            spec_cursor_wf(*self, *final(c)),
            r == spec_poll_outcome(*self, *old(c)),
            *final(c) == spec_poll_cursor(*self, *old(c)),
    {
        if c.cursor < self.events.len() {
            let e = clone_event(&self.events[c.cursor]);
            c.cursor = c.cursor + 1;
            RecvOutcome::Event(e)
        } else if self.closed {
            RecvOutcome::Closed
        } else {
            RecvOutcome::Pending
        }
    }
}

/// Subscribers of one relay observe the same events in the same
/// relative order: what the cursor that is further behind has
/// received is exactly the first part of what the other received.
pub proof fn lemma_broadcast_same_order(relay: BroadcastRelay, c1: BroadcastCursor, c2: BroadcastCursor)
    requires
        spec_cursor_wf(relay, c1),
        spec_cursor_wf(relay, c2),
        c1.cursor <= c2.cursor,
    ensures
        spec_received(relay, c1) == spec_received(relay, c2).take(c1.cursor as int),
        c1.cursor == c2.cursor ==> spec_received(relay, c1) == spec_received(relay, c2),
{
    assert(spec_received(relay, c1) =~= spec_received(relay, c2).take(c1.cursor as int));
}

/// What every receiver consumes is a prefix of the emitted log: no
/// reordering, no duplication, no invention.
pub proof fn lemma_broadcast_prefix(relay: BroadcastRelay, c: BroadcastCursor)
    requires
        spec_cursor_wf(relay, c),
    ensures
        spec_received(relay, c) == relay.events@.take(c.cursor as int),
        forall|i: int| 0 <= i < c.cursor ==> spec_received(relay, c)[i] == relay.events@[i],
{
}

/// A field-for-field copy of an event, with its value pinned down
/// (the derived `Clone` would leave the copy unspecified).
pub fn clone_event(e: &AgentEvent) -> (r: AgentEvent)
    ensures
        r == *e,
{
    match e {
        AgentEvent::SessionInit(init) => AgentEvent::SessionInit(
            crate::agent::SessionInitEvent {
                session_id: init.session_id.clone(),
                model: match &init.model {
                    Some(m) => Some(m.clone()),
                    None => None,
                },
            },
        ),
        AgentEvent::AssistantMessage(m) => AgentEvent::AssistantMessage(
            crate::agent::AssistantMessageEvent { text: m.text.clone(), is_final: m.is_final },
        ),
        AgentEvent::ToolInvocation(name) => AgentEvent::ToolInvocation(name.clone()),
        AgentEvent::ErrorEvent(message) => AgentEvent::ErrorEvent(message.clone()),
        AgentEvent::Completed => AgentEvent::Completed,
    }
}

/// A field-for-field copy of an image attachment.
pub fn clone_attachment(a: &ImageAttachment) -> (r: ImageAttachment)
    ensures
        r == *a,
{
    ImageAttachment { data: a.data.clone(), media_type: a.media_type.clone() }
}

} // verus!
