//! The session registry: the single authoritative map from session
//! identifier to at most one live agent process, with an
//! order-preserving broadcast relay per process so that any number
//! of subscribers can observe one process's single-consumer event
//! stream.
//!
//! The registry is a pure state machine.  The caller spawns the
//! process, pumps its event source, and delivers termination
//! signals; it hands each outcome in as a plain value and performs
//! the actions the registry returns.  Exactly one pump drives each
//! process's stream into its relay; subscribers only ever hold a
//! relay handle and a cursor.

use vstd::prelude::*;
use crate::agent::{encode_input, AgentEvent, AgentInput, AgentType, spec_input_matches};
use crate::broadcast::{BroadcastCursor, BroadcastRelay, RecvOutcome};
use crate::errors::SessionError;

verus! {

/// A stable logical session identifier; it outlives any single
/// process serving it.
#[derive(Debug, Clone, Copy, PartialEq, Eq, Structural)]
pub struct SessionId(pub u128);

/// One session's live-process record.
#[derive(Debug, Clone, PartialEq, Eq)]
pub struct SessionSlot {
    pub id: SessionId,
    /// Whether a live process currently serves this id.  A slot goes
    /// dead when its event source ends or the session is stopped,
    /// and may be revived by a later start with a fresh relay.
    pub live: bool,
    pub agent_type: AgentType,
    /// The OS process identifier, for best-effort termination.
    pub pid: u32,
    /// Whether the process's input sink was retained.
    pub has_input: bool,
    /// Index into the registry's relay table.
    pub relay_idx: usize,
}

/// The outcome of asking the runner to start a vendor process.
#[derive(Debug, Clone, PartialEq, Eq)]
pub enum StartOutcome {
    /// The process is running.
    Started { pid: u32, has_input: bool },
    /// The vendor tool is not installed.
    NotInstalled,
    /// The spawn itself failed.
    Failed,
}

/// A handle held by the single pump that drives one process's event
/// source into its relay.
#[derive(Debug, Clone, Copy, PartialEq, Eq, Structural)]
pub struct PumpHandle {
    pub session: u128,
    pub relay_idx: usize,
}

/// A subscriber's handle: which relay it reads and where it stands.
#[derive(Debug, Clone, Copy, PartialEq, Eq, Structural)]
pub struct SessionReceiver {
    pub relay_idx: usize,
    pub cursor: BroadcastCursor,
}

/// The action a successful `stop` asks of the caller: send a
/// termination signal to the process, best effort, without waiting
/// for exit confirmation.
#[derive(Debug, Clone, Copy, PartialEq, Eq, Structural)]
pub struct StopAction {
    pub pid: u32,
}

/// The registry: session slots plus the relay table.  Relays are
/// never removed, so receivers stay valid and drain fully even after
/// their session's entry is gone.
#[derive(Debug)]
pub struct SessionRegistry {
    pub slots: Vec<SessionSlot>,
    pub relays: Vec<BroadcastRelay>,
}

/// The first slot with the given id, if any.
pub open spec fn spec_find_slot(s: Seq<SessionSlot>, id: u128) -> Option<SessionSlot>
    decreases s.len(),
{
    if s.len() == 0 {
        None
    } else if s[0].id.0 == id {
        Some(s[0])
    } else {
        spec_find_slot(s.drop_first(), id)
    }
}

impl SessionRegistry {
    /// Each id names at most one slot, and every slot's relay index
    /// is in range.
    pub open spec fn wf(self) -> bool {
        &&& forall|i: int, j: int|
            0 <= i < j < self.slots@.len() ==> (#[trigger] self.slots@[i]).id.0 != (
            #[trigger] self.slots@[j]).id.0
        &&& forall|i: int|
            0 <= i < self.slots@.len() ==> (#[trigger] self.slots@[i]).relay_idx
                < self.relays@.len()
    }

    /// The slot registered under `id`, if any.
    pub open spec fn spec_slot(self, id: u128) -> Option<SessionSlot> {
        spec_find_slot(self.slots@, id)
    }

    /// Whether a live process currently serves `id`.
    pub open spec fn spec_is_live(self, id: u128) -> bool {
        match self.spec_slot(id) {
            Some(slot) => slot.live,
            None => false,
        }
    }

    /// A receiver is well-formed when its relay exists and its cursor
    /// points into that relay's log.
    pub open spec fn receiver_wf(self, r: SessionReceiver) -> bool {
        &&& r.relay_idx < self.relays@.len()
        &&& crate::broadcast::spec_cursor_wf(self.relays@[r.relay_idx as int], r.cursor)
    }

    /// An empty registry.
    pub fn new() -> (r: SessionRegistry)
        ensures
            r.wf(),
            r.slots@.len() == 0,
            r.relays@.len() == 0,
    {
        SessionRegistry { slots: Vec::new(), relays: Vec::new() }
    }

    /// The index of the slot registered under `id`, if any.
    fn find_index(&self, id: SessionId) -> (r: Option<usize>)
        ensures
            match r {
                Some(i) => i < self.slots@.len() && self.slots@[i as int].id.0 == id.0
                    && self.spec_slot(id.0) == Some(self.slots@[i as int]) && (forall|j: int|
                    0 <= j < i ==> (#[trigger] self.slots@[j]).id.0 != id.0),
                None => self.spec_slot(id.0) is None,
            },
    {
        let mut i: usize = 0;
        proof {
            assert(self.slots@.skip(0) =~= self.slots@);
        }
        while i < self.slots.len()
            invariant
                i <= self.slots@.len(),
                forall|j: int| 0 <= j < i ==> (#[trigger] self.slots@[j]).id.0 != id.0,
                spec_find_slot(self.slots@.skip(i as int), id.0) == spec_find_slot(
                    self.slots@,
                    id.0,
                ),
            decreases self.slots@.len() - i,
        {
            if self.slots[i].id.0 == id.0 {
                proof {
                    let tail = self.slots@.skip(i as int);
                    assert(tail[0] == self.slots@[i as int]);
                }
                return Some(i);
            }
            i = i + 1;
            proof {
                let prev = self.slots@.skip(i - 1);
                assert(prev[0] == self.slots@[i - 1]);
                assert(prev.drop_first() =~= self.slots@.skip(i as int));
            }
        }
        proof {
            assert(self.slots@.skip(i as int) =~= Seq::<SessionSlot>::empty());
        }
        None
    }

    /// Starts a session: refuses an id that already has a live
    /// process, reports an uninstalled vendor or a failed spawn
    /// without leaving any partial entry, and otherwise records the
    /// process with a fresh relay, returning the pump's handle and
    /// the starter's receiver.
    ///
    /// The caller resolves tool availability and performs the spawn;
    /// both outcomes arrive here as values.
    pub fn start_session(
        &mut self,
        id: SessionId,
        agent_type: AgentType,
        outcome: StartOutcome,
    ) -> (r: Result<(PumpHandle, SessionReceiver), SessionError>)
        requires
            old(self).wf(),
        ensures
            final(self).wf(),
            old(self).spec_is_live(id.0) ==> r == Err::<(PumpHandle, SessionReceiver), SessionError>(
                SessionError::AlreadyRunning,
            ) && final(self).slots@ == old(self).slots@ && final(self).relays@ == old(
                self,
            ).relays@,
            !old(self).spec_is_live(id.0) && outcome == StartOutcome::NotInstalled ==> r == Err::<(
                PumpHandle,
                SessionReceiver,
            ), SessionError>(SessionError::Unavailable) && final(self).slots@ == old(self).slots@
                && final(self).relays@ == old(self).relays@,
            !old(self).spec_is_live(id.0) && outcome == StartOutcome::Failed ==> r == Err::<(
                PumpHandle,
                SessionReceiver,
            ), SessionError>(SessionError::SpawnFailure) && final(self).slots@ == old(self).slots@
                && final(self).relays@ == old(self).relays@,
            !old(self).spec_is_live(id.0) && (outcome matches StartOutcome::Started { .. })
                ==> match r {
                Ok((pump, receiver)) => {
                    &&& pump.session == id.0
                    &&& pump.relay_idx == old(self).relays@.len()
                    &&& receiver.relay_idx == pump.relay_idx
                    &&& receiver.cursor.cursor == 0
                    &&& final(self).receiver_wf(receiver)
                    &&& final(self).relays@.len() == old(self).relays@.len() + 1
                    &&& final(self).relays@[pump.relay_idx as int].events@.len() == 0
                    &&& !final(self).relays@[pump.relay_idx as int].closed
                    &&& (forall|k: int|
                        0 <= k < old(self).relays@.len() ==> final(self).relays@[k] == old(
                            self,
                        ).relays@[k])
                    &&& final(self).spec_is_live(id.0)
                    &&& match final(self).spec_slot(id.0) {
                        Some(slot) => {
                            &&& slot.agent_type == agent_type
                            &&& slot.relay_idx == pump.relay_idx
                            &&& outcome matches StartOutcome::Started { pid, has_input } ==> slot.pid
                                == pid && slot.has_input == has_input
                        },
                        None => false,
                    }
                    &&& (forall|id2: u128|
                        id2 != id.0 ==> final(self).spec_slot(id2) == old(self).spec_slot(id2))
                },
                Err(_) => false,
            },
    {
        let existing = self.find_index(id);
        match existing {
            Some(i) if self.slots[i].live => {
                return Err(SessionError::AlreadyRunning);
            },
            _ => {},
        }
        match outcome {
            StartOutcome::NotInstalled => Err(SessionError::Unavailable),
            StartOutcome::Failed => Err(SessionError::SpawnFailure),
            StartOutcome::Started { pid, has_input } => {
                let relay_idx = self.relays.len();
                self.relays.push(BroadcastRelay::new());
                let slot = SessionSlot {
                    id,
                    live: true,
                    agent_type,
                    pid,
                    has_input,
                    relay_idx,
                };
                match existing {
                    Some(i) => {
                        proof {
                            lemma_find_update_all(self.slots@, i as int, slot);
                            lemma_wf_update_same_id(self.slots@, i as int, slot);
                        }
                        self.slots.set(i, slot);
                    },
                    None => {
                        proof {
                            lemma_find_push_all(self.slots@, slot);
                            lemma_find_none(self.slots@, id.0);
                            assert forall|a: int, b: int|
                                0 <= a < b < self.slots@.push(slot).len() implies (
                            #[trigger] self.slots@.push(slot)[a]).id.0 != (
                            #[trigger] self.slots@.push(slot)[b]).id.0 by {
                                if b < self.slots@.len() {
                                    assert(self.slots@.push(slot)[a] == self.slots@[a]);
                                    assert(self.slots@.push(slot)[b] == self.slots@[b]);
                                } else {
                                    assert(self.slots@.push(slot)[a] == self.slots@[a]);
                                    assert(self.slots@.push(slot)[b] == slot);
                                }
                            }
                        }
                        self.slots.push(slot);
                    },
                }
                let pump = PumpHandle { session: id.0, relay_idx };
                let receiver = SessionReceiver {
                    relay_idx,
                    cursor: BroadcastCursor { cursor: 0 },
                };
                Ok((pump, receiver))
            },
        }
    }

    /// The pump observed one event on the process's stream: append
    /// it to the pump's own relay, in order.  Every subscriber of
    /// that relay will see it at the same position; a pump whose
    /// session has since been stopped or restarted still feeds its
    /// original subscribers until its stream ends.
    pub fn pump_event(&mut self, pump: PumpHandle, event: AgentEvent)
        requires
            old(self).wf(),
            pump.relay_idx < old(self).relays@.len(),
        ensures
            final(self).wf(),
            final(self).slots@ == old(self).slots@,
            final(self).relays@.len() == old(self).relays@.len(),
            final(self).relays@[pump.relay_idx as int].events@ == old(self).relays@[pump.relay_idx as int].events@.push(event),
            final(self).relays@[pump.relay_idx as int].closed == old(self).relays@[pump.relay_idx as int].closed,
            forall|k: int|
                0 <= k < old(self).relays@.len() && k != pump.relay_idx ==> final(self).relays@[k]
                    == old(self).relays@[k],
    {
        let idx = pump.relay_idx;
        let mut relay = self.relays.remove(idx);
        relay.emit(event);
        self.relays.insert(idx, relay);
        proof {
            assert(self.relays@ =~= old(self).relays@.update(
                idx as int,
                self.relays@[idx as int],
            ));
        }
    }

    /// The pump observed the end of the process's event source: the
    /// session's entry is removed unconditionally and its relay is
    /// closed, so every subscriber drains and then observes the end.
    pub fn stream_ended(&mut self, pump: PumpHandle)
        requires
            old(self).wf(),
            pump.relay_idx < old(self).relays@.len(),
        ensures
            final(self).wf(),
            (match old(self).spec_slot(pump.session) {
                Some(slot) => slot.relay_idx == pump.relay_idx,
                None => false,
            }) ==> !final(self).spec_is_live(pump.session) && (forall|id2: u128|
                id2 != pump.session ==> final(self).spec_slot(id2) == old(self).spec_slot(id2)),
            !(match old(self).spec_slot(pump.session) {
                Some(slot) => slot.relay_idx == pump.relay_idx,
                None => false,
            }) ==> final(self).slots@ == old(self).slots@,
            final(self).relays@[pump.relay_idx as int].closed,
            final(self).relays@[pump.relay_idx as int].events@ == old(self).relays@[pump.relay_idx as int].events@,
            final(self).relays@.len() == old(self).relays@.len(),
            forall|k: int|
                0 <= k < old(self).relays@.len() && k != pump.relay_idx ==> final(self).relays@[k]
                    == old(self).relays@[k],
    {
        let id = SessionId(pump.session);
        let found = self.find_index(id);
        match found {
            Some(i) if self.slots[i].relay_idx == pump.relay_idx => {
                let old_slot = SessionSlot {
                    id,
                    live: false,
                    agent_type: self.slots[i].agent_type,
                    pid: self.slots[i].pid,
                    has_input: self.slots[i].has_input,
                    relay_idx: self.slots[i].relay_idx,
                };
                proof {
                    lemma_find_update_all(self.slots@, i as int, old_slot);
                    lemma_wf_update_same_id(self.slots@, i as int, old_slot);
                }
                self.slots.set(i, old_slot);
            },
            _ => {},
        }
        let idx = pump.relay_idx;
        let mut relay = self.relays.remove(idx);
        relay.close();
        self.relays.insert(idx, relay);
        proof {
            assert(self.relays@ =~= old(self).relays@.update(
                idx as int,
                self.relays@[idx as int],
            ));
        }
    }

    /// A new receiver for a session's relay, or `NotFound` if no
    /// live process serves the id.  The receiver observes exactly
    /// the events emitted from now on.
    pub fn subscribe(&self, id: SessionId) -> (r: Result<SessionReceiver, SessionError>)
        requires
            self.wf(),
        ensures
            match r {
                Ok(receiver) => {
                    &&& self.spec_is_live(id.0)
                    &&& self.receiver_wf(receiver)
                    &&& match self.spec_slot(id.0) {
                        Some(slot) => receiver.relay_idx == slot.relay_idx
                            && receiver.cursor.cursor == self.relays@[slot.relay_idx as int].events@.len(),
                        None => false,
                    }
                },
                Err(e) => e == SessionError::NotFound && !self.spec_is_live(id.0),
            },
    {
        match self.find_index(id) {
            Some(i) if self.slots[i].live => {
                let relay_idx = self.slots[i].relay_idx;
                let cursor = self.relays[relay_idx].subscribe();
                Ok(SessionReceiver { relay_idx, cursor })
            },
            _ => Err(SessionError::NotFound),
        }
    }

    /// Encodes an input message for the session's vendor: `NotFound`
    /// without a live process, `Unsupported` when the vendor's input
    /// sink was not retained, and otherwise exactly the vendor's
    /// encoding of the given text, for the caller to write to the
    /// sink.
    pub fn send_input(&self, id: SessionId, text: String) -> (r: Result<AgentInput, SessionError>)
        requires
            self.wf(),
        ensures
            match r {
                Ok(input) => {
                    &&& self.spec_is_live(id.0)
                    &&& match self.spec_slot(id.0) {
                        Some(slot) => slot.has_input && spec_input_matches(
                            slot.agent_type,
                            text@,
                            input,
                        ),
                        None => false,
                    }
                },
                Err(e) => {
                    &&& (e == SessionError::NotFound <==> !self.spec_is_live(id.0))
                    &&& (e == SessionError::Unsupported <==> self.spec_is_live(id.0)
                        && match self.spec_slot(id.0) {
                        Some(slot) => !slot.has_input,
                        None => false,
                    })
                    &&& (e == SessionError::NotFound || e == SessionError::Unsupported)
                },
            },
    {
        match self.find_index(id) {
            Some(i) if self.slots[i].live => {
                if !self.slots[i].has_input {
                    return Err(SessionError::Unsupported);
                }
                Ok(encode_input(self.slots[i].agent_type, text))
            },
            _ => Err(SessionError::NotFound),
        }
    }

    /// Encodes a control-protocol response for the session:
    /// `NotFound` without a live process, `Unsupported` when the
    /// vendor has no interactive control protocol or no input sink,
    /// and otherwise the control-response envelope as one JSONL
    /// line.
    pub fn respond_to_control(
        &self,
        id: SessionId,
        request_id: &str,
        payload_json: &str,
    ) -> (r: Result<AgentInput, SessionError>)
        requires
            self.wf(),
        ensures
            match r {
                Ok(input) => {
                    &&& self.spec_is_live(id.0)
                    &&& match self.spec_slot(id.0) {
                        Some(slot) => slot.has_input && slot.agent_type == AgentType::Nova,
                        None => false,
                    }
                    &&& (input matches AgentInput::NovaJsonl(line) && line@
                        == crate::gateway::spec_control_envelope(request_id@, payload_json@))
                },
                Err(e) => {
                    &&& (e == SessionError::NotFound <==> !self.spec_is_live(id.0))
                    &&& (e == SessionError::Unsupported <==> self.spec_is_live(id.0)
                        && match self.spec_slot(id.0) {
                        Some(slot) => !slot.has_input || slot.agent_type != AgentType::Nova,
                        None => false,
                    })
                    &&& (e == SessionError::NotFound || e == SessionError::Unsupported)
                },
            },
    {
        match self.find_index(id) {
            Some(i) if self.slots[i].live => {
                if !self.slots[i].has_input {
                    return Err(SessionError::Unsupported);
                }
                if !self.slots[i].agent_type.supports_control_protocol() {
                    return Err(SessionError::Unsupported);
                }
                Ok(AgentInput::NovaJsonl(crate::gateway::control_envelope(request_id, payload_json)))
            },
            _ => Err(SessionError::NotFound),
        }
    }

    /// Stops a session: removes its entry immediately, without
    /// waiting for confirmed exit, and hands back the termination
    /// signal to deliver.  A second stop for the same id observes
    /// `NotFound`; no second signal is ever issued.
    pub fn stop(&mut self, id: SessionId) -> (r: Result<StopAction, SessionError>)
        requires
            old(self).wf(),
        ensures
            final(self).wf(),
            final(self).relays@ == old(self).relays@,
            match r {
                Ok(action) => {
                    &&& old(self).spec_is_live(id.0)
                    &&& match old(self).spec_slot(id.0) {
                        Some(slot) => action.pid == slot.pid,
                        None => false,
                    }
                    &&& !final(self).spec_is_live(id.0)
                    &&& (forall|id2: u128|
                        id2 != id.0 ==> final(self).spec_slot(id2) == old(self).spec_slot(id2))
                },
                Err(e) => {
                    &&& e == SessionError::NotFound
                    &&& !old(self).spec_is_live(id.0)
                    &&& final(self).slots@ == old(self).slots@
                },
            },
    {
        match self.find_index(id) {
            Some(i) => {
                if self.slots[i].live {
                    let pid = self.slots[i].pid;
                    let dead = SessionSlot {
                        id,
                        live: false,
                        agent_type: self.slots[i].agent_type,
                        pid,
                        has_input: self.slots[i].has_input,
                        relay_idx: self.slots[i].relay_idx,
                    };
                    proof {
                        lemma_find_update_all(self.slots@, i as int, dead);
                        lemma_wf_update_same_id(self.slots@, i as int, dead);
                    }
                    self.slots.set(i, dead);
                    Ok(StopAction { pid })
                } else {
                    Err(SessionError::NotFound)
                }
            },
            None => Err(SessionError::NotFound),
        }
    }

    /// The vendor serving a session, if a live process exists.
    pub fn get_agent_type(&self, id: SessionId) -> (r: Option<AgentType>)
        requires
            self.wf(),
        ensures
            match r {
                Some(t) => self.spec_is_live(id.0) && match self.spec_slot(id.0) {
                    Some(slot) => t == slot.agent_type,
                    None => false,
                },
                None => !self.spec_is_live(id.0),
            },
    {
        match self.find_index(id) {
            Some(i) if self.slots[i].live => Some(self.slots[i].agent_type),
            _ => None,
        }
    }

    /// Polls a receiver: the next event in order, a wait, or the
    /// definitive end of the stream.
    pub fn poll(&self, r: &mut SessionReceiver) -> (outcome: RecvOutcome)
        requires
            self.wf(),
            self.receiver_wf(*old(r)),
        ensures
            self.receiver_wf(*final(r)),
            final(r).relay_idx == old(r).relay_idx,
            outcome == crate::broadcast::spec_poll_outcome(
                self.relays@[old(r).relay_idx as int],
                old(r).cursor,
            ),
            final(r).cursor == crate::broadcast::spec_poll_cursor(
                self.relays@[old(r).relay_idx as int],
                old(r).cursor,
            ),
    {
        let idx = r.relay_idx;
        self.relays[idx].poll(&mut r.cursor)
    }

    /// Whether the vendor-assigned session id still needs to be
    /// persisted against the session record: skipped exactly when
    /// the stored value is already equal, so repeated init events
    /// write at most once.
    pub fn should_persist_vendor_id(stored: Option<&String>, incoming: &String) -> (r: bool)
        ensures
            r == match stored {
                Some(s) => s@ != incoming@,
                None => true,
            },
    {
        match stored {
            Some(s) => !crate::strutil::str_eq(s.as_str(), incoming.as_str()),
            None => true,
        }
    }
}

/// When a session is stopped from any one connection, its entry is
/// gone at once — so `send_input` from every connection observes
/// `NotFound` (its contract refuses an id with no live process) —
/// and once the pump observes the stream end and closes the relay,
/// every subscriber's receiver, whichever connection holds it,
/// drains the remaining log and then observes the end of the
/// stream.
pub proof fn lemma_stopped_session_subscribers_end(
    reg: SessionRegistry,
    k: int,
    r1: SessionReceiver,
    r2: SessionReceiver,
)
    requires
        0 <= k < reg.relays@.len(),
        reg.relays@[k].closed,
        r1.relay_idx == k,
        r2.relay_idx == k,
        r1.cursor.cursor >= reg.relays@[k].events@.len(),
        r2.cursor.cursor >= reg.relays@[k].events@.len(),
    ensures
        crate::broadcast::spec_poll_outcome(reg.relays@[k], r1.cursor) == RecvOutcome::Closed,
        crate::broadcast::spec_poll_outcome(reg.relays@[k], r2.cursor) == RecvOutcome::Closed,
{
}

/// When `spec_find_slot` finds nothing, no slot bears the id.
proof fn lemma_find_none(s: Seq<SessionSlot>, id: u128)
    requires
        spec_find_slot(s, id) is None,
    ensures
        forall|i: int| 0 <= i < s.len() ==> (#[trigger] s[i]).id.0 != id,
    decreases s.len(),
{
    if s.len() > 0 {
        lemma_find_none(s.drop_first(), id);
        assert forall|i: int| 0 <= i < s.len() implies (#[trigger] s[i]).id.0 != id by {
            if i > 0 {
                assert(s.drop_first()[i - 1] == s[i]);
            }
        }
    }
}

/// Updating a slot without changing its id keeps ids unique.
proof fn lemma_wf_update_same_id(s: Seq<SessionSlot>, i: int, x: SessionSlot)
    requires
        0 <= i < s.len(),
        s[i].id.0 == x.id.0,
        forall|a: int, b: int|
            0 <= a < b < s.len() ==> (#[trigger] s[a]).id.0 != (#[trigger] s[b]).id.0,
    ensures
        forall|a: int, b: int|
            0 <= a < b < s.len() ==> (#[trigger] s.update(i, x)[a]).id.0 != (
            #[trigger] s.update(i, x)[b]).id.0,
{
    assert forall|a: int, b: int|
        0 <= a < b < s.len() implies (#[trigger] s.update(i, x)[a]).id.0 != (
    #[trigger] s.update(i, x)[b]).id.0 by {
        assert(s.update(i, x)[a].id.0 == s[a].id.0);
        assert(s.update(i, x)[b].id.0 == s[b].id.0);
    }
}

proof fn lemma_find_push(s: Seq<SessionSlot>, x: SessionSlot, id: u128)
    requires
        spec_find_slot(s, x.id.0) is None,
    ensures
        spec_find_slot(s.push(x), id) == if id == x.id.0 {
            Some(x)
        } else {
            spec_find_slot(s, id)
        },
    decreases s.len(),
{
    if s.len() == 0 {
        assert(s.push(x)[0] == x);
        assert(s.push(x).drop_first() =~= Seq::<SessionSlot>::empty());
    } else {
        assert(s.push(x)[0] == s[0]);
        assert(s.push(x).drop_first() =~= s.drop_first().push(x));
        lemma_find_push(s.drop_first(), x, id);
    }
}

/// `lemma_find_push`, quantified over every looked-up id.
proof fn lemma_find_push_all(s: Seq<SessionSlot>, x: SessionSlot)
    requires
        spec_find_slot(s, x.id.0) is None,
    ensures
        forall|q: u128|
            #![auto]
            spec_find_slot(s.push(x), q) == (if q == x.id.0 {
                Some(x)
            } else {
                spec_find_slot(s, q)
            }),
{
    assert forall|q: u128|
        #![auto]
        spec_find_slot(s.push(x), q) == (if q == x.id.0 {
            Some(x)
        } else {
            spec_find_slot(s, q)
        }) by {
        lemma_find_push(s, x, q);
    }
}

/// `lemma_find_update`, quantified over every looked-up id.
proof fn lemma_find_update_all(s: Seq<SessionSlot>, i: int, x: SessionSlot)
    requires
        0 <= i < s.len(),
        s[i].id.0 == x.id.0,
        forall|j: int| 0 <= j < i ==> (#[trigger] s[j]).id.0 != x.id.0,
    ensures
        forall|q: u128|
            #![auto]
            spec_find_slot(s.update(i, x), q) == (if q == x.id.0 {
                Some(x)
            } else {
                spec_find_slot(s, q)
            }),
{
    assert forall|q: u128|
        #![auto]
        spec_find_slot(s.update(i, x), q) == (if q == x.id.0 {
            Some(x)
        } else {
            spec_find_slot(s, q)
        }) by {
        lemma_find_update(s, i, x, q);
    }
}

proof fn lemma_find_update(s: Seq<SessionSlot>, i: int, x: SessionSlot, id: u128)
    requires
        0 <= i < s.len(),
        s[i].id.0 == x.id.0,
        forall|j: int| 0 <= j < i ==> (#[trigger] s[j]).id.0 != x.id.0,
    ensures
        spec_find_slot(s.update(i, x), id) == if id == x.id.0 {
            Some(x)
        } else {
            spec_find_slot(s, id)
        },
    decreases s.len(),
{
    if i == 0 {
        assert(s.update(i, x)[0] == x);
        assert(s.update(i, x).drop_first() =~= s.drop_first());
        if id != x.id.0 {
            assert(s[0].id.0 == x.id.0);
        }
    } else {
        assert(s.update(i, x)[0] == s[0]);
        assert(s.update(i, x).drop_first() =~= s.drop_first().update(i - 1, x));
        assert(forall|j: int| 0 <= j < i - 1 ==> (#[trigger] s.drop_first()[j]).id.0 != x.id.0);
        lemma_find_update(s.drop_first(), i - 1, x, id);
    }
}

} // verus!
