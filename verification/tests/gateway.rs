//! The per-connection gateway: subscriptions, message handling,
//! and the effect of a stop on every connection.

use conduit_core::agent::{AgentEvent, AgentType, AssistantMessageEvent};
use conduit_core::gateway::{
    handle_ping, handle_send_input, handle_start_session, handle_stop_session, handle_subscribe,
    handle_unsubscribe, forward_step, malformed_frame_error, ConnectionState, ForwardStep,
    ServerMessage,
};
use conduit_core::registry::{SessionId, SessionRegistry, StartOutcome};

fn message(text: &str) -> AgentEvent {
    AgentEvent::AssistantMessage(AssistantMessageEvent { text: text.to_string(), is_final: true })
}

fn started() -> StartOutcome {
    StartOutcome::Started { pid: 1, has_input: true }
}

#[test]
fn test_ping_pong() {
    assert_eq!(handle_ping(), ServerMessage::Pong);
}

#[test]
fn test_subscribe_unknown_session_answers_error_frame() {
    let mut conn = ConnectionState::new();
    let reg = SessionRegistry::new();
    let (frame, cancel) = handle_subscribe(&mut conn, &reg, SessionId(1));
    match frame {
        ServerMessage::Error { session_id, .. } => assert_eq!(session_id, Some(SessionId(1))),
        other => panic!("expected an error frame, got {:?}", other),
    }
    assert!(cancel.is_none());
    assert_eq!(conn.subscriptions.len(), 0);
}

#[test]
fn test_subscribe_twice_replaces_forwarding_task() {
    // At most one forwarding task per (connection, session): the
    // second subscribe hands the first receiver back for
    // cancellation instead of double-delivering.
    let mut conn = ConnectionState::new();
    let mut reg = SessionRegistry::new();
    let id = SessionId(2);
    reg.start_session(id, AgentType::Nova, started()).expect("start");

    let (first, cancel1) = handle_subscribe(&mut conn, &reg, id);
    assert_eq!(first, ServerMessage::Subscribed { session_id: id });
    assert!(cancel1.is_none());

    let (second, cancel2) = handle_subscribe(&mut conn, &reg, id);
    assert_eq!(second, ServerMessage::Subscribed { session_id: id });
    assert!(cancel2.is_some());
    assert_eq!(conn.subscriptions.len(), 1);
}

#[test]
fn test_unsubscribe_always_acknowledges() {
    let mut conn = ConnectionState::new();
    let (frame, cancelled) = handle_unsubscribe(&mut conn, SessionId(3));
    assert_eq!(frame, ServerMessage::Unsubscribed { session_id: SessionId(3) });
    assert!(cancelled.is_none());
}

#[test]
fn test_start_session_auto_subscribes() {
    let mut conn = ConnectionState::new();
    let mut reg = SessionRegistry::new();
    let id = SessionId(4);
    let (frame, startup) =
        handle_start_session(&mut conn, &mut reg, id, AgentType::Codex, started());
    match frame {
        ServerMessage::SessionStarted { session_id, agent_type, agent_session_id } => {
            assert_eq!(session_id, id);
            assert_eq!(agent_type, "codex");
            assert!(agent_session_id.is_none());
        },
        other => panic!("expected session_started, got {:?}", other),
    }
    let startup = startup.expect("startup effects");
    assert!(startup.cancel.is_none());
    assert_eq!(conn.subscriptions.len(), 1);

    // A duplicate start answers an error frame and changes nothing.
    let (dup, none) = handle_start_session(&mut conn, &mut reg, id, AgentType::Codex, started());
    match dup {
        ServerMessage::Error { message, session_id } => {
            assert_eq!(session_id, Some(id));
            assert_eq!(message, "session is already running");
        },
        other => panic!("expected an error frame, got {:?}", other),
    }
    assert!(none.is_none());
}

#[test]
fn test_stop_from_one_connection_ends_all_subscribers() {
    // Two connections subscribe to the same session; a stop from
    // one gives both forwarding tasks the end of the stream once
    // the pump observes it, and any further input observes
    // NotFound from either connection.
    let mut conn_a = ConnectionState::new();
    let mut conn_b = ConnectionState::new();
    let mut reg = SessionRegistry::new();
    let id = SessionId(5);
    let (frame_a, startup) =
        handle_start_session(&mut conn_a, &mut reg, id, AgentType::Nova, started());
    assert!(matches!(frame_a, ServerMessage::SessionStarted { .. }));
    let startup = startup.expect("startup");
    let pump = startup.pump;
    let mut recv_a = startup.receiver;

    let (frame_b, _) = handle_subscribe(&mut conn_b, &reg, id);
    assert_eq!(frame_b, ServerMessage::Subscribed { session_id: id });
    let mut recv_b = conn_b.subscriptions[0].receiver;

    reg.pump_event(pump, message("one"));

    // Connection A stops the session.
    let (ended, action, _cancelled) = handle_stop_session(&mut conn_a, &mut reg, id);
    match ended {
        ServerMessage::SessionEnded { session_id, reason, error } => {
            assert_eq!(session_id, id);
            assert_eq!(reason, "stopped");
            assert!(error.is_none());
        },
        other => panic!("expected session_ended, got {:?}", other),
    }
    assert!(action.is_some());

    // The killed process's stream ends; the pump closes the relay.
    reg.stream_ended(pump);

    // Both forwarding tasks drain the buffered event, then observe
    // the end of the stream.
    for (recv, session) in [(&mut recv_a, id), (&mut recv_b, id)] {
        match forward_step(&reg, session, recv) {
            ForwardStep::Deliver(ServerMessage::AgentEvent { session_id, .. }) => {
                assert_eq!(session_id, id);
            },
            other => panic!("expected a delivery, got {:?}", other),
        }
        assert_eq!(forward_step(&reg, session, recv), ForwardStep::End);
    }

    // Input from either connection now observes NotFound.
    for _ in 0..2 {
        match handle_send_input(&reg, id, "more".to_string()) {
            Err(ServerMessage::Error { message, session_id }) => {
                assert_eq!(session_id, Some(id));
                assert_eq!(message, "session not found");
            },
            other => panic!("expected an error frame, got {:?}", other),
        }
    }
}

#[test]
fn test_connection_close_clears_subscriptions() {
    let mut conn = ConnectionState::new();
    let mut reg = SessionRegistry::new();
    let id = SessionId(6);
    reg.start_session(id, AgentType::Nova, started()).expect("start");
    handle_subscribe(&mut conn, &reg, id);
    assert_eq!(conn.subscriptions.len(), 1);
    conn.clear();
    assert_eq!(conn.subscriptions.len(), 0);
    // The session itself is unaffected.
    assert!(reg.subscribe(id).is_ok());
}

#[test]
fn test_malformed_frame_becomes_error() {
    let frame = malformed_frame_error("bad json".to_string());
    match frame {
        ServerMessage::Error { message, session_id } => {
            assert_eq!(message, "Invalid message: bad json");
            assert!(session_id.is_none());
        },
        other => panic!("expected an error frame, got {:?}", other),
    }
}
