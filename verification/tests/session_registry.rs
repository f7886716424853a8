//! The session registry and its broadcast fan-out.

use conduit_core::agent::{AgentEvent, AgentInput, AgentType, AssistantMessageEvent};
use conduit_core::broadcast::RecvOutcome;
use conduit_core::errors::SessionError;
use conduit_core::registry::{SessionId, SessionRegistry, StartOutcome};

fn message(text: &str) -> AgentEvent {
    AgentEvent::AssistantMessage(AssistantMessageEvent { text: text.to_string(), is_final: false })
}

fn started() -> StartOutcome {
    StartOutcome::Started { pid: 4242, has_input: true }
}

#[test]
fn test_subscribers_receive_same_events_in_order() {
    // Three independent subscribers each receive the same four
    // emitted events in the same order.
    let mut reg = SessionRegistry::new();
    let id = SessionId(7);
    let (pump, mut r1) = reg
        .start_session(id, AgentType::Nova, started())
        .expect("start");
    let mut r2 = reg.subscribe(id).expect("subscribe");
    let mut r3 = reg.subscribe(id).expect("subscribe");

    let events = ["alpha", "beta", "gamma", "delta"];
    for text in events.iter() {
        reg.pump_event(pump, message(text));
    }

    for receiver in [&mut r1, &mut r2, &mut r3] {
        for text in events.iter() {
            match reg.poll(receiver) {
                RecvOutcome::Event(AgentEvent::AssistantMessage(m)) => {
                    assert_eq!(m.text, *text);
                },
                other => panic!("expected an event, got {:?}", other),
            }
        }
        assert_eq!(reg.poll(receiver), RecvOutcome::Pending);
    }
}

#[test]
fn test_late_subscriber_sees_only_later_events() {
    let mut reg = SessionRegistry::new();
    let id = SessionId(9);
    let (pump, _r) = reg
        .start_session(id, AgentType::Codex, started())
        .expect("start");
    reg.pump_event(pump, message("early"));
    let mut late = reg.subscribe(id).expect("subscribe");
    reg.pump_event(pump, message("late"));
    match reg.poll(&mut late) {
        RecvOutcome::Event(AgentEvent::AssistantMessage(m)) => assert_eq!(m.text, "late"),
        other => panic!("expected the later event, got {:?}", other),
    }
}

#[test]
fn test_start_session_already_running() {
    // A second start for an id with a live process is refused, for
    // every vendor.
    let mut reg = SessionRegistry::new();
    let id = SessionId(1);
    reg.start_session(id, AgentType::Nova, started()).expect("start");
    for vendor in [AgentType::Nova, AgentType::Codex, AgentType::Gemini, AgentType::Opencode] {
        let second = reg.start_session(id, vendor, started());
        assert_eq!(second.unwrap_err(), SessionError::AlreadyRunning);
    }
}

#[test]
fn test_start_errors_leave_no_entry() {
    let mut reg = SessionRegistry::new();
    let id = SessionId(2);
    let unavailable = reg.start_session(id, AgentType::Gemini, StartOutcome::NotInstalled);
    assert_eq!(unavailable.unwrap_err(), SessionError::Unavailable);
    let failed = reg.start_session(id, AgentType::Gemini, StartOutcome::Failed);
    assert_eq!(failed.unwrap_err(), SessionError::SpawnFailure);
    // No partial entry: the id can still not be subscribed.
    assert_eq!(reg.subscribe(id).unwrap_err(), SessionError::NotFound);
    // And a successful start is still possible.
    assert!(reg.start_session(id, AgentType::Gemini, started()).is_ok());
}

#[test]
fn test_stream_end_removes_session() {
    // After the event source ends, the session is gone:
    // subscribe, send_input and stop all observe NotFound.
    let mut reg = SessionRegistry::new();
    let id = SessionId(3);
    let (pump, mut r) = reg
        .start_session(id, AgentType::Nova, started())
        .expect("start");
    reg.pump_event(pump, message("only"));
    reg.stream_ended(pump);

    assert_eq!(reg.subscribe(id).unwrap_err(), SessionError::NotFound);
    assert_eq!(
        reg.send_input(id, "hello".to_string()).unwrap_err(),
        SessionError::NotFound
    );
    assert_eq!(reg.stop(id).unwrap_err(), SessionError::NotFound);

    // The subscriber still drains the buffered event, then sees the
    // end of the stream.
    match reg.poll(&mut r) {
        RecvOutcome::Event(_) => {},
        other => panic!("expected the buffered event, got {:?}", other),
    }
    assert_eq!(reg.poll(&mut r), RecvOutcome::Closed);
}

#[test]
fn test_stop_twice_is_idempotent() {
    // The first stop hands back one termination signal; the second
    // observes NotFound and produces no second signal.
    let mut reg = SessionRegistry::new();
    let id = SessionId(4);
    reg.start_session(id, AgentType::Codex, started()).expect("start");
    let action = reg.stop(id).expect("first stop");
    assert_eq!(action.pid, 4242);
    assert_eq!(reg.stop(id).unwrap_err(), SessionError::NotFound);
}

#[test]
fn test_restart_after_stop_uses_fresh_stream() {
    let mut reg = SessionRegistry::new();
    let id = SessionId(5);
    let (pump1, _r1) = reg
        .start_session(id, AgentType::Nova, started())
        .expect("start");
    reg.pump_event(pump1, message("old"));
    reg.stop(id).expect("stop");

    let (pump2, mut r2) = reg
        .start_session(id, AgentType::Nova, started())
        .expect("restart");
    assert_ne!(pump1.relay_idx, pump2.relay_idx);
    reg.pump_event(pump2, message("new"));
    match reg.poll(&mut r2) {
        RecvOutcome::Event(AgentEvent::AssistantMessage(m)) => assert_eq!(m.text, "new"),
        other => panic!("expected only the new stream's event, got {:?}", other),
    }
}

#[test]
fn test_send_input_encodings_per_vendor() {
    let mut reg = SessionRegistry::new();
    let nova = SessionId(10);
    let codex = SessionId(11);
    reg.start_session(nova, AgentType::Nova, started()).expect("start");
    reg.start_session(codex, AgentType::Codex, started()).expect("start");

    match reg.send_input(nova, "hi".to_string()).expect("nova input") {
        AgentInput::NovaJsonl(line) => assert_eq!(line, "hi"),
        other => panic!("expected a JSONL input, got {:?}", other),
    }
    match reg.send_input(codex, "hi".to_string()).expect("codex input") {
        AgentInput::CodexPrompt { text, images } => {
            assert_eq!(text, "hi");
            assert!(images.is_empty());
        },
        other => panic!("expected a prompt input, got {:?}", other),
    }
}

#[test]
fn test_send_input_without_sink_is_unsupported() {
    let mut reg = SessionRegistry::new();
    let id = SessionId(12);
    reg.start_session(id, AgentType::Nova, StartOutcome::Started { pid: 1, has_input: false })
        .expect("start");
    assert_eq!(
        reg.send_input(id, "x".to_string()).unwrap_err(),
        SessionError::Unsupported
    );
}

#[test]
fn test_respond_to_control_envelope_and_gating() {
    let mut reg = SessionRegistry::new();
    let nova = SessionId(13);
    let codex = SessionId(14);
    reg.start_session(nova, AgentType::Nova, started()).expect("start");
    reg.start_session(codex, AgentType::Codex, started()).expect("start");

    match reg.respond_to_control(nova, "req-1", "{\"ok\":true}").expect("control") {
        AgentInput::NovaJsonl(line) => {
            assert_eq!(
                line,
                "{\"type\":\"control_response\",\"response\":{\"subtype\":\"success\",\"request_id\":\"req-1\",\"response\":{\"ok\":true}}}\n"
            );
        },
        other => panic!("expected a JSONL envelope, got {:?}", other),
    }
    assert_eq!(
        reg.respond_to_control(codex, "req-2", "null").unwrap_err(),
        SessionError::Unsupported
    );
    assert_eq!(
        reg.respond_to_control(SessionId(99), "req-3", "null").unwrap_err(),
        SessionError::NotFound
    );
}

#[test]
fn test_control_envelope_escapes_request_id() {
    let mut reg = SessionRegistry::new();
    let id = SessionId(15);
    reg.start_session(id, AgentType::Nova, started()).expect("start");
    match reg.respond_to_control(id, "a\"b\\c\nd", "1").expect("control") {
        AgentInput::NovaJsonl(line) => {
            assert!(line.contains("a\\\"b\\\\c\\nd"));
        },
        other => panic!("expected a JSONL envelope, got {:?}", other),
    }
}

#[test]
fn test_should_persist_vendor_id_is_idempotent() {
    let stored = "vendor-123".to_string();
    assert!(!SessionRegistry::should_persist_vendor_id(
        Some(&stored),
        &"vendor-123".to_string()
    ));
    assert!(SessionRegistry::should_persist_vendor_id(
        Some(&stored),
        &"vendor-456".to_string()
    ));
    assert!(SessionRegistry::should_persist_vendor_id(None, &"vendor-123".to_string()));
}

#[test]
fn test_get_agent_type() {
    let mut reg = SessionRegistry::new();
    let id = SessionId(16);
    reg.start_session(id, AgentType::Gemini, started()).expect("start");
    assert_eq!(reg.get_agent_type(id), Some(AgentType::Gemini));
    reg.stop(id).expect("stop");
    assert_eq!(reg.get_agent_type(id), None);
}
