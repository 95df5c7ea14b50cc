use webrcon::session::{
    Action, LineEvent, NetEvent, SessionState, on_line_event, on_net_event,
};

#[test]
fn close_signal_closes_the_session() {
    let (state, action) = on_net_event(NetEvent::CloseSignal);
    assert_eq!(state, SessionState::Closed);
    match action {
        Action::Print(m) => assert_eq!(m, "Connection closed with a Close message."),
        _ => panic!("expected a printed notice"),
    }
}

#[test]
fn stream_end_closes_the_session() {
    let (state, action) = on_net_event(NetEvent::StreamEnd);
    assert_eq!(state, SessionState::Closed);
    match action {
        Action::Print(m) => assert_eq!(m, "WebSocket stream ended"),
        _ => panic!("expected a printed notice"),
    }
}

#[test]
fn unrecognized_frame_variant_closes_the_session() {
    let (state, action) = on_net_event(NetEvent::Unrecognized);
    assert_eq!(state, SessionState::Closed);
    match action {
        Action::Print(m) => assert_eq!(m, "Catchall case for WebSocket"),
        _ => panic!("expected a printed notice"),
    }
}

#[test]
fn text_frame_with_payload_is_printed_and_session_stays_active() {
    let frame = "{\"Identifier\": 1, \"Message\": \"hello\", \"Name\": \"x\"}".to_string();
    let (state, action) = on_net_event(NetEvent::Text(frame));
    assert_eq!(state, SessionState::Active);
    match action {
        Action::Print(m) => assert_eq!(m, "hello"),
        _ => panic!("expected printed display text"),
    }
}

#[test]
fn malformed_frame_is_nonfatal() {
    let (state, action) = on_net_event(NetEvent::Text("not json".to_string()));
    assert_eq!(state, SessionState::Active);
    match action {
        Action::PrintError(m) => assert!(m.starts_with("Failed to parse JSON: ")),
        _ => panic!("expected an error-stream diagnostic"),
    }
}

#[test]
fn bare_number_frame_closes_the_session() {
    let (state, action) = on_net_event(NetEvent::Text("42".to_string()));
    assert_eq!(state, SessionState::Closed);
    match action {
        Action::PrintError(m) => assert!(m.starts_with("Unhandled JSON from_str type: ")),
        _ => panic!("expected an error-stream diagnostic"),
    }
}

#[test]
fn bare_string_frame_closes_the_session() {
    let (state, _) = on_net_event(NetEvent::Text("\"42\"".to_string()));
    assert_eq!(state, SessionState::Closed);
}

#[test]
fn missing_payload_is_nonfatal() {
    let frame = "{\"Identifier\": 1, \"Name\": \"x\"}".to_string();
    let (state, action) = on_net_event(NetEvent::Text(frame));
    assert_eq!(state, SessionState::Active);
    match action {
        Action::Print(m) => {
            assert_eq!(m, "JSON message does not have a 'Message' field or it is not a String")
        }
        _ => panic!("expected a printed diagnostic"),
    }
}

#[test]
fn operator_line_is_encoded_and_sent() {
    let (state, action) = on_line_event(LineEvent::Line("status".to_string()));
    assert_eq!(state, SessionState::Active);
    match action {
        Action::Send(m) => {
            assert_eq!(m, "{\"Identifier\": 1, \"Message\": \"status\", \"Name\": \"WebRcon\" }")
        }
        _ => panic!("expected a send action"),
    }
}

#[test]
fn console_end_of_input_closes_without_a_network_event() {
    let (state, action) = on_line_event(LineEvent::SourceClosed);
    assert_eq!(state, SessionState::Closed);
    assert!(matches!(action, Action::Nothing));
}
