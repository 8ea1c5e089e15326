use textworld::dispatch::{
    encode_response, format_response, frame_response, step, Action, ConnectionState, Event,
    IncomingMessage, ResponseMessage,
};

fn envelope(path: &str, data: &str) -> Event {
    Event::Envelope(IncomingMessage { path: path.to_string(), data: data.to_string() })
}

fn parse(text: &str) -> Event {
    let value: Result<serde_json::Value, serde_json::Error> = serde_json::from_str(text);
    let fields = match &value {
        Ok(v) => match (v.get("path"), v.get("data")) {
            (Some(p), Some(d)) => match (p.as_str(), d.as_str()) {
                (Some(p), Some(d)) => Some((p.to_string(), d.to_string())),
                _ => None,
            },
            _ => None,
        },
        Err(_) => None,
    };
    match fields {
        Some((path, data)) => Event::Envelope(IncomingMessage { path, data }),
        None => Event::Malformed,
    }
}

fn reply_text(action: Action) -> String {
    match action {
        Action::Reply(m) => m.message,
        _ => panic!("no reply"),
    }
}

#[test]
fn look_north_is_answered() {
    let t = step(ConnectionState::Reading, parse("{\"path\":\"/look\",\"data\":\"north\"}"));
    assert_eq!(t.next, ConnectionState::Processing);
    let response = match t.action {
        Action::Reply(m) => m,
        _ => panic!("no reply"),
    };
    assert_eq!(response.message, "Processed path: '/look', data: 'north'");
    assert_eq!(
        encode_response(&response),
        Some("{\"message\":\"Processed path: '/look', data: 'north'\"}".to_string())
    );
}

#[test]
fn format_response_exact() {
    assert_eq!(format_response("/look", "north"), "Processed path: '/look', data: 'north'");
    assert_eq!(format_response("", ""), "Processed path: '', data: ''");
}

#[test]
fn frame_response_exact() {
    assert_eq!(frame_response("\"x\""), "{\"message\":\"x\"}");
}

#[test]
fn encode_response_escapes_the_message() {
    let response = ResponseMessage { message: "say \"hi\"\n\\".to_string() };
    let text = encode_response(&response).unwrap();
    assert_eq!(text, "{\"message\":\"say \\\"hi\\\"\\n\\\\\"}");
    let back: serde_json::Value = serde_json::from_str(&text).unwrap();
    assert_eq!(back.get("message").unwrap().as_str().unwrap(), "say \"hi\"\n\\");
}

#[test]
fn malformed_envelope_keeps_the_connection() {
    let mut state = step(ConnectionState::Accepted, Event::Opened).next;
    assert_eq!(state, ConnectionState::Reading);
    let t = step(state, parse("{\"path\": 1}"));
    assert!(matches!(t.action, Action::Diagnose));
    assert_eq!(t.next, ConnectionState::Processing);
    state = step(t.next, Event::Completed).next;
    assert_eq!(state, ConnectionState::Reading);
    let t = step(state, parse("{\"path\":\"/go\",\"data\":\"west\"}"));
    assert_eq!(t.next, ConnectionState::Processing);
    assert_eq!(reply_text(t.action), "Processed path: '/go', data: 'west'");
    state = step(ConnectionState::Processing, Event::Completed).next;
    assert_eq!(state, ConnectionState::Reading);
}

#[test]
fn text_that_is_not_json_is_diagnosed() {
    let t = step(ConnectionState::Reading, parse("not json"));
    assert!(matches!(t.action, Action::Diagnose));
    assert_eq!(t.next, ConnectionState::Processing);
}

#[test]
fn other_frames_are_ignored() {
    let t = step(ConnectionState::Reading, Event::OtherFrame);
    assert_eq!(t.next, ConnectionState::Reading);
    assert!(matches!(t.action, Action::Nothing));
}

#[test]
fn transport_error_closes() {
    for state in [ConnectionState::Accepted, ConnectionState::Reading, ConnectionState::Processing] {
        let t = step(state, Event::TransportError);
        assert_eq!(t.next, ConnectionState::Closing);
        assert!(matches!(t.action, Action::Release));
        let t = step(state, Event::PeerClosed);
        assert_eq!(t.next, ConnectionState::Closing);
        assert!(matches!(t.action, Action::Release));
    }
    let t = step(ConnectionState::Closing, Event::Released);
    assert_eq!(t.next, ConnectionState::Closed);
    assert!(matches!(t.action, Action::Nothing));
}

#[test]
fn closed_stays_closed() {
    let events = [
        Event::Opened,
        envelope("/a", "b"),
        Event::Malformed,
        Event::OtherFrame,
        Event::Completed,
        Event::TransportError,
        Event::PeerClosed,
        Event::Released,
    ];
    for event in events {
        let t = step(ConnectionState::Closed, event);
        assert_eq!(t.next, ConnectionState::Closed);
        assert!(matches!(t.action, Action::Nothing));
    }
}

#[test]
fn envelope_outside_reading_is_ignored() {
    let t = step(ConnectionState::Accepted, envelope("/a", "b"));
    assert_eq!(t.next, ConnectionState::Accepted);
    assert!(matches!(t.action, Action::Nothing));
    let t = step(ConnectionState::Processing, envelope("/a", "b"));
    assert_eq!(t.next, ConnectionState::Processing);
    assert!(matches!(t.action, Action::Nothing));
    let t = step(ConnectionState::Closing, envelope("/a", "b"));
    assert_eq!(t.next, ConnectionState::Closing);
    assert!(matches!(t.action, Action::Nothing));
}

#[test]
fn text_event_tells_envelope_from_malformed() {
    let m = IncomingMessage { path: "/p".to_string(), data: "d".to_string() };
    match textworld::dispatch::text_event(Some(m)) {
        Event::Envelope(m) => {
            assert_eq!(m.path, "/p");
            assert_eq!(m.data, "d");
        }
        _ => panic!("no envelope"),
    }
    assert!(matches!(textworld::dispatch::text_event(None), Event::Malformed));
}

#[test]
fn many_malformed_texts_keep_the_connection() {
    let mut state = ConnectionState::Reading;
    for _ in 0..25 {
        let t = step(state, Event::Malformed);
        assert!(matches!(t.action, Action::Diagnose));
        state = step(t.next, Event::Completed).next;
        assert_eq!(state, ConnectionState::Reading);
        state = step(state, Event::OtherFrame).next;
        assert_eq!(state, ConnectionState::Reading);
    }
    let t = step(state, envelope("/look", "north"));
    assert_eq!(reply_text(t.action), "Processed path: '/look', data: 'north'");
}
