use voice_sync::protocol::{route_frame, Reaction, WireMessage};
use voice_sync::session::{Event, Session, SessionPhase};

fn message(kind: &str, content: Option<&str>, device: Option<&str>) -> WireMessage {
    WireMessage {
        msg_type: kind.to_string(),
        content: content.map(|s| s.to_string()),
        device: device.map(|s| s.to_string()),
    }
}

fn open_session() -> Session {
    let mut s = Session::new();
    assert!(matches!(s.handle(Event::Handshake(true)), Reaction::Ignore));
    assert_eq!(s.phase, SessionPhase::Open);
    s
}

fn delivered(r: Reaction) -> Option<String> {
    match r {
        Reaction::Deliver(t) => Some(t),
        _ => None,
    }
}

#[test]
fn structured_text_frame_is_delivered() {
    let frame = r#"{"type":"text","content":"hello"}"#;
    let mut s = open_session();
    let r = s.handle(Event::Text(frame.to_string(), Some(message("text", Some("hello"), None))));
    assert_eq!(delivered(r), Some("hello".to_string()));
}

#[test]
fn unstructured_frame_is_delivered_as_text() {
    let frame = "plain unstructured ping";
    assert!(serde_json::from_str::<serde_json::Value>(frame).is_err());
    let mut s = open_session();
    let r = s.handle(Event::Text(frame.to_string(), None));
    assert_eq!(delivered(r), Some("plain unstructured ping".to_string()));
}

#[test]
fn register_frame_is_only_logged() {
    let frame = r#"{"type":"register","device":"phone1"}"#;
    let mut s = open_session();
    let r = s.handle(Event::Text(frame.to_string(), Some(message("register", None, Some("phone1")))));
    match r {
        Reaction::Register(d) => assert_eq!(d, "phone1"),
        _ => panic!("a register message must only be logged"),
    }
    assert_eq!(s.phase, SessionPhase::Open);
}

#[test]
fn register_with_content_is_not_delivered() {
    let r = route_frame("{}", Some(message("register", Some("typed?"), None)));
    match r {
        Reaction::Register(d) => assert_eq!(d, ""),
        _ => panic!("a register message must only be logged"),
    }
}

#[test]
fn unstructured_frame_routes_like_text_message() {
    let raw = "  some words\t";
    let a = delivered(route_frame(raw, None));
    let b = delivered(route_frame("{}", Some(message("text", Some(raw), Some("d")))));
    assert_eq!(a, Some("some words".to_string()));
    assert_eq!(a, b);
}

#[test]
fn blank_text_is_never_delivered() {
    assert!(matches!(route_frame("", None), Reaction::Ignore));
    assert!(matches!(route_frame(" \t\r\n", None), Reaction::Ignore));
    assert!(matches!(route_frame("x", Some(message("text", Some("   "), None))), Reaction::Ignore));
    assert!(matches!(route_frame("x", Some(message("text", Some(""), None))), Reaction::Ignore));
    assert!(matches!(route_frame("\u{3000}\u{85}\u{a0}", None), Reaction::Ignore));
}

#[test]
fn text_is_trimmed_before_delivery() {
    assert_eq!(delivered(route_frame("\n  hi there \r\n", None)), Some("hi there".to_string()));
    assert_eq!(delivered(route_frame("\u{2003}x y\u{2029}", None)), Some("x y".to_string()));
}

#[test]
fn text_message_without_content_is_ignored() {
    assert!(matches!(route_frame("x", Some(message("text", None, None))), Reaction::Ignore));
}

#[test]
fn unknown_message_type_is_delivered_as_raw_text() {
    let frame = r#" {"type":"ping"} "#;
    let r = route_frame(frame, Some(message("ping", None, None)));
    assert_eq!(delivered(r), Some(r#"{"type":"ping"}"#.to_string()));
    let mut s = open_session();
    let r = s.handle(Event::Text(frame.to_string(), Some(message("ping", Some("hello"), None))));
    assert_eq!(delivered(r), Some(r#"{"type":"ping"}"#.to_string()));
}

#[test]
fn blank_frame_of_unknown_type_is_ignored() {
    assert!(matches!(route_frame("  ", Some(message("ping", None, None))), Reaction::Ignore));
}

#[test]
fn rejected_handshake_ends_session() {
    let mut s = Session::new();
    assert!(matches!(s.handle(Event::Handshake(false)), Reaction::End));
    assert!(s.is_closed());
    assert!(matches!(s.handle(Event::Text("hi".to_string(), None)), Reaction::End));
}

#[test]
fn frames_before_handshake_are_ignored() {
    let mut s = Session::new();
    assert!(matches!(s.handle(Event::Text("hi".to_string(), None)), Reaction::Ignore));
    assert_eq!(s.phase, SessionPhase::Handshaking);
}

#[test]
fn close_frame_ends_session() {
    let mut s = open_session();
    assert!(matches!(s.handle(Event::Close), Reaction::End));
    assert!(s.is_closed());
    assert!(matches!(s.handle(Event::Text("hi".to_string(), None)), Reaction::End));
}

#[test]
fn transport_error_ends_session() {
    let mut s = open_session();
    assert!(matches!(s.handle(Event::TransportError), Reaction::End));
    assert!(s.is_closed());
}

#[test]
fn other_frames_are_ignored() {
    let mut s = open_session();
    assert!(matches!(s.handle(Event::Other), Reaction::Ignore));
    assert_eq!(s.phase, SessionPhase::Open);
}
