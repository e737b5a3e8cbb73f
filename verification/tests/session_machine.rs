use push_all_server::connect::{connect_allowed, open_session};
use push_all_server::registry::Registry;
use push_all_server::session::{greeting, Session, SessionAction, SessionEvent, SessionState};
use push_all_server::HEARTBEAT_SECS;

fn active(token: &str) -> Session {
    Session {
        token: token.to_string(),
        state: SessionState::Active,
    }
}

#[test]
fn blank_token_is_rejected_and_creates_nothing() {
    let mut reg = Registry::new();
    for token in ["", " ", "\t\r\n", "\u{a0}", "\u{3000} \u{2028}"] {
        assert!(!connect_allowed(&token.to_string()));
        assert!(open_session(&mut reg, &token.to_string()).is_none());
    }
}

#[test]
fn valid_token_opens_a_connecting_session() {
    let mut reg = Registry::new();
    let (session, _rx) = open_session(&mut reg, &"abc".to_string()).unwrap();
    assert_eq!(session.token, "abc");
    assert_eq!(session.state, SessionState::Connecting);
}

#[test]
fn upgrade_sends_the_connected_greeting() {
    let mut reg = Registry::new();
    let (mut session, _rx) = open_session(&mut reg, &"abc".to_string()).unwrap();
    let action = session.step(SessionEvent::Established);
    assert!(matches!(action, SessionAction::Greet));
    assert_eq!(session.state, SessionState::Active);
    assert_eq!(greeting(), "connected");
}

#[test]
fn heartbeat_tick_pings_an_idle_session() {
    assert_eq!(HEARTBEAT_SECS, 30);
    let mut session = active("k");
    for _ in 0..3 {
        assert!(matches!(session.step(SessionEvent::HeartbeatTick), SessionAction::Ping));
        assert_eq!(session.state, SessionState::Active);
    }
}

#[test]
fn delivery_is_forwarded_verbatim() {
    let mut session = active("k");
    let action = session.step(SessionEvent::Delivery("payload".to_string()));
    match action {
        SessionAction::Forward(m) => assert_eq!(m, "payload"),
        other => panic!("expected a forward, got {:?}", other),
    }
    assert_eq!(session.state, SessionState::Active);
}

#[test]
fn client_text_is_recorded_only() {
    let mut session = active("k");
    let action = session.step(SessionEvent::ClientText("hi".to_string()));
    match action {
        SessionAction::Record(t) => assert_eq!(t, "hi"),
        other => panic!("expected a record, got {:?}", other),
    }
    assert_eq!(session.state, SessionState::Active);
}

#[test]
fn other_frames_are_ignored() {
    let mut session = active("k");
    assert!(matches!(session.step(SessionEvent::ClientOther), SessionAction::Ignore));
    assert_eq!(session.state, SessionState::Active);
}

#[test]
fn close_read_error_and_write_failure_each_end_the_session() {
    for event in [
        SessionEvent::ClientClose,
        SessionEvent::ReadError,
        SessionEvent::WriteFailed,
    ] {
        let mut session = active("k");
        assert!(matches!(session.step(event), SessionAction::Ignore));
        assert_eq!(session.state, SessionState::Closed);
    }
}

#[test]
fn a_closed_session_reacts_to_nothing() {
    let mut session = active("k");
    session.step(SessionEvent::ClientClose);
    assert_eq!(session.state, SessionState::Closed);
    assert!(matches!(
        session.step(SessionEvent::Delivery("late".to_string())),
        SessionAction::Ignore
    ));
    assert!(matches!(session.step(SessionEvent::HeartbeatTick), SessionAction::Ignore));
    assert_eq!(session.state, SessionState::Closed);
}
