use push_all_server::connect::open_session;
use push_all_server::json::PushRequest;
use push_all_server::publish::{publish, PushStatus};
use push_all_server::registry::Registry;
use tokio::sync::broadcast::error::TryRecvError;

fn req(msg: &str, pusher: Option<&str>) -> PushRequest {
    PushRequest {
        msg: msg.to_string(),
        pusher: pusher.map(|s| s.to_string()),
        kind: None,
        level: None,
        date: None,
    }
}

#[test]
fn publish_to_never_connected_key_is_not_found() {
    let mut reg = Registry::new();
    let status = publish(&mut reg, &"xyz".to_string(), &req("hello", None));
    assert_eq!(status, PushStatus::NotFound);
}

#[test]
fn publish_to_unknown_key_reaches_no_other_subscriber() {
    let mut reg = Registry::new();
    let (_session, mut rx) = open_session(&mut reg, &"abc".to_string()).unwrap();
    let status = publish(&mut reg, &"xyz".to_string(), &req("hello", None));
    assert_eq!(status, PushStatus::NotFound);
    assert!(matches!(rx.try_recv(), Err(TryRecvError::Empty)));
}

#[test]
fn blank_message_is_bad_request_with_or_without_the_key() {
    let mut reg = Registry::new();
    let token = "abc".to_string();
    for msg in ["", "   ", "\t\n", "\u{a0}\u{3000}"] {
        assert_eq!(publish(&mut reg, &token, &req(msg, None)), PushStatus::BadRequest);
    }
    let (_session, mut rx) = open_session(&mut reg, &token).unwrap();
    for msg in ["", "   ", "\t\n"] {
        assert_eq!(publish(&mut reg, &token, &req(msg, None)), PushStatus::BadRequest);
    }
    assert!(matches!(rx.try_recv(), Err(TryRecvError::Empty)));
}

#[test]
fn connected_subscriber_receives_the_canonical_payload() {
    let mut reg = Registry::new();
    let token = "abc".to_string();
    let (_session, mut rx) = open_session(&mut reg, &token).unwrap();
    let status = publish(&mut reg, &token, &req("hello", Some("svc1")));
    assert_eq!(status, PushStatus::Accepted);
    assert_eq!(
        rx.try_recv().unwrap(),
        "{\"pusher\":\"svc1\",\"msg\":\"hello\",\"type\":null,\"level\":null,\"date\":null}"
    );
}

#[test]
fn two_subscribers_both_receive_everything_in_order() {
    let mut reg = Registry::new();
    let token = "k".to_string();
    let (_s1, mut rx1) = open_session(&mut reg, &token).unwrap();
    let (_s2, mut rx2) = open_session(&mut reg, &token).unwrap();
    assert_eq!(publish(&mut reg, &token, &req("one", None)), PushStatus::Accepted);
    assert_eq!(publish(&mut reg, &token, &req("two", None)), PushStatus::Accepted);
    let first = "{\"pusher\":null,\"msg\":\"one\",\"type\":null,\"level\":null,\"date\":null}";
    let second = "{\"pusher\":null,\"msg\":\"two\",\"type\":null,\"level\":null,\"date\":null}";
    assert_eq!(rx1.try_recv().unwrap(), first);
    assert_eq!(rx1.try_recv().unwrap(), second);
    assert_eq!(rx2.try_recv().unwrap(), first);
    assert_eq!(rx2.try_recv().unwrap(), second);
}

#[test]
fn publish_after_one_subscriber_left_still_succeeds() {
    let mut reg = Registry::new();
    let token = "k".to_string();
    let (_s1, rx1) = open_session(&mut reg, &token).unwrap();
    let (_s2, mut rx2) = open_session(&mut reg, &token).unwrap();
    drop(rx1);
    assert_eq!(publish(&mut reg, &token, &req("still", None)), PushStatus::Accepted);
    assert_eq!(
        rx2.try_recv().unwrap(),
        "{\"pusher\":null,\"msg\":\"still\",\"type\":null,\"level\":null,\"date\":null}"
    );
}

#[test]
fn publish_with_zero_current_subscribers_still_succeeds() {
    let mut reg = Registry::new();
    let token = "k".to_string();
    let (_session, rx) = open_session(&mut reg, &token).unwrap();
    drop(rx);
    assert_eq!(publish(&mut reg, &token, &req("nobody", None)), PushStatus::Accepted);
}

#[test]
fn slow_subscriber_loses_oldest_messages_and_publisher_never_blocks() {
    let mut reg = Registry::new();
    let token = "k".to_string();
    let (_session, mut rx) = open_session(&mut reg, &token).unwrap();
    for i in 0..200 {
        let msg = format!("m{}", i);
        assert_eq!(publish(&mut reg, &token, &req(&msg, None)), PushStatus::Accepted);
    }
    assert!(matches!(rx.try_recv(), Err(TryRecvError::Lagged(_))));
}

#[test]
fn lookup_finds_only_connected_keys_and_creates_none() {
    let mut reg = Registry::new();
    let key = "k".to_string();
    assert!(reg.lookup(&key).is_none());
    assert!(reg.lookup(&key).is_none());
    let _opened = open_session(&mut reg, &key).unwrap();
    assert!(reg.lookup(&key).is_some());
    assert!(reg.lookup(&"other".to_string()).is_none());
}

#[test]
fn get_or_create_reuses_the_channel_of_a_known_key() {
    let mut reg = Registry::new();
    let key = "k".to_string();
    let (_s1, mut rx) = open_session(&mut reg, &key).unwrap();
    let tx = reg.get_or_create(&key);
    tx.send("direct".to_string()).unwrap();
    assert_eq!(rx.try_recv().unwrap(), "direct");
}

#[test]
fn scenario_connect_publish_unknown_key_blank_message() {
    let mut reg = Registry::new();
    let abc = "abc".to_string();
    let (_session, mut rx) = open_session(&mut reg, &abc).unwrap();
    assert_eq!(publish(&mut reg, &abc, &req("hello", Some("svc1"))), PushStatus::Accepted);
    assert_eq!(
        rx.try_recv().unwrap(),
        "{\"pusher\":\"svc1\",\"msg\":\"hello\",\"type\":null,\"level\":null,\"date\":null}"
    );
    assert_eq!(publish(&mut reg, &"xyz".to_string(), &req("hello", None)), PushStatus::NotFound);
    assert_eq!(publish(&mut reg, &abc, &req("", None)), PushStatus::BadRequest);
}
