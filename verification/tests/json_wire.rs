use push_all_server::json::{to_json, PushRequest};

fn req(msg: &str) -> PushRequest {
    PushRequest {
        msg: msg.to_string(),
        pusher: None,
        kind: None,
        level: None,
        date: None,
    }
}

#[test]
fn fixed_field_order_with_optional_fields_absent() {
    let r = PushRequest {
        msg: "hello".to_string(),
        pusher: Some("svc1".to_string()),
        kind: None,
        level: None,
        date: None,
    };
    assert_eq!(
        to_json(&r),
        "{\"pusher\":\"svc1\",\"msg\":\"hello\",\"type\":null,\"level\":null,\"date\":null}"
    );
}

#[test]
fn fixed_field_order_with_all_fields_present() {
    let r = PushRequest {
        msg: "m".to_string(),
        pusher: Some("p".to_string()),
        kind: Some("t".to_string()),
        level: Some("l".to_string()),
        date: Some("2024-01-01".to_string()),
    };
    assert_eq!(
        to_json(&r),
        "{\"pusher\":\"p\",\"msg\":\"m\",\"type\":\"t\",\"level\":\"l\",\"date\":\"2024-01-01\"}"
    );
}

#[test]
fn escaping_matches_the_reference_serializer() {
    let tricky = [
        "he\"llo",
        "back\\slash",
        "line\nbreak\r",
        "tab\there",
        "ctrl\u{1}and\u{1f}",
        "bell\u{8}feed\u{c}",
        "unicode \u{e9}\u{4e2d}\u{1f600}",
        "",
    ];
    for s in tricky {
        let expected = format!(
            "{{\"pusher\":null,\"msg\":{},\"type\":null,\"level\":null,\"date\":null}}",
            serde_json::to_string(s).unwrap()
        );
        assert_eq!(to_json(&req(s)), expected);
    }
}

#[test]
fn optional_fields_are_escaped_too() {
    let r = PushRequest {
        msg: "m".to_string(),
        pusher: Some("a\"b".to_string()),
        kind: None,
        level: Some("x\ny".to_string()),
        date: None,
    };
    assert_eq!(
        to_json(&r),
        "{\"pusher\":\"a\\\"b\",\"msg\":\"m\",\"type\":null,\"level\":\"x\\ny\",\"date\":null}"
    );
}
