use porter::onebot::protocol::json::JsonValue;
use porter::onebot::protocol::request::{EchoCounter, Request, SendMsg};
use porter::onebot::protocol::segment::{decode_segment, encode_segment, Segment};

#[test]
fn encoded_segments_decode_back() {
    let seg = Segment::Image(Segment::image(
        "base64://YWI=".to_string(),
        Some("p.jpg".to_string()),
        None,
        None,
        None,
    ));
    let wire = encode_segment(&seg);
    match decode_segment(&wire) {
        Some(Segment::Image(img)) => {
            assert_eq!(img.file, "base64://YWI=");
            assert_eq!(img.name.as_deref(), Some("p.jpg"));
            assert!(img.url.is_none());
        }
        other => panic!("expected the image back, got {:?}", other),
    }

    let unit = encode_segment(&Segment::Dice);
    assert!(matches!(decode_segment(&unit), Some(Segment::Dice)));

    let reply = encode_segment(&Segment::Reply(Segment::reply("m1".to_string())));
    match decode_segment(&reply) {
        Some(Segment::Reply(r)) => assert_eq!(r.id, "m1"),
        other => panic!("expected the reply back, got {:?}", other),
    }
}

#[test]
fn requests_carry_action_echo_and_params() {
    let mut echoes = EchoCounter::new();
    let request = Request::send_msg(
        &mut echoes,
        SendMsg {
            message_type: "group".to_string(),
            user_id: None,
            group_id: Some("g1".to_string()),
            message: vec![Segment::Text(Segment::text("yo".to_string()))],
        },
    );
    let wire = porter::onebot::protocol::request::encode_request(&request);

    let action = wire.get("action").and_then(JsonValue::as_text).unwrap();
    assert_eq!(action.as_str(), "send_msg");
    let echo = wire.get("echo").and_then(JsonValue::as_text).unwrap();
    assert_eq!(echo.as_str(), "1");
    let params = wire.get("params").unwrap();
    assert_eq!(
        params.get("message_type").and_then(JsonValue::as_text).unwrap().as_str(),
        "group"
    );
    assert_eq!(
        params.get("group_id").and_then(JsonValue::as_text).unwrap().as_str(),
        "g1"
    );
    assert!(params.get("user_id").unwrap().is_null());
    match params.get("message").unwrap() {
        JsonValue::Array(items) => {
            assert_eq!(items.len(), 1);
            match decode_segment(&items[0]) {
                Some(Segment::Text(t)) => assert_eq!(t.text, "yo"),
                other => panic!("expected the text back, got {:?}", other),
            }
        }
        other => panic!("expected a segment array, got {:?}", other),
    }
}

#[test]
fn plain_requests_have_no_params() {
    let mut echoes = EchoCounter::new();
    let request = Request::get_friend_list(&mut echoes);
    let wire = porter::onebot::protocol::request::encode_request(&request);
    assert_eq!(
        wire.get("action").and_then(JsonValue::as_text).unwrap().as_str(),
        "get_friend_list"
    );
    assert!(wire.get("params").is_none());
}
