use porter::common::{ChatType, Endpoint, Platform};
use porter::onebot::protocol::event::{decode_event, decode_message_event, Event};
use porter::onebot::protocol::json::{id_text, JsonValue};
use porter::onebot::protocol::payload::{decode_payload, Payload};
use porter::onebot::protocol::response::{decode_response, ApiError, ResponseData};
use porter::onebot::protocol::segment::{decode_segment, Segment};

fn obj(fields: Vec<(&str, JsonValue)>) -> JsonValue {
    JsonValue::Object(
        fields
            .into_iter()
            .map(|(k, v)| (k.to_string(), v))
            .collect(),
    )
}

fn text(s: &str) -> JsonValue {
    JsonValue::Text(s.to_string())
}

fn message_event_json(user_id: JsonValue) -> JsonValue {
    obj(vec![
        ("post_type", text("message")),
        ("time", JsonValue::Int(1)),
        ("self_id", JsonValue::Int(10001)),
        ("message_type", text("private")),
        ("sub_type", text("friend")),
        ("message_id", JsonValue::Int(7)),
        ("user_id", user_id),
        (
            "message",
            JsonValue::Array(vec![obj(vec![
                ("type", text("text")),
                ("data", obj(vec![("text", text("hi"))])),
            ])]),
        ),
        (
            "sender",
            obj(vec![
                ("user_id", JsonValue::Int(42)),
                ("nickname", text("A")),
            ]),
        ),
    ])
}

#[test]
fn endpoint_roundtrip() {
    for (platform, id) in [
        (Platform::QQ, "42"),
        (Platform::WeChat, "wxid_1"),
        (Platform::Telegram, ""),
        (Platform::QQ, "a:b:c"),
    ] {
        let e = Endpoint {
            platform,
            id: id.to_string(),
        };
        let round = Endpoint::parse(&e.to_text()).expect("round trip must parse");
        assert_eq!(round, e);
    }
    assert!(Endpoint::parse("qq").is_none());
    assert!(Endpoint::parse("discord:1").is_none());
    assert!(Endpoint::parse("").is_none());
}

#[test]
fn numeric_id_tolerance() {
    let with_number = decode_event(&message_event_json(JsonValue::Int(42))).expect("decodes");
    let with_text = decode_event(&message_event_json(text("42"))).expect("decodes");
    let (a, b) = match (with_number, with_text) {
        (Event::Message(a), Event::Message(b)) => (a, b),
        _ => panic!("both must be message events"),
    };
    assert_eq!(a.user_id, b.user_id);
    assert_eq!(a.self_id, "10001");
    assert_eq!(a.user_id, "42");
    assert_eq!(a.message_id, "7");
    assert_eq!(a.sender.nickname, "A");
    assert_eq!(a.message.len(), 1);
}

#[test]
fn id_text_normalizes_numbers() {
    assert_eq!(id_text(&JsonValue::Int(42)).unwrap(), "42");
    assert_eq!(id_text(&JsonValue::Int(-5)).unwrap(), "-5");
    assert_eq!(id_text(&text("42")).unwrap(), "42");
    assert_eq!(id_text(&JsonValue::BigNum("1.5".to_string())).unwrap(), "1.5");
    assert!(id_text(&JsonValue::Bool(true)).is_none());
}

#[test]
fn payload_discrimination() {
    let event = message_event_json(JsonValue::Int(42));
    assert!(matches!(decode_payload(event), Some(Payload::Event(_))));

    let response = obj(vec![
        ("echo", text("1")),
        ("status", text("ok")),
        ("retcode", JsonValue::Int(0)),
        ("data", JsonValue::Null),
    ]);
    assert!(matches!(decode_payload(response), Some(Payload::Response(_))));

    let request = obj(vec![
        ("action", text("send_msg")),
        ("echo", text("9")),
    ]);
    assert!(matches!(decode_payload(request), Some(Payload::Request(_))));

    let junk = obj(vec![("post_type", text("request"))]);
    assert!(decode_payload(junk).is_none());
}

#[test]
fn segment_decoding() {
    let seg = obj(vec![
        ("type", text("at")),
        ("data", obj(vec![("qq", text("77"))])),
    ]);
    match decode_segment(&seg) {
        Some(Segment::At(at)) => assert_eq!(at.id, "77"),
        _ => panic!("at segment expected"),
    }

    let unit = obj(vec![("type", text("dice"))]);
    assert!(matches!(decode_segment(&unit), Some(Segment::Dice)));

    let unknown = obj(vec![
        ("type", text("hologram")),
        ("data", obj(vec![])),
    ]);
    assert!(decode_segment(&unknown).is_none());

    let missing_field = obj(vec![
        ("type", text("text")),
        ("data", obj(vec![])),
    ]);
    assert!(decode_segment(&missing_field).is_none());
}

#[test]
fn segment_fallback_rendering() {
    let seg = Segment::Text(Segment::text("hello".to_string()));
    assert_eq!(seg.fallback_text(), "hello");
    let face = Segment::Face(Segment::face("5".to_string()));
    assert_eq!(face.fallback_text(), "/[Face5]");
    let at = Segment::At(Segment::at("9".to_string()));
    assert_eq!(at.fallback_text(), "@9");
    let image = Segment::Image(Segment::image(
        "f".to_string(),
        None,
        None,
        None,
        None,
    ));
    assert_eq!(image.fallback_text(), "[图片]");
}

#[test]
fn response_decoding_and_typing() {
    let ok_user = obj(vec![
        ("echo", text("3")),
        ("status", text("ok")),
        ("retcode", JsonValue::Int(0)),
        (
            "data",
            obj(vec![
                ("user_id", JsonValue::Int(42)),
                ("nickname", text("A")),
            ]),
        ),
    ]);
    let resp = decode_response(&ok_user).expect("decodes");
    let user = resp.expect_user_info().expect("typed data");
    assert_eq!(user.user_id, "42");
    assert!(matches!(
        resp.expect_group_info(),
        Err(ApiError::WrongVariant)
    ));

    let failed = obj(vec![
        ("echo", text("4")),
        ("status", text("failed")),
        ("retcode", JsonValue::Int(100)),
        ("data", JsonValue::Null),
    ]);
    let resp = decode_response(&failed).expect("decodes");
    assert!(matches!(resp.data, ResponseData::Empty));
    assert!(matches!(
        resp.expect_message_id(),
        Err(ApiError::Status { retcode: 100 })
    ));
}

#[test]
fn event_chat_classification() {
    let e = decode_message_event(&message_event_json(JsonValue::Int(42))).expect("decodes");
    assert_eq!(e.get_chat_type(), ChatType::Private);
    assert_eq!(e.get_chat_id(), "42");
    assert_eq!(e.sender.display_name(), "A");
}
