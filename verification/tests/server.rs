use porter::common::Platform;
use porter::onebot::onebot_pylon::{
    check_handshake, disconnect_event, DispatchDecision, Dispatcher, HandshakeOutcome,
};
use porter::onebot::protocol::event::{Event, MetaEvent};
use porter::onebot::protocol::request::{generate_echo, EchoCounter};

fn some(s: &str) -> Option<String> {
    Some(s.to_string())
}

#[test]
fn handshake_wrong_token_is_unauthorized() {
    let outcome = check_handshake(
        &some("secret"),
        &some("Bearer wrong"),
        &some("10001"),
        &some("LLOneBot/1.0"),
    );
    assert_eq!(outcome, HandshakeOutcome::Unauthorized);
}

#[test]
fn handshake_accepts_matching_token() {
    let outcome = check_handshake(
        &some("secret"),
        &some("Bearer secret"),
        &some("10001"),
        &some("LLOneBot/1.0"),
    );
    match outcome {
        HandshakeOutcome::Accept(endpoint) => {
            assert_eq!(endpoint.platform, Platform::QQ);
            assert_eq!(endpoint.id, "10001");
        }
        other => panic!("expected acceptance, got {:?}", other),
    }
}

#[test]
fn handshake_requires_identity_headers() {
    let outcome = check_handshake(&None, &None, &None, &some("WeChatFerry"));
    assert_eq!(outcome, HandshakeOutcome::BadRequest);
    let outcome = check_handshake(&None, &None, &some("7"), &None);
    assert_eq!(outcome, HandshakeOutcome::BadRequest);
}

#[test]
fn handshake_without_token_rejects_any_header() {
    let outcome = check_handshake(&None, &some("Bearer x"), &some("7"), &some("WeChat"));
    assert_eq!(outcome, HandshakeOutcome::Unauthorized);
    match check_handshake(&None, &None, &some("7"), &some("WeChatFerry")) {
        HandshakeOutcome::Accept(endpoint) => assert_eq!(endpoint.platform, Platform::WeChat),
        other => panic!("expected acceptance, got {:?}", other),
    }
}

#[test]
fn handshake_unknown_agent_defaults_to_qq() {
    match check_handshake(&None, &None, &some("7"), &some("SomethingElse")) {
        HandshakeOutcome::Accept(endpoint) => assert_eq!(endpoint.platform, Platform::QQ),
        other => panic!("expected acceptance, got {:?}", other),
    }
}

#[test]
fn dispatcher_correlates_each_echo_once() {
    let mut d = Dispatcher::new();
    let endpoint = porter::common::Endpoint {
        platform: Platform::QQ,
        id: "10001".to_string(),
    };
    d.register_endpoint(endpoint.clone_endpoint(), 5);
    assert_eq!(d.writer_for(&endpoint), Some(5));

    let decision = d.on_api_request(&endpoint, "1".to_string(), 900);
    assert_eq!(decision, DispatchDecision::Enqueue { writer: 5 });

    // The response is delivered to exactly one waiter and the entry is gone.
    assert_eq!(d.take_pending("1"), Some(900));
    assert_eq!(d.take_pending("1"), None);
    assert_eq!(d.take_pending("unknown"), None);
}

#[test]
fn dispatcher_reports_missing_clients() {
    let mut d = Dispatcher::new();
    let endpoint = porter::common::Endpoint {
        platform: Platform::WeChat,
        id: "w1".to_string(),
    };
    let decision = d.on_api_request(&endpoint, "2".to_string(), 901);
    assert_eq!(decision, DispatchDecision::ClientNotFound);
    assert_eq!(d.take_pending("2"), None);
}

#[test]
fn dispatcher_drops_dead_connections() {
    let mut d = Dispatcher::new();
    let endpoint = porter::common::Endpoint {
        platform: Platform::QQ,
        id: "10001".to_string(),
    };
    d.register_endpoint(endpoint.clone_endpoint(), 5);
    d.remove_endpoint(&endpoint);
    assert_eq!(d.writer_for(&endpoint), None);
}

#[test]
fn echo_values_are_unique() {
    let mut counter = EchoCounter::new();
    let a = generate_echo(&mut counter);
    let b = generate_echo(&mut counter);
    let c = generate_echo(&mut counter);
    assert_eq!(a, 1);
    assert_eq!(b, 2);
    assert_eq!(c, 3);
    assert_ne!(a, b);
    assert_ne!(b, c);
}

#[test]
fn disconnect_event_shape() {
    let event = disconnect_event("10001".to_string(), 7);
    match event {
        Event::Meta(MetaEvent::Lifecycle(e)) => {
            assert_eq!(e.sub_type, "disconnect");
            assert_eq!(e.self_id, "10001");
            assert_eq!(e.time, 7);
        }
        other => panic!("expected lifecycle event, got {:?}", other),
    }
}
