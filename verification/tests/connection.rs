use aws_smithy_types::event_stream::{Header, HeaderValue, Message};
use greengrass_ipc::eventstream::flags;
use greengrass_ipc::{
    check_connect_ack, check_subscription_ack, connect_payload, response_body, service_error_from,
    Delivery, Error, MessageType, Outcome, ReadEvent, ReadStep, Registry, RpcMessage, StreamSink,
    SubscriptionAck,
};

fn rpc(message_type: MessageType, flags: i32, stream_id: i32, payload: &[u8]) -> RpcMessage {
    RpcMessage {
        message_type,
        flags,
        stream_id,
        service_model_type: Some("aws.greengrass#Shape".to_owned()),
        payload: payload.to_vec(),
    }
}

fn ack(message_type: i32, msg_flags: i32) -> Message {
    Message::new(bytes::Bytes::new())
        .add_header(Header::new(":message-type", HeaderValue::Int32(message_type)))
        .add_header(Header::new(":message-flags", HeaderValue::Int32(msg_flags)))
        .add_header(Header::new(":stream-id", HeaderValue::Int32(0)))
}

#[test]
fn stream_ids_start_at_one_and_increase() {
    let mut reg: Registry<&str, &str> = Registry::new();
    assert_eq!(reg.open_request("a"), 1);
    assert_eq!(reg.open_subscription("b"), 2);
    assert_eq!(reg.open_request("c"), 3);
    assert!(matches!(reg.sink(2), Some(StreamSink::Subscription("b"))));
}

#[test]
fn request_is_resolved_once() {
    let mut reg: Registry<u8, u8> = Registry::new();
    let id = reg.open_request(10);
    match reg.dispatch(rpc(MessageType::ApplicationMessage, flags::TERMINATE_STREAM, id, b"{}")) {
        Delivery::Response(10, Outcome::Message(m)) => assert_eq!(m.stream_id, id),
        _ => panic!("expected the response to reach the request"),
    }
    assert!(reg.sink(id).is_none());
    assert!(matches!(
        reg.dispatch(rpc(MessageType::ApplicationMessage, 0, id, b"{}")),
        Delivery::Ignored
    ));
}

#[test]
fn subscription_stays_open_until_terminated() {
    let mut reg: Registry<u8, u8> = Registry::new();
    let id = reg.open_subscription(7);
    for _ in 0..3 {
        match reg.dispatch(rpc(MessageType::ApplicationMessage, 0, id, b"{\"e\":1}")) {
            Delivery::Event(i, Outcome::Message(m)) => {
                assert_eq!(i, id);
                assert_eq!(m.payload, b"{\"e\":1}".to_vec());
            }
            _ => panic!("expected an event"),
        }
    }
    assert!(reg.sink(id).is_some());
    match reg.dispatch(rpc(MessageType::ApplicationMessage, flags::TERMINATE_STREAM, id, b"")) {
        Delivery::Last(7, Outcome::Message(_)) => {}
        _ => panic!("expected the last message"),
    }
    assert!(reg.sink(id).is_none());
}

#[test]
fn application_error_closes_subscription_with_service_error() {
    let mut reg: Registry<u8, u8> = Registry::new();
    let id = reg.open_subscription(1);
    match reg.dispatch(rpc(MessageType::ApplicationError, 0, id, b"{\"message\":\"denied\"}")) {
        Delivery::Last(1, Outcome::ServiceError(m)) => {
            assert_eq!(m.stream_id, id);
            match service_error_from(&m, Some("denied".to_owned())) {
                Error::Service { model, message } => {
                    assert_eq!(model, "aws.greengrass#Shape");
                    assert_eq!(message, "denied");
                }
                other => panic!("unexpected {other:?}"),
            }
        }
        _ => panic!("expected the service error"),
    }
    assert!(reg.sink(id).is_none());
}

#[test]
fn connection_level_and_unknown_streams_are_ignored() {
    let mut reg: Registry<u8, u8> = Registry::new();
    let id = reg.open_request(3);
    assert!(matches!(reg.dispatch(rpc(MessageType::Ping, 0, 0, b"")), Delivery::Ignored));
    assert!(matches!(
        reg.dispatch(rpc(MessageType::ApplicationMessage, 0, id + 5, b"")),
        Delivery::Ignored
    ));
    assert!(reg.sink(id).is_some());
}

#[test]
fn close_and_take_all_remove_sinks() {
    let mut reg: Registry<u8, u8> = Registry::new();
    let a = reg.open_request(1);
    let b = reg.open_subscription(2);
    let c = reg.open_request(3);
    assert!(matches!(reg.close(b), Some(StreamSink::Subscription(2))));
    assert!(reg.close(b).is_none());
    let all = reg.take_all();
    assert_eq!(all.len(), 2);
    assert!(all.contains_key(&a) && all.contains_key(&c));
    assert!(reg.sink(a).is_none());
    assert_eq!(reg.open_request(4), 4);
}

#[test]
fn service_error_defaults() {
    let mut m = rpc(MessageType::ApplicationError, 0, 1, b"");
    m.service_model_type = None;
    match service_error_from(&m, None) {
        Error::Service { model, message } => {
            assert_eq!(model, "aws.greengrass#ServiceError");
            assert_eq!(message, "unknown service error");
        }
        other => panic!("unexpected {other:?}"),
    }
}

#[test]
fn service_error_reads_model_and_message() {
    let mut m = rpc(
        MessageType::ApplicationError,
        flags::TERMINATE_STREAM,
        4,
        b"{\"message\":\"no such component\",\"other\":1}",
    );
    m.service_model_type = Some("aws.greengrass#ResourceNotFoundError".to_owned());
    match service_error_from(&m, Some("no such component".to_owned())) {
        Error::Service { model, message } => {
            assert_eq!(model, "aws.greengrass#ResourceNotFoundError");
            assert_eq!(message, "no such component");
        }
        other => panic!("unexpected {other:?}"),
    }
}

#[test]
fn handshake_accepts_only_an_accepted_connect_ack() {
    assert!(check_connect_ack(Some(&ack(5, flags::CONNECTION_ACCEPTED))).is_ok());
    match check_connect_ack(Some(&ack(5, flags::NONE))) {
        Err(Error::Handshake(s)) => assert_eq!(
            s,
            "nucleus rejected the connection (invalid or expired SVCUID auth token)"
        ),
        other => panic!("unexpected {other:?}"),
    }
    match check_connect_ack(Some(&ack(2, flags::CONNECTION_ACCEPTED))) {
        Err(Error::Handshake(s)) => assert_eq!(s, "expected ConnectAck, got Ping"),
        other => panic!("unexpected {other:?}"),
    }
    match check_connect_ack(None) {
        Err(Error::Handshake(s)) => assert_eq!(s, "connection closed during handshake"),
        other => panic!("unexpected {other:?}"),
    }
    let bad = Message::new(bytes::Bytes::new());
    assert!(matches!(check_connect_ack(Some(&bad)), Err(Error::Frame(_))));
}

#[test]
fn subscription_ack_outcomes() {
    assert!(matches!(
        check_subscription_ack(Some(Ok(rpc(MessageType::ApplicationMessage, 0, 1, b"{}")))),
        SubscriptionAck::Accepted
    ));
    match check_subscription_ack(Some(Ok(rpc(MessageType::ApplicationError, 0, 3, b"{}")))) {
        SubscriptionAck::Refused(m) => assert_eq!(m.stream_id, 3),
        _ => panic!("expected a refusal"),
    }
    assert!(matches!(
        check_subscription_ack(Some(Err(Error::Handshake("x".to_owned())))),
        SubscriptionAck::Failed(Error::Handshake(s)) if s == "x"
    ));
    assert!(matches!(
        check_subscription_ack(None),
        SubscriptionAck::Failed(Error::ConnectionClosed)
    ));
}

#[test]
fn empty_response_reads_as_empty_object() {
    assert_eq!(response_body(&rpc(MessageType::ApplicationMessage, 0, 1, b"")), b"{}".to_vec());
    assert_eq!(
        response_body(&rpc(MessageType::ApplicationMessage, 0, 1, b"{\"a\":2}")),
        b"{\"a\":2}".to_vec()
    );
}

#[test]
fn connect_payload_is_auth_token_object() {
    assert_eq!(connect_payload("x").unwrap(), br#"{"authToken":"x"}"#.to_vec());
    assert_eq!(connect_payload("a\"b").unwrap(), br#"{"authToken":"a\"b"}"#.to_vec());
    let v: serde_json::Value = serde_json::from_slice(&connect_payload("tök\n").unwrap()).unwrap();
    assert_eq!(v["authToken"], "tök\n");
}

#[test]
fn read_side_routes_skips_and_stops() {
    let mut reg: Registry<u8, u8> = Registry::new();
    let req = reg.open_request(1);
    let sub = reg.open_subscription(2);
    let frame = RpcMessage::activate(sub, "op", "ev", b"{}".to_vec());
    match reg.on_read(ReadEvent::Frame(frame)) {
        ReadStep::Deliver(Delivery::Event(id, Outcome::Message(m))) => {
            assert_eq!(id, sub);
            assert_eq!(m.service_model_type.as_deref(), Some("ev"));
        }
        _ => panic!("expected an event"),
    }
    let bad = Message::new(bytes::Bytes::new());
    match reg.on_read(ReadEvent::Frame(bad)) {
        ReadStep::Skip(Error::Frame(s)) => assert_eq!(s, "message missing :message-type header"),
        _ => panic!("expected a skip"),
    }
    assert!(!reg.closed());
    match reg.on_read(ReadEvent::End) {
        ReadStep::Stop(all) => {
            assert_eq!(all.len(), 2);
            assert!(all.contains_key(&req) && all.contains_key(&sub));
        }
        _ => panic!("expected a stop"),
    }
    assert!(reg.closed());
    assert!(reg.sink(req).is_none());
}

#[test]
fn failed_read_closes_registry() {
    let mut reg: Registry<u8, u8> = Registry::new();
    let id = reg.open_request(5);
    assert!(matches!(reg.on_read(ReadEvent::Failed), ReadStep::Stop(all) if all.len() == 1));
    assert!(reg.closed());
    assert!(reg.sink(id).is_none());
    let mut reg2: Registry<u8, u8> = Registry::new();
    reg2.take_all();
    assert!(reg2.closed());
}

#[test]
fn connect_payload_escapes_like_json() {
    let mut want = br#"{"authToken":"a\\\u0001\t\u001f"#.to_vec();
    want.extend_from_slice("é".as_bytes());
    want.push(0x7f);
    want.extend_from_slice(br#"\"\b\f\n\r"}"#);
    assert_eq!(connect_payload("a\\\u{1}\t\u{1f}é\u{7f}\"\u{8}\u{c}\n\r").unwrap(), want);
}

#[test]
fn request_receives_application_error_as_service_error() {
    let mut reg: Registry<u8, u8> = Registry::new();
    let id = reg.open_request(9);
    match reg.dispatch(rpc(MessageType::ApplicationError, 0, id, b"{\"message\":\"nope\"}")) {
        Delivery::Response(9, Outcome::ServiceError(m)) => {
            assert_eq!(m.payload, b"{\"message\":\"nope\"}".to_vec());
        }
        _ => panic!("expected the service error outcome"),
    }
    assert!(reg.sink(id).is_none());
}
