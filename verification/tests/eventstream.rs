use aws_smithy_types::event_stream::{Header, HeaderValue, Message};
use greengrass_ipc::eventstream::flags;
use greengrass_ipc::text::decimal_string;
use greengrass_ipc::{decoded_frame, encode_message, Error, FrameReader, MessageType, RpcMessage};

fn header_message(headers: Vec<(&str, HeaderValue)>) -> Message {
    let mut m = Message::new(bytes::Bytes::from_static(b"{}"));
    for (name, value) in headers {
        m = m.add_header(Header::new(name.to_owned(), value));
    }
    m
}

fn frame_error(r: Result<RpcMessage, Error>) -> String {
    match r {
        Err(Error::Frame(s)) => s,
        other => panic!("expected a framing error, got {other:?}"),
    }
}

#[test]
fn connect_message_has_expected_headers() {
    let msg = RpcMessage::connect(b"{\"authToken\":\"x\"}".to_vec());
    let parsed = RpcMessage::parse(&msg).unwrap();
    assert_eq!(parsed.message_type, MessageType::Connect);
    assert_eq!(parsed.stream_id, 0);
    assert_eq!(parsed.flags, flags::NONE);
}

#[test]
fn activate_roundtrips_operation_and_stream_id() {
    let msg = RpcMessage::activate(
        7,
        "aws.greengrass#UpdateState",
        "aws.greengrass#UpdateStateRequest",
        b"{}".to_vec(),
    );
    let parsed = RpcMessage::parse(&msg).unwrap();
    assert_eq!(parsed.message_type, MessageType::ApplicationMessage);
    assert_eq!(parsed.stream_id, 7);
    assert_eq!(
        parsed.service_model_type.as_deref(),
        Some("aws.greengrass#UpdateStateRequest")
    );
}

#[test]
fn terminate_sets_flag() {
    let msg = RpcMessage::terminate(3);
    let parsed = RpcMessage::parse(&msg).unwrap();
    assert!(parsed.terminates_stream());
    assert_eq!(parsed.stream_id, 3);
}

#[test]
fn connect_message_headers_are_in_protocol_order() {
    let msg = RpcMessage::connect(b"{}".to_vec());
    let names: Vec<String> = msg.headers().iter().map(|h| h.name().as_str().to_owned()).collect();
    assert_eq!(
        names,
        vec![":message-type", ":message-flags", ":stream-id", ":version", ":content-type"]
    );
    assert_eq!(msg.headers()[0].value(), &HeaderValue::Int32(4));
    assert_eq!(msg.headers()[3].value().as_string().unwrap().as_str(), "0.1.0");
    assert_eq!(msg.headers()[4].value().as_string().unwrap().as_str(), "application/json");
    assert_eq!(&msg.payload()[..], b"{}");
}

#[test]
fn activate_carries_operation_header_and_payload() {
    let msg = RpcMessage::activate(9, "aws.greengrass#PauseComponent", "m", b"{\"a\":1}".to_vec());
    let op = msg.headers().iter().find(|h| h.name().as_str() == "operation").unwrap();
    assert_eq!(op.value().as_string().unwrap().as_str(), "aws.greengrass#PauseComponent");
    let parsed = RpcMessage::parse(&msg).unwrap();
    assert_eq!(parsed.flags, flags::NONE);
    assert_eq!(parsed.payload, b"{\"a\":1}".to_vec());
}

#[test]
fn terminate_has_empty_payload_and_no_model() {
    let parsed = RpcMessage::parse(&RpcMessage::terminate(12)).unwrap();
    assert_eq!(parsed.message_type, MessageType::ApplicationMessage);
    assert_eq!(parsed.flags, flags::TERMINATE_STREAM);
    assert!(parsed.payload.is_empty());
    assert_eq!(parsed.service_model_type, None);
    assert!(!parsed.connection_accepted());
}

#[test]
fn message_type_codes_roundtrip() {
    for v in 0..8 {
        let t = MessageType::from_i32(v).unwrap();
        assert_eq!(t.to_i32(), v);
    }
    assert_eq!(MessageType::from_i32(5), Some(MessageType::ConnectAck));
    assert_eq!(MessageType::from_i32(8), None);
    assert_eq!(MessageType::from_i32(-1), None);
    assert_eq!(MessageType::InternalError.name(), "InternalError");
}

#[test]
fn parse_requires_message_type() {
    let m = header_message(vec![(":stream-id", HeaderValue::Int32(1))]);
    assert_eq!(frame_error(RpcMessage::parse(&m)), "message missing :message-type header");
}

#[test]
fn parse_rejects_unknown_message_type() {
    let m = header_message(vec![(":message-type", HeaderValue::Int32(9))]);
    assert_eq!(frame_error(RpcMessage::parse(&m)), "unknown :message-type value 9");
    let m = header_message(vec![(":message-type", HeaderValue::Int32(-12))]);
    assert_eq!(frame_error(RpcMessage::parse(&m)), "unknown :message-type value -12");
}

#[test]
fn parse_accepts_narrow_and_wide_integer_headers() {
    let m = header_message(vec![
        (":message-type", HeaderValue::Byte(5)),
        (":message-flags", HeaderValue::Int16(1)),
        (":stream-id", HeaderValue::Int64(42)),
    ]);
    let p = RpcMessage::parse(&m).unwrap();
    assert_eq!(p.message_type, MessageType::ConnectAck);
    assert!(p.connection_accepted());
    assert_eq!(p.stream_id, 42);
}

#[test]
fn parse_rejects_out_of_range_int64() {
    let m = header_message(vec![
        (":message-type", HeaderValue::Int32(0)),
        (":stream-id", HeaderValue::Int64(1 << 40)),
    ]);
    assert_eq!(frame_error(RpcMessage::parse(&m)), "integer header :stream-id out of range");
}

#[test]
fn parse_rejects_non_integer_header() {
    let value = HeaderValue::Bool(true);
    let shown = format!("{value:?}");
    let m = header_message(vec![(":message-flags", value), (":message-type", HeaderValue::Int32(0))]);
    assert_eq!(
        frame_error(RpcMessage::parse(&m)),
        format!("expected integer header for :message-flags, got {shown}")
    );
}

#[test]
fn parse_ignores_non_string_model_and_unknown_headers() {
    let m = header_message(vec![
        (":message-type", HeaderValue::Int32(0)),
        ("service-model-type", HeaderValue::Int32(3)),
        ("x-other", HeaderValue::Bool(false)),
    ]);
    let p = RpcMessage::parse(&m).unwrap();
    assert_eq!(p.service_model_type, None);
    assert_eq!(p.stream_id, 0);
    assert_eq!(p.flags, flags::NONE);
}

#[test]
fn parse_keeps_the_last_repeated_header() {
    let m = header_message(vec![
        (":message-type", HeaderValue::Int32(0)),
        (":stream-id", HeaderValue::Int32(4)),
        (":stream-id", HeaderValue::Int32(6)),
    ]);
    assert_eq!(RpcMessage::parse(&m).unwrap().stream_id, 6);
}

#[test]
fn encoded_frame_decodes_back() {
    let msg = RpcMessage::activate(5, "op", "model", b"{\"k\":true}".to_vec());
    let bytes = encode_message(&msg).unwrap();
    let total = u32::from_be_bytes([bytes[0], bytes[1], bytes[2], bytes[3]]) as usize;
    assert_eq!(total, bytes.len());
    let mut reader = FrameReader::new();
    reader.push(&bytes[..10]);
    assert!(reader.next_message().unwrap().is_none());
    reader.push(&bytes[10..]);
    let decoded = reader.next_message().unwrap().unwrap();
    assert_eq!(decoded, msg);
    let p = RpcMessage::parse(&decoded).unwrap();
    assert_eq!(p.stream_id, 5);
    assert_eq!(p.service_model_type.as_deref(), Some("model"));
}

#[test]
fn malformed_frame_is_a_frame_error() {
    let mut reader = FrameReader::new();
    reader.push(&[0, 0, 0, 16, 0, 0, 0, 0, 1, 2, 3, 4, 0, 0, 0, 0]);
    assert!(matches!(reader.next_message(), Err(Error::Frame(_))));
}

#[test]
fn oversized_header_name_cannot_be_encoded() {
    let long = "n".repeat(300);
    let msg = RpcMessage::activate(1, &long, &long, Vec::new());
    let m = Message::new(bytes::Bytes::new()).add_header(Header::new(long.clone(), HeaderValue::Int32(1)));
    assert!(matches!(encode_message(&m), Err(Error::Frame(_))));
    assert!(encode_message(&msg).is_ok());
}

#[test]
fn decimal_text_of_integers() {
    assert_eq!(decimal_string(0), "0");
    assert_eq!(decimal_string(7), "7");
    assert_eq!(decimal_string(1234567890), "1234567890");
    assert_eq!(decimal_string(-45), "-45");
    assert_eq!(decimal_string(i64::MIN), i64::MIN.to_string());
    assert_eq!(decimal_string(i64::MAX), i64::MAX.to_string());
}

#[test]
fn decoder_report_maps_to_frame_outcome() {
    assert!(matches!(decoded_frame(Ok(None)), Ok(None)));
    let m = RpcMessage::terminate(2);
    assert_eq!(decoded_frame(Ok(Some(m.clone()))).unwrap(), Some(m));
    match decoded_frame(Err("prelude checksum mismatch".to_owned())) {
        Err(Error::Frame(s)) => assert_eq!(s, "prelude checksum mismatch"),
        other => panic!("unexpected {other:?}"),
    }
}

#[test]
fn frames_come_back_whole_and_in_order_however_split() {
    let msgs = vec![
        RpcMessage::connect(b"{\"authToken\":\"t\"}".to_vec()),
        RpcMessage::activate(1, "op", "model", b"{}".to_vec()),
        RpcMessage::terminate(1),
        RpcMessage::activate(2, "other", "m2", vec![7u8; 300]),
    ];
    let mut stream = Vec::new();
    for m in &msgs {
        stream.extend(encode_message(m).unwrap());
    }
    for chunk_size in [1usize, 3, 7, 16, 50, 1000, stream.len()] {
        let mut reader = FrameReader::new();
        let mut out = Vec::new();
        for chunk in stream.chunks(chunk_size) {
            reader.push(chunk);
            while let Some(m) = reader.next_message().unwrap() {
                out.push(m);
            }
        }
        assert_eq!(out, msgs, "chunk size {chunk_size}");
        assert!(reader.next_message().unwrap().is_none());
    }
}

#[test]
fn empty_reader_waits() {
    let mut reader = FrameReader::new();
    assert!(reader.next_message().unwrap().is_none());
    reader.push(&[0, 0]);
    assert!(reader.next_message().unwrap().is_none());
}
