//! Building and interpreting Greengrass EventStream RPC messages on top of the EventStream
//! message of the frame codec.

use super::flags;
use super::headers::{
    CONTENT_TYPE, CONTENT_TYPE_JSON, MESSAGE_FLAGS, MESSAGE_TYPE, OPERATION, PROTOCOL_VERSION,
    SERVICE_MODEL_TYPE, STREAM_ID, VERSION,
};
use super::wire::{
    message_add_header, message_header_list, message_headers, message_payload,
    message_payload_bytes, new_message, value_debug_text, HeaderModel, OutValue, ValueModel,
    WireHeader, WireValue,
};
use super::{message_type_code, message_type_of, MessageType};
use crate::error::Error;
use crate::text::{decimal_string, decimal_text};
use aws_smithy_types::event_stream::Message;
use vstd::prelude::*;

verus! {

/// A parsed view of an EventStream RPC message: the RPC-level fields, plus the raw JSON
/// payload.
#[derive(Debug)]
pub struct RpcMessage {
    /// The `:message-type` of the message.
    pub message_type: MessageType,
    /// The `:message-flags` bits (`flags::NONE` when the header is absent).
    pub flags: i32,
    /// The `:stream-id` (0 when the header is absent).
    pub stream_id: i32,
    /// The `service-model-type` header, when it is present as a string.
    pub service_model_type: Option<String>,
    /// The raw payload.
    pub payload: Vec<u8>,
}

impl Clone for RpcMessage {
    fn clone(&self) -> (r: Self)
        ensures
            r@ == self@,
    {
        let service_model_type = match &self.service_model_type {
            Some(s) => Some(s.clone()),
            None => None,
        };
        RpcMessage {
            message_type: self.message_type,
            flags: self.flags,
            stream_id: self.stream_id,
            service_model_type,
            payload: self.payload.clone(),
        }
    }
}

/// The mathematical content of an [`RpcMessage`].
pub struct RpcModel {
    /// The message type.
    pub message_type: MessageType,
    /// The flag bits.
    pub flags: i32,
    /// The stream id.
    pub stream_id: i32,
    /// The service-model type.
    pub service_model_type: Option<Seq<char>>,
    /// The payload.
    pub payload: Seq<u8>,
}

/// The view of an optional string.
pub open spec fn opt_str_view(s: Option<String>) -> Option<Seq<char>> {
    match s {
        Some(x) => Some(x@),
        None => None,
    }
}

impl View for RpcMessage {
    type V = RpcModel;

    open spec fn view(&self) -> RpcModel {
        RpcModel {
            message_type: self.message_type,
            flags: self.flags,
            stream_id: self.stream_id,
            service_model_type: opt_str_view(self.service_model_type),
            payload: self.payload@,
        }
    }
}

/// A header whose value is an `Int32`.
pub open spec fn int32_header(name: Seq<char>, v: i32) -> HeaderModel {
    HeaderModel { name, value: ValueModel::Int32(v) }
}

/// A header whose value is a `String`.
pub open spec fn string_header(name: Seq<char>, s: Seq<char>) -> HeaderModel {
    HeaderModel { name, value: ValueModel::String(s) }
}

/// The headers of the `Connect` protocol message.
pub open spec fn connect_headers() -> Seq<HeaderModel> {
    seq![
        int32_header(MESSAGE_TYPE@, message_type_code(MessageType::Connect)),
        int32_header(MESSAGE_FLAGS@, flags::NONE),
        int32_header(STREAM_ID@, 0),
        string_header(VERSION@, PROTOCOL_VERSION@),
        string_header(CONTENT_TYPE@, CONTENT_TYPE_JSON@),
    ]
}

/// The headers of the first application message of an operation stream.
pub open spec fn activate_headers(
    stream_id: i32,
    operation: Seq<char>,
    service_model_type: Seq<char>,
) -> Seq<HeaderModel> {
    seq![
        int32_header(MESSAGE_TYPE@, message_type_code(MessageType::ApplicationMessage)),
        int32_header(MESSAGE_FLAGS@, flags::NONE),
        int32_header(STREAM_ID@, stream_id),
        string_header(CONTENT_TYPE@, CONTENT_TYPE_JSON@),
        string_header(OPERATION@, operation),
        string_header(SERVICE_MODEL_TYPE@, service_model_type),
    ]
}

/// The headers of a stream-terminating message.
pub open spec fn terminate_headers(stream_id: i32) -> Seq<HeaderModel> {
    seq![
        int32_header(MESSAGE_TYPE@, message_type_code(MessageType::ApplicationMessage)),
        int32_header(MESSAGE_FLAGS@, flags::TERMINATE_STREAM),
        int32_header(STREAM_ID@, stream_id),
    ]
}

/// The integer that a header holds, accepting the `Byte`, `Int16`, `Int32` and (in range)
/// `Int64` encodings; otherwise the framing error text.
pub open spec fn header_int(h: HeaderModel) -> Result<i32, Seq<char>> {
    match h.value {
        ValueModel::Int32(v) => Ok(v),
        ValueModel::Int16(v) => Ok(v as i32),
        ValueModel::Byte(v) => Ok(v as i32),
        ValueModel::Int64(v) => if i32::MIN <= v <= i32::MAX {
            Ok(v as i32)
        } else {
            Err("integer header "@ + h.name + " out of range"@)
        },
        _ => Err("expected integer header for "@ + h.name + ", got "@ + value_debug_text(h.value)),
    }
}

/// What has been read of the RPC headers so far.
pub struct HeaderScan {
    /// The last `:message-type` seen.
    pub message_type: Option<i32>,
    /// The last `:message-flags` seen (`flags::NONE` before any).
    pub flags: i32,
    /// The last `:stream-id` seen (0 before any).
    pub stream_id: i32,
    /// The last string `service-model-type` seen.
    pub service_model_type: Option<Seq<char>>,
}

/// The state before any header is read.
pub open spec fn scan_start() -> HeaderScan {
    HeaderScan { message_type: None, flags: flags::NONE, stream_id: 0, service_model_type: None }
}

/// Reads one header: the well-known integer headers must hold integers, a string
/// `service-model-type` is recorded, and every other header is skipped.
pub open spec fn scan_step(st: HeaderScan, h: HeaderModel) -> Result<HeaderScan, Seq<char>> {
    if h.name == MESSAGE_TYPE@ {
        match header_int(h) {
            Ok(v) => Ok(HeaderScan { message_type: Some(v), ..st }),
            Err(e) => Err(e),
        }
    } else if h.name == MESSAGE_FLAGS@ {
        match header_int(h) {
            Ok(v) => Ok(HeaderScan { flags: v, ..st }),
            Err(e) => Err(e),
        }
    } else if h.name == STREAM_ID@ {
        match header_int(h) {
            Ok(v) => Ok(HeaderScan { stream_id: v, ..st }),
            Err(e) => Err(e),
        }
    } else if h.name == SERVICE_MODEL_TYPE@ {
        match h.value {
            ValueModel::String(s) => Ok(HeaderScan { service_model_type: Some(s), ..st }),
            _ => Ok(st),
        }
    } else {
        Ok(st)
    }
}

/// Reads the headers in order; the first header that fails ends the scan with its error.
pub open spec fn scan_headers(hs: Seq<HeaderModel>) -> Result<HeaderScan, Seq<char>>
    decreases hs.len(),
{
    if hs.len() == 0 {
        Ok(scan_start())
    } else {
        match scan_headers(hs.drop_last()) {
            Ok(st) => scan_step(st, hs.last()),
            Err(e) => Err(e),
        }
    }
}

/// The RPC message that a message with these headers and payload is, or the framing error
/// text for it.
pub open spec fn parse_rpc(hs: Seq<HeaderModel>, payload: Seq<u8>) -> Result<RpcModel, Seq<char>> {
    match scan_headers(hs) {
        Err(e) => Err(e),
        Ok(st) => match st.message_type {
            None => Err("message missing :message-type header"@),
            Some(raw) => match message_type_of(raw) {
                None => Err("unknown :message-type value "@ + decimal_text(raw as int)),
                Some(t) => Ok(
                    RpcModel {
                        message_type: t,
                        flags: st.flags,
                        stream_id: st.stream_id,
                        service_model_type: st.service_model_type,
                        payload,
                    },
                ),
            },
        },
    }
}

/// Once a prefix of the headers fails to scan, the whole list fails with the same error.
proof fn lemma_scan_error_persists(hs: Seq<HeaderModel>, k: int)
    requires
        0 <= k <= hs.len(),
        scan_headers(hs.take(k)) is Err,
    ensures
        scan_headers(hs) == scan_headers(hs.take(k)),
    decreases hs.len() - k,
{
    if k < hs.len() {
        assert(hs.take(k + 1).drop_last() =~= hs.take(k));
        lemma_scan_error_persists(hs, k + 1);
    } else {
        assert(hs.take(k) =~= hs);
    }
}

/// The integer read of an incoming header, over what the RPC layer reads of it.
pub open spec fn wire_int(h: WireHeader) -> Result<i32, Seq<char>> {
    match h.value {
        WireValue::Int32(v) => Ok(v),
        WireValue::Int16(v) => Ok(v as i32),
        WireValue::Byte(v) => Ok(v as i32),
        WireValue::Int64(v) => if i32::MIN <= v <= i32::MAX {
            Ok(v as i32)
        } else {
            Err("integer header "@ + h.name@ + " out of range"@)
        },
        _ => Err("expected integer header for "@ + h.name@ + ", got "@ + h.shown@),
    }
}

proof fn lemma_wire_int(h: WireHeader, m: HeaderModel)
    requires
        h.models(m),
    ensures
        wire_int(h) == header_int(m),
{
}

/// Reads an integer header value, accepting the signed integer header encodings the wire may
/// use for `:message-type` / `:message-flags` / `:stream-id`.
fn header_i32(header: &WireHeader) -> (res: Result<i32, Error>)
    ensures
        match wire_int(*header) {
            Ok(v) => res == Ok::<i32, Error>(v),
            Err(msg) => res matches Err(Error::Frame(s)) && s@ == msg,
        },
{
    match &header.value {
        WireValue::Int32(v) => Ok(*v),
        WireValue::Int16(v) => Ok(*v as i32),
        WireValue::Byte(v) => Ok(*v as i32),
        WireValue::Int64(v) => {
            if i32::MIN as i64 <= *v && *v <= i32::MAX as i64 {
                Ok(*v as i32)
            } else {
                let mut s = "integer header ".to_owned();
                s.append(header.name.as_str());
                s.append(" out of range");
                Err(Error::frame(s))
            }
        },
        _ => {
            let mut s = "expected integer header for ".to_owned();
            s.append(header.name.as_str());
            s.append(", got ");
            s.append(header.shown.as_str());
            Err(Error::frame(s))
        },
    }
}

impl RpcMessage {
    /// Whether the `TERMINATE_STREAM` flag is set.
    pub fn terminates_stream(&self) -> (b: bool)
        ensures
            b == (self.flags & flags::TERMINATE_STREAM != 0),
    {
        self.flags & flags::TERMINATE_STREAM != 0
    }

    /// Whether the `CONNECTION_ACCEPTED` flag is set.
    pub fn connection_accepted(&self) -> (b: bool)
        ensures
            b == (self.flags & flags::CONNECTION_ACCEPTED != 0),
    {
        self.flags & flags::CONNECTION_ACCEPTED != 0
    }

    /// Builds the `Connect` protocol message carrying the auth token payload.
    pub fn connect(payload: Vec<u8>) -> (m: Message)
        ensures
            message_headers(m) == connect_headers(),
            message_payload(m) == payload@,
    {
        let m = new_message(payload);
        let m = message_add_header(m, MESSAGE_TYPE, OutValue::Int32(MessageType::Connect.to_i32()));
        let m = message_add_header(m, MESSAGE_FLAGS, OutValue::Int32(flags::NONE));
        let m = message_add_header(m, STREAM_ID, OutValue::Int32(0));
        let m = message_add_header(m, VERSION, OutValue::String(PROTOCOL_VERSION.to_owned()));
        let m = message_add_header(m, CONTENT_TYPE, OutValue::String(CONTENT_TYPE_JSON.to_owned()));
        assert(message_headers(m) =~= connect_headers());
        m
    }

    /// Builds the first application message of an operation stream ("activate").
    pub fn activate(stream_id: i32, operation: &str, service_model_type: &str, payload: Vec<u8>) -> (m:
        Message)
        ensures
            message_headers(m) == activate_headers(stream_id, operation@, service_model_type@),
            message_payload(m) == payload@,
    {
        let m = new_message(payload);
        let m = message_add_header(
            m,
            MESSAGE_TYPE,
            OutValue::Int32(MessageType::ApplicationMessage.to_i32()),
        );
        let m = message_add_header(m, MESSAGE_FLAGS, OutValue::Int32(flags::NONE));
        let m = message_add_header(m, STREAM_ID, OutValue::Int32(stream_id));
        let m = message_add_header(m, CONTENT_TYPE, OutValue::String(CONTENT_TYPE_JSON.to_owned()));
        let m = message_add_header(m, OPERATION, OutValue::String(operation.to_owned()));
        let m = message_add_header(
            m,
            SERVICE_MODEL_TYPE,
            OutValue::String(service_model_type.to_owned()),
        );
        assert(message_headers(m) =~= activate_headers(stream_id, operation@, service_model_type@));
        m
    }

    /// Builds a stream-terminating message (used to unsubscribe / close an operation stream).
    pub fn terminate(stream_id: i32) -> (m: Message)
        ensures
            message_headers(m) == terminate_headers(stream_id),
            message_payload(m) == Seq::<u8>::empty(),
    {
        let m = new_message(Vec::new());
        let m = message_add_header(
            m,
            MESSAGE_TYPE,
            OutValue::Int32(MessageType::ApplicationMessage.to_i32()),
        );
        let m = message_add_header(m, MESSAGE_FLAGS, OutValue::Int32(flags::TERMINATE_STREAM));
        let m = message_add_header(m, STREAM_ID, OutValue::Int32(stream_id));
        assert(message_headers(m) =~= terminate_headers(stream_id));
        m
    }

    /// Parses an [`RpcMessage`] out of a decoded message.
    pub fn parse(message: &Message) -> (res: Result<RpcMessage, Error>)
        ensures
            match parse_rpc(message_headers(*message), message_payload(*message)) {
                Ok(r) => res matches Ok(x) && x@ == r,
                Err(msg) => res matches Err(Error::Frame(s)) && s@ == msg,
            },
    {
        let ghost hs = message_headers(*message);
        let list = message_header_list(message);
        let names = HeaderNames::new();
        let mut st = ScanState {
            message_type: None,
            flags: flags::NONE,
            stream_id: 0,
            service_model_type: None,
        };
        let mut i: usize = 0;
        while i < list.len()
            invariant
                i <= list.len(),
                hs == message_headers(*message),
                list.len() == hs.len(),
                forall|j: int| 0 <= j < list.len() ==> (#[trigger] list[j]).models(hs[j]),
                names.wf(),
                scan_headers(hs.take(i as int)) == Ok::<HeaderScan, Seq<char>>(st@),
            decreases list.len() - i,
        {
            proof {
                assert(hs.take(i + 1).drop_last() =~= hs.take(i as int));
                assert(hs.take(i + 1).last() == hs[i as int]);
                lemma_scan_step_wire(st@, list[i as int], hs[i as int]);
            }
            match st.scan_one(&list[i], &names) {
                Ok(()) => {},
                Err(e) => {
                    proof {
                        lemma_scan_error_persists(hs, i + 1);
                    }
                    return Err(e);
                },
            }
            i = i + 1;
        }
        proof {
            assert(hs.take(list.len() as int) =~= hs);
        }
        let raw_type = match st.message_type {
            Some(t) => t,
            None => {
                return Err(Error::frame("message missing :message-type header".to_owned()));
            },
        };
        let message_type = match MessageType::from_i32(raw_type) {
            Some(t) => t,
            None => {
                let mut s = "unknown :message-type value ".to_owned();
                let digits = decimal_string(raw_type as i64);
                s.append(digits.as_str());
                return Err(Error::frame(s));
            },
        };
        Ok(RpcMessage {
            message_type,
            flags: st.flags,
            stream_id: st.stream_id,
            service_model_type: st.service_model_type,
            payload: message_payload_bytes(message),
        })
    }
}

/// The names of the headers that the RPC layer reads.
struct HeaderNames {
    message_type: String,
    flags: String,
    stream_id: String,
    service_model_type: String,
}

impl HeaderNames {
    spec fn wf(&self) -> bool {
        &&& self.message_type@ == MESSAGE_TYPE@
        &&& self.flags@ == MESSAGE_FLAGS@
        &&& self.stream_id@ == STREAM_ID@
        &&& self.service_model_type@ == SERVICE_MODEL_TYPE@
    }

    fn new() -> (n: HeaderNames)
        ensures
            n.wf(),
    {
        HeaderNames {
            message_type: MESSAGE_TYPE.to_owned(),
            flags: MESSAGE_FLAGS.to_owned(),
            stream_id: STREAM_ID.to_owned(),
            service_model_type: SERVICE_MODEL_TYPE.to_owned(),
        }
    }
}

/// What has been read of the RPC headers so far, during a parse.
struct ScanState {
    message_type: Option<i32>,
    flags: i32,
    stream_id: i32,
    service_model_type: Option<String>,
}

impl View for ScanState {
    type V = HeaderScan;

    closed spec fn view(&self) -> HeaderScan {
        HeaderScan {
            message_type: self.message_type,
            flags: self.flags,
            stream_id: self.stream_id,
            service_model_type: opt_str_view(self.service_model_type),
        }
    }
}

/// [`scan_step`] over what the RPC layer reads of an incoming header.
spec fn scan_step_wire(st: HeaderScan, h: WireHeader) -> Result<HeaderScan, Seq<char>> {
    if h.name@ == MESSAGE_TYPE@ {
        match wire_int(h) {
            Ok(v) => Ok(HeaderScan { message_type: Some(v), ..st }),
            Err(e) => Err(e),
        }
    } else if h.name@ == MESSAGE_FLAGS@ {
        match wire_int(h) {
            Ok(v) => Ok(HeaderScan { flags: v, ..st }),
            Err(e) => Err(e),
        }
    } else if h.name@ == STREAM_ID@ {
        match wire_int(h) {
            Ok(v) => Ok(HeaderScan { stream_id: v, ..st }),
            Err(e) => Err(e),
        }
    } else if h.name@ == SERVICE_MODEL_TYPE@ {
        match h.value {
            WireValue::String(s) => Ok(HeaderScan { service_model_type: Some(s@), ..st }),
            _ => Ok(st),
        }
    } else {
        Ok(st)
    }
}

proof fn lemma_scan_step_wire(st: HeaderScan, h: WireHeader, m: HeaderModel)
    requires
        h.models(m),
    ensures
        scan_step_wire(st, h) == scan_step(st, m),
{
    lemma_wire_int(h, m);
}

impl ScanState {
    fn scan_one(&mut self, header: &WireHeader, names: &HeaderNames) -> (r: Result<(), Error>)
        requires
            names.wf(),
        ensures
            match scan_step_wire(old(self)@, *header) {
                Ok(st) => r is Ok && final(self)@ == st,
                Err(msg) => r matches Err(Error::Frame(s)) && s@ == msg,
            },
    {
        if header.name == names.message_type {
            let v = header_i32(header)?;
            self.message_type = Some(v);
        } else if header.name == names.flags {
            let v = header_i32(header)?;
            self.flags = v;
        } else if header.name == names.stream_id {
            let v = header_i32(header)?;
            self.stream_id = v;
        } else if header.name == names.service_model_type {
            if let WireValue::String(s) = &header.value {
                self.service_model_type = Some(s.clone());
            }
        }
        Ok(())
    }
}

/// The well-known header names are pairwise different.
proof fn lemma_header_names_distinct()
    ensures
        MESSAGE_TYPE@ != MESSAGE_FLAGS@,
        MESSAGE_TYPE@ != STREAM_ID@,
        MESSAGE_TYPE@ != SERVICE_MODEL_TYPE@,
        MESSAGE_FLAGS@ != STREAM_ID@,
        MESSAGE_FLAGS@ != SERVICE_MODEL_TYPE@,
        STREAM_ID@ != SERVICE_MODEL_TYPE@,
        VERSION@ != MESSAGE_TYPE@,
        VERSION@ != MESSAGE_FLAGS@,
        VERSION@ != STREAM_ID@,
        VERSION@ != SERVICE_MODEL_TYPE@,
        CONTENT_TYPE@ != MESSAGE_TYPE@,
        CONTENT_TYPE@ != MESSAGE_FLAGS@,
        CONTENT_TYPE@ != STREAM_ID@,
        CONTENT_TYPE@ != SERVICE_MODEL_TYPE@,
        OPERATION@ != MESSAGE_TYPE@,
        OPERATION@ != MESSAGE_FLAGS@,
        OPERATION@ != STREAM_ID@,
        OPERATION@ != SERVICE_MODEL_TYPE@,
{
    reveal_strlit(":message-type");
    reveal_strlit(":message-flags");
    reveal_strlit(":stream-id");
    reveal_strlit("service-model-type");
    reveal_strlit(":version");
    reveal_strlit(":content-type");
    reveal_strlit("operation");
    assert(CONTENT_TYPE@[1] != MESSAGE_TYPE@[1]);
    assert(MESSAGE_TYPE@.len() == 13);
    assert(MESSAGE_FLAGS@.len() == 14);
    assert(STREAM_ID@.len() == 10);
    assert(SERVICE_MODEL_TYPE@.len() == 18);
    assert(VERSION@.len() == 8);
    assert(CONTENT_TYPE@.len() == 13);
    assert(OPERATION@.len() == 9);
}

/// Parsing the `Connect` message gives back a `Connect` protocol message on stream 0 with no
/// flags and the payload it was built with.
pub proof fn lemma_parse_connect(payload: Seq<u8>)
    ensures
        parse_rpc(connect_headers(), payload) == Ok::<RpcModel, Seq<char>>(
            RpcModel {
                message_type: MessageType::Connect,
                flags: flags::NONE,
                stream_id: 0,
                service_model_type: None,
                payload,
            },
        ),
{
    lemma_header_names_distinct();
    let hs = connect_headers();
    reveal_with_fuel(scan_headers, 6);
    assert(hs.drop_last() =~= hs.take(4));
    assert(hs.take(4).drop_last() =~= hs.take(3));
    assert(hs.take(3).drop_last() =~= hs.take(2));
    assert(hs.take(2).drop_last() =~= hs.take(1));
    assert(hs.take(1).drop_last() =~= Seq::<HeaderModel>::empty());
}

/// Parsing the first message of an operation stream gives back an application message on that
/// stream, with no flags, the request's service-model type, and the payload it was built with.
pub proof fn lemma_parse_activate(
    stream_id: i32,
    operation: Seq<char>,
    service_model_type: Seq<char>,
    payload: Seq<u8>,
)
    ensures
        parse_rpc(activate_headers(stream_id, operation, service_model_type), payload) == Ok::<
            RpcModel,
            Seq<char>,
        >(
            RpcModel {
                message_type: MessageType::ApplicationMessage,
                flags: flags::NONE,
                stream_id,
                service_model_type: Some(service_model_type),
                payload,
            },
        ),
{
    lemma_header_names_distinct();
    let hs = activate_headers(stream_id, operation, service_model_type);
    reveal_with_fuel(scan_headers, 7);
    assert(hs.drop_last() =~= hs.take(5));
    assert(hs.take(5).drop_last() =~= hs.take(4));
    assert(hs.take(4).drop_last() =~= hs.take(3));
    assert(hs.take(3).drop_last() =~= hs.take(2));
    assert(hs.take(2).drop_last() =~= hs.take(1));
    assert(hs.take(1).drop_last() =~= Seq::<HeaderModel>::empty());
}

/// Parsing a stream-terminating message gives back an application message on that stream
/// with exactly the `TERMINATE_STREAM` flag and an empty payload.
pub proof fn lemma_parse_terminate(stream_id: i32)
    ensures
        parse_rpc(terminate_headers(stream_id), Seq::<u8>::empty()) == Ok::<RpcModel, Seq<char>>(
            RpcModel {
                message_type: MessageType::ApplicationMessage,
                flags: flags::TERMINATE_STREAM,
                stream_id,
                service_model_type: None,
                payload: Seq::<u8>::empty(),
            },
        ),
{
    lemma_header_names_distinct();
    let hs = terminate_headers(stream_id);
    reveal_with_fuel(scan_headers, 4);
    assert(hs.drop_last() =~= hs.take(2));
    assert(hs.take(2).drop_last() =~= hs.take(1));
    assert(hs.take(1).drop_last() =~= Seq::<HeaderModel>::empty());
}

/// The last header named `name`, if there is one.
pub open spec fn last_header(hs: Seq<HeaderModel>, name: Seq<char>) -> Option<HeaderModel>
    decreases hs.len(),
{
    if hs.len() == 0 {
        None
    } else if hs.last().name == name {
        Some(hs.last())
    } else {
        last_header(hs.drop_last(), name)
    }
}

/// The string held by the last header named `name` that holds a string, if there is one.
pub open spec fn last_string(hs: Seq<HeaderModel>, name: Seq<char>) -> Option<Seq<char>>
    decreases hs.len(),
{
    if hs.len() == 0 {
        None
    } else {
        match hs.last().value {
            ValueModel::String(s) => if hs.last().name == name {
                Some(s)
            } else {
                last_string(hs.drop_last(), name)
            },
            _ => last_string(hs.drop_last(), name),
        }
    }
}

/// What a successful header scan holds, read off the header list directly.
proof fn lemma_scan_reads_last(hs: Seq<HeaderModel>)
    ensures
        scan_headers(hs) matches Ok(st) ==> {
            &&& match last_header(hs, MESSAGE_TYPE@) {
                None => st.message_type is None,
                Some(h) => header_int(h) matches Ok(v) && st.message_type == Some(v),
            }
            &&& match last_header(hs, MESSAGE_FLAGS@) {
                None => st.flags == flags::NONE,
                Some(h) => header_int(h) == Ok::<i32, Seq<char>>(st.flags),
            }
            &&& match last_header(hs, STREAM_ID@) {
                None => st.stream_id == 0,
                Some(h) => header_int(h) == Ok::<i32, Seq<char>>(st.stream_id),
            }
            &&& st.service_model_type == last_string(hs, SERVICE_MODEL_TYPE@)
        },
    decreases hs.len(),
{
    lemma_header_names_distinct();
    if hs.len() > 0 {
        lemma_scan_reads_last(hs.drop_last());
    }
}

/// Headers named `:message-type`, `:message-flags` or `:stream-id` that hold `Int32` values
/// always scan.
proof fn lemma_scan_int32_headers_ok(hs: Seq<HeaderModel>)
    requires
        forall|i: int|
            0 <= i < hs.len() && (hs[i].name == MESSAGE_TYPE@ || hs[i].name == MESSAGE_FLAGS@
                || hs[i].name == STREAM_ID@) ==> #[trigger] hs[i].value is Int32,
    ensures
        scan_headers(hs) is Ok,
    decreases hs.len(),
{
    if hs.len() > 0 {
        let init = hs.drop_last();
        assert forall|i: int|
            0 <= i < init.len() && (init[i].name == MESSAGE_TYPE@ || init[i].name == MESSAGE_FLAGS@
                || init[i].name == STREAM_ID@) implies #[trigger] init[i].value is Int32 by {
            assert(init[i] == hs[i]);
        }
        lemma_scan_int32_headers_ok(init);
        assert(hs.last() == hs[hs.len() - 1]);
    }
}

/// Parsing reads each RPC field off the last header of its name, whatever the other headers
/// are: the message type is the one whose wire code the last `:message-type` header holds
/// (so a `1` is an application error), the flags and the stream-id are what the last
/// `:message-flags` and `:stream-id` headers hold (0 without one), the service-model type is
/// the last string that a `service-model-type` header holds, and the payload is the message's.
pub proof fn lemma_parse_reads_headers(hs: Seq<HeaderModel>, payload: Seq<u8>)
    ensures
        parse_rpc(hs, payload) matches Ok(r) ==> {
            &&& r.payload == payload
            &&& last_header(hs, ":message-type"@) matches Some(h) && header_int(h) == Ok::<
                i32,
                Seq<char>,
            >(message_type_code(r.message_type))
            &&& match last_header(hs, ":message-type"@) {
                Some(h) => match h.value {
                    ValueModel::Int32(v) => message_type_code(r.message_type) == v,
                    _ => true,
                },
                None => true,
            }
            &&& match last_header(hs, ":message-flags"@) {
                None => r.flags == 0,
                Some(h) => header_int(h) == Ok::<i32, Seq<char>>(r.flags),
            }
            &&& match last_header(hs, ":stream-id"@) {
                None => r.stream_id == 0,
                Some(h) => header_int(h) == Ok::<i32, Seq<char>>(r.stream_id),
            }
            &&& match last_header(hs, ":message-flags"@) {
                Some(h) => match h.value {
                    ValueModel::Int32(v) => r.flags == v,
                    _ => true,
                },
                None => true,
            }
            &&& match last_header(hs, ":stream-id"@) {
                Some(h) => match h.value {
                    ValueModel::Int32(v) => r.stream_id == v,
                    _ => true,
                },
                None => true,
            }
            &&& r.service_model_type == last_string(hs, "service-model-type"@)
        },
{
    lemma_scan_reads_last(hs);
    if let Ok(st) = scan_headers(hs) {
        if let Some(raw) = st.message_type {
            super::lemma_message_type_code_roundtrip(MessageType::Ping, raw);
        }
    }
}

/// A message whose `:message-type`, `:message-flags` and `:stream-id` headers all hold `Int32`
/// values, the last `:message-type` one a wire code from 0 to 7, always parses.
pub proof fn lemma_parse_succeeds(hs: Seq<HeaderModel>, payload: Seq<u8>, v: i32)
    requires
        forall|i: int|
            0 <= i < hs.len() && (hs[i].name == ":message-type"@ || hs[i].name == ":message-flags"@
                || hs[i].name == ":stream-id"@) ==> #[trigger] hs[i].value is Int32,
        last_header(hs, ":message-type"@) matches Some(h) && h.value == ValueModel::Int32(v),
        0 <= v <= 7,
    ensures
        parse_rpc(hs, payload) is Ok,
{
    lemma_scan_int32_headers_ok(hs);
    lemma_scan_reads_last(hs);
}

/// An integer header reads as the integer its value holds, whichever of the `Byte`, `Int16`,
/// `Int32` or `Int64` encodings carries it; an `Int64` reads only when the integer fits in 32
/// bits, and a value of any other type does not read.
pub proof fn lemma_header_int_value(h: HeaderModel)
    ensures
        header_int(h) is Ok <==> match h.value {
            ValueModel::Byte(_) | ValueModel::Int16(_) | ValueModel::Int32(_) => true,
            ValueModel::Int64(x) => -2147483648 <= x <= 2147483647,
            _ => false,
        },
        header_int(h) matches Ok(v) ==> match h.value {
            ValueModel::Byte(x) => v as int == x as int,
            ValueModel::Int16(x) => v as int == x as int,
            ValueModel::Int32(x) => v as int == x as int,
            ValueModel::Int64(x) => v as int == x as int,
            _ => false,
        },
{
}

/// The headers of the `Connect` message, as they go on the wire.
pub proof fn lemma_connect_headers_on_wire()
    ensures
        connect_headers() == seq![
            (HeaderModel { name: ":message-type"@, value: ValueModel::Int32(4) }),
            (HeaderModel { name: ":message-flags"@, value: ValueModel::Int32(0) }),
            (HeaderModel { name: ":stream-id"@, value: ValueModel::Int32(0) }),
            (HeaderModel { name: ":version"@, value: ValueModel::String("0.1.0"@) }),
            (HeaderModel { name: ":content-type"@, value: ValueModel::String("application/json"@) }),
        ],
{
    assert(connect_headers() =~= seq![
        (HeaderModel { name: ":message-type"@, value: ValueModel::Int32(4) }),
        (HeaderModel { name: ":message-flags"@, value: ValueModel::Int32(0) }),
        (HeaderModel { name: ":stream-id"@, value: ValueModel::Int32(0) }),
        (HeaderModel { name: ":version"@, value: ValueModel::String("0.1.0"@) }),
        (HeaderModel { name: ":content-type"@, value: ValueModel::String("application/json"@) }),
    ]);
}

/// The headers of the first message of an operation stream, as they go on the wire: an
/// application message (type 0) with no flags on the given stream, JSON content, the
/// operation name and the request's service-model type.
pub proof fn lemma_activate_headers_on_wire(
    stream_id: i32,
    operation: Seq<char>,
    service_model_type: Seq<char>,
)
    ensures
        activate_headers(stream_id, operation, service_model_type) == seq![
            (HeaderModel { name: ":message-type"@, value: ValueModel::Int32(0) }),
            (HeaderModel { name: ":message-flags"@, value: ValueModel::Int32(0) }),
            (HeaderModel { name: ":stream-id"@, value: ValueModel::Int32(stream_id) }),
            (HeaderModel { name: ":content-type"@, value: ValueModel::String("application/json"@) }),
            (HeaderModel { name: "operation"@, value: ValueModel::String(operation) }),
            (HeaderModel { name: "service-model-type"@, value: ValueModel::String(service_model_type) }),
        ],
{
    assert(activate_headers(stream_id, operation, service_model_type) =~= seq![
        (HeaderModel { name: ":message-type"@, value: ValueModel::Int32(0) }),
        (HeaderModel { name: ":message-flags"@, value: ValueModel::Int32(0) }),
        (HeaderModel { name: ":stream-id"@, value: ValueModel::Int32(stream_id) }),
        (HeaderModel { name: ":content-type"@, value: ValueModel::String("application/json"@) }),
        (HeaderModel { name: "operation"@, value: ValueModel::String(operation) }),
        (HeaderModel { name: "service-model-type"@, value: ValueModel::String(service_model_type) }),
    ]);
}

/// The headers of a stream-terminating message, as they go on the wire: an application
/// message (type 0) with the `TERMINATE_STREAM` flag (2) on the given stream.
pub proof fn lemma_terminate_headers_on_wire(stream_id: i32)
    ensures
        terminate_headers(stream_id) == seq![
            (HeaderModel { name: ":message-type"@, value: ValueModel::Int32(0) }),
            (HeaderModel { name: ":message-flags"@, value: ValueModel::Int32(2) }),
            (HeaderModel { name: ":stream-id"@, value: ValueModel::Int32(stream_id) }),
        ],
{
    assert(terminate_headers(stream_id) =~= seq![
        (HeaderModel { name: ":message-type"@, value: ValueModel::Int32(0) }),
        (HeaderModel { name: ":message-flags"@, value: ValueModel::Int32(2) }),
        (HeaderModel { name: ":stream-id"@, value: ValueModel::Int32(stream_id) }),
    ]);
}

} // verus!
