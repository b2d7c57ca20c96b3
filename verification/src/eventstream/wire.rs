//! The boundary to the EventStream frame codec: the frame and message types of
//! `aws-smithy-types` / `aws-smithy-eventstream`, what their contents are taken to be, and the
//! few operations of theirs that this library calls.

use aws_smithy_eventstream::frame::{write_message_to, DecodedFrame, MessageFrameDecoder};
use aws_smithy_types::event_stream::{Header, HeaderValue, Message};
use aws_smithy_types::str_bytes::StrBytes;
use bytes::{Bytes, BytesMut};
use vstd::prelude::*;

verus! {

/// An EventStream message: a list of typed headers and a payload.
#[verifier::external_type_specification]
#[verifier::external_body]
pub struct ExMessage(aws_smithy_types::event_stream::Message);

/// The streaming frame decoder of `aws-smithy-eventstream`.
#[verifier::external_type_specification]
#[verifier::external_body]
pub struct ExMessageFrameDecoder(aws_smithy_eventstream::frame::MessageFrameDecoder);

/// The growable byte buffer that incoming socket bytes are read into.
#[verifier::external_type_specification]
#[verifier::external_body]
pub struct ExBytesMut(bytes::BytesMut);

/// The value of an EventStream header, as the frame format defines it.
pub enum ValueModel {
    /// A boolean value.
    Bool(bool),
    /// A signed byte.
    Byte(i8),
    /// A 16-bit integer.
    Int16(i16),
    /// A 32-bit integer.
    Int32(i32),
    /// A 64-bit integer.
    Int64(i64),
    /// A byte array.
    ByteArray(Seq<u8>),
    /// A string.
    String(Seq<char>),
    /// A timestamp: seconds since the epoch and sub-second nanoseconds.
    Timestamp(i64, u32),
    /// A UUID.
    Uuid(u128),
}

/// An EventStream header: its name and value.
pub struct HeaderModel {
    /// The header name.
    pub name: Seq<char>,
    /// The header value.
    pub value: ValueModel,
}

/// The headers that a message holds, in order.
pub uninterp spec fn message_headers(m: Message) -> Seq<HeaderModel>;

/// The payload that a message holds.
pub uninterp spec fn message_payload(m: Message) -> Seq<u8>;

/// How the frame codec renders a header value in diagnostics (its `Debug` form).
pub uninterp spec fn value_debug_text(v: ValueModel) -> Seq<char>;

/// The bytes of the EventStream frame (prelude, headers, payload, checksums) that encode a
/// message with these headers and this payload; `None` where the format cannot hold them
/// (a header name or value too long, a timestamp out of range, a frame over 4 GiB).
pub uninterp spec fn frame_encoding(headers: Seq<HeaderModel>, payload: Seq<u8>) -> Option<Seq<u8>>;

/// The message (headers and payload) that the bytes of one whole EventStream frame decode to
/// (`read_message_from` on exactly those bytes); `None` for bytes that are not a valid frame
/// (bad checksums, lengths that do not add up, malformed headers).
pub uninterp spec fn frame_decoding(frame: Seq<u8>) -> Option<(Seq<HeaderModel>, Seq<u8>)>;

/// The bytes that a receive buffer holds.
pub uninterp spec fn buffered(b: BytesMut) -> Seq<u8>;

/// The prelude bytes that a frame decoder holds from earlier input (the first 12 bytes of a
/// frame whose rest has not arrived yet), or none.
pub uninterp spec fn held_prelude(d: MessageFrameDecoder) -> Seq<u8>;

/// The total-length field at the front of a frame: its first four bytes, big-endian.
pub open spec fn frame_len(s: Seq<u8>) -> int {
    s[0] as int * 16777216 + s[1] as int * 65536 + s[2] as int * 256 + s[3] as int
}

/// Not enough bytes yet for the frame at the front: fewer than a prelude, or fewer than its
/// (sensible) length field says.
pub open spec fn incomplete_frame(s: Seq<u8>) -> bool {
    s.len() < 12 || (frame_len(s) >= 12 && s.len() < frame_len(s))
}

/// A whole frame, as long as its length field says, stands at the front of these bytes.
pub open spec fn complete_frame(s: Seq<u8>) -> bool {
    s.len() >= 12 && frame_len(s) >= 12 && s.len() >= frame_len(s)
}

/// No header holds a timestamp.
pub open spec fn timestamp_free(hs: Seq<HeaderModel>) -> bool {
    forall|i: int| 0 <= i < hs.len() ==> !(#[trigger] hs[i].value is Timestamp)
}

/// A header value that this library puts on outgoing messages.
pub enum OutValue {
    /// An `Int32` header value.
    Int32(i32),
    /// A `String` header value.
    String(String),
}

impl OutValue {
    /// The header value that this outgoing value is.
    pub open spec fn model(&self) -> ValueModel {
        match self {
            OutValue::Int32(v) => ValueModel::Int32(*v),
            OutValue::String(s) => ValueModel::String(s@),
        }
    }
}

/// The part of an incoming header value that the RPC layer reads.
pub enum WireValue {
    /// A signed byte.
    Byte(i8),
    /// A 16-bit integer.
    Int16(i16),
    /// A 32-bit integer.
    Int32(i32),
    /// A 64-bit integer.
    Int64(i64),
    /// A string.
    String(String),
    /// Any other value type (boolean, byte array, timestamp, UUID).
    Other,
}

impl WireValue {
    /// This value is what the RPC layer reads of the header value `v`.
    pub open spec fn models(&self, v: ValueModel) -> bool {
        match self {
            WireValue::Byte(b) => v == ValueModel::Byte(*b),
            WireValue::Int16(x) => v == ValueModel::Int16(*x),
            WireValue::Int32(x) => v == ValueModel::Int32(*x),
            WireValue::Int64(x) => v == ValueModel::Int64(*x),
            WireValue::String(s) => v == ValueModel::String(s@),
            WireValue::Other => v is Bool || v is ByteArray || v is Timestamp || v is Uuid,
        }
    }
}

/// An incoming header as the RPC layer reads it: name, value, and the value's diagnostic text.
pub struct WireHeader {
    /// The header name.
    pub name: String,
    /// The header value.
    pub value: WireValue,
    /// The diagnostic rendering of the value.
    pub shown: String,
}

impl WireHeader {
    /// This is what the RPC layer reads of the header `h`.
    pub open spec fn models(&self, h: HeaderModel) -> bool {
        &&& self.name@ == h.name
        &&& self.value.models(h.value)
        &&& self.shown@ == value_debug_text(h.value)
    }
}

/// Creates a message with the given payload and no headers (`Message::new`).
#[verifier::external_body]
pub(crate) fn new_message(payload: Vec<u8>) -> (m: Message)
    ensures
        message_headers(m) == Seq::<HeaderModel>::empty(),
        message_payload(m) == payload@,
{
    Message::new(Bytes::from(payload))
}

/// Appends a header to a message (`Message::add_header`, with `Header::new`); the payload
/// and the earlier headers stay as they are.
#[verifier::external_body]
pub(crate) fn message_add_header(m: Message, name: &str, value: OutValue) -> (r: Message)
    ensures
        message_headers(r) == message_headers(m).push(HeaderModel { name: name@, value: value.model() }),
        message_payload(r) == message_payload(m),
{
    let value = match value {
        OutValue::Int32(v) => HeaderValue::Int32(v),
        OutValue::String(s) => HeaderValue::String(StrBytes::from(s)),
    };
    m.add_header(Header::new(name.to_owned(), value))
}

/// Reads out the headers of a message, in order (`Message::headers`).
#[verifier::external_body]
pub(crate) fn message_header_list(m: &Message) -> (hs: Vec<WireHeader>)
    ensures
        hs.len() == message_headers(*m).len(),
        forall|i: int| 0 <= i < hs.len() ==> (#[trigger] hs[i]).models(message_headers(*m)[i]),
        forall|i: int|
            0 <= i < hs.len() ==> (#[trigger] hs[i]).shown@ == value_debug_text(
                message_headers(*m)[i].value,
            ),
{
    m.headers().iter().map(|h| WireHeader {
        name: h.name().as_str().to_owned(),
        shown: format!("{:?}", h.value()),
        value: match h.value() {
            HeaderValue::Byte(v) => WireValue::Byte(*v),
            HeaderValue::Int16(v) => WireValue::Int16(*v),
            HeaderValue::Int32(v) => WireValue::Int32(*v),
            HeaderValue::Int64(v) => WireValue::Int64(*v),
            HeaderValue::String(s) => WireValue::String(s.as_str().to_owned()),
            _ => WireValue::Other,
        },
    }).collect()
}

/// Copies out the payload of a message (`Message::payload`).
#[verifier::external_body]
pub(crate) fn message_payload_bytes(m: &Message) -> (p: Vec<u8>)
    ensures
        p@ == message_payload(*m),
{
    m.payload().to_vec()
}

/// Encodes a message as one EventStream frame (`write_message_to`); on failure, the codec's
/// error text. A frame starts with its own total length (big-endian), is at least 16 bytes
/// long (prelude and trailing checksum), and reads back as the message it encodes where that
/// message holds no timestamp header (timestamps travel as whole milliseconds).
#[verifier::external_body]
pub(crate) fn encode_frame(m: &Message) -> (r: Result<Vec<u8>, String>)
    ensures
        r matches Ok(b) ==> frame_encoding(message_headers(*m), message_payload(*m)) == Some(b@),
        r is Err ==> frame_encoding(message_headers(*m), message_payload(*m)) is None,
        r matches Ok(b) ==> (b@.len() >= 16 && frame_len(b@) == b@.len()),
        r matches Ok(b) ==> (timestamp_free(message_headers(*m)) ==> frame_decoding(b@) == Some(
            (message_headers(*m), message_payload(*m)),
        )),
{
    let mut out: Vec<u8> = Vec::new();
    write_message_to(m, &mut out).map(|_| out).map_err(|e| e.to_string())
}

/// Creates a streaming frame decoder (`MessageFrameDecoder::new`); it holds no prelude yet.
#[verifier::external_body]
pub(crate) fn new_frame_decoder() -> (d: MessageFrameDecoder)
    ensures
        held_prelude(d) == Seq::<u8>::empty(),
{
    MessageFrameDecoder::new()
}

/// Creates an empty receive buffer (`BytesMut::with_capacity`).
#[verifier::external_body]
pub(crate) fn new_buffer(capacity: usize) -> (b: BytesMut)
    ensures
        buffered(b) == Seq::<u8>::empty(),
{
    BytesMut::with_capacity(capacity)
}

/// Appends received bytes to a buffer (`BytesMut::extend_from_slice`).
#[verifier::external_body]
pub(crate) fn buffer_extend(buf: &mut BytesMut, data: &[u8])
    ensures
        buffered(*final(buf)) == buffered(*old(buf)) + data@,
{
    buf.extend_from_slice(data)
}

/// Tries to decode the next complete frame from the bytes not yet consumed: the prelude the
/// decoder already holds followed by `buf` (`MessageFrameDecoder::decode_frame`).
///
/// - While fewer bytes are there than the frame's length field says (or fewer than a prelude),
///   it reports that more bytes are needed; it may move the prelude from `buf` into the decoder,
///   so the two together still hold the same bytes.
/// - When the whole frame is there and decodes, it hands back the message and consumes exactly
///   that frame, leaving the decoder holding nothing.
/// - A malformed frame is the codec's error text; what is left in `buf` and in the decoder is
///   not stated then (the decoder keeps its prelude when the length field is below 12).
#[verifier::external_body]
pub(crate) fn decode_frame(decoder: &mut MessageFrameDecoder, buf: &mut BytesMut) -> (r: Result<
    Option<Message>,
    String,
>)
    ensures
        incomplete_frame(held_prelude(*old(decoder)) + buffered(*old(buf))) ==> r matches Ok(None),
        r matches Ok(None) ==> (incomplete_frame(held_prelude(*old(decoder)) + buffered(*old(buf)))
            && held_prelude(*final(decoder)) + buffered(*final(buf)) == held_prelude(*old(decoder))
            + buffered(*old(buf))),
        r matches Ok(Some(m)) ==> ({
            let s = held_prelude(*old(decoder)) + buffered(*old(buf));
            &&& complete_frame(s)
            &&& frame_decoding(s.take(frame_len(s))) == Some((message_headers(m), message_payload(m)))
            &&& buffered(*final(buf)) == s.skip(frame_len(s))
            &&& held_prelude(*final(decoder)) == Seq::<u8>::empty()
        }),
        ({
            let s = held_prelude(*old(decoder)) + buffered(*old(buf));
            complete_frame(s) && frame_decoding(s.take(frame_len(s))) is Some
        }) ==> r matches Ok(Some(_)),
{
    match decoder.decode_frame(buf) {
        Ok(DecodedFrame::Complete(m)) => Ok(Some(m)),
        Ok(DecodedFrame::Incomplete) => Ok(None),
        Err(e) => Err(e.to_string()),
    }
}

} // verus!
