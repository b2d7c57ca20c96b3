//! AWS IoT Core MQTT pub/sub shapes (`PublishToIoTCore` / `SubscribeToIoTCore`), and the base64
//! text that binary payloads travel as.
//!
//! These reuse the nucleus's own MQTT connection to AWS IoT Core, so a component needs no
//! device certificate of its own, only an `aws.greengrass.ipc.mqttproxy` authorization policy
//! for the topics it uses.

use base64::Engine;
use vstd::prelude::*;

verus! {

/// The error of a malformed base64 text (`base64::DecodeError`), carried through unchanged.
#[verifier::external_type_specification]
#[verifier::external_body]
pub struct ExDecodeError(base64::DecodeError);

/// The character of a 6-bit value in the standard base64 alphabet (`A`-`Z`, `a`-`z`, `0`-`9`,
/// `+`, `/`).
pub open spec fn base64_char(v: int) -> char {
    if v < 26 {
        (65 + v) as char
    } else if v < 52 {
        (71 + v) as char
    } else if v < 62 {
        (v - 4) as char
    } else if v == 62 {
        '+'
    } else {
        '/'
    }
}

/// The standard, padded base64 text of `bytes` (RFC 4648): each group of three bytes as four
/// characters of six bits each; a last group of one or two bytes as two or three characters
/// (the missing low bits zero) followed by `==` or `=`.
pub open spec fn base64_standard_encode(bytes: Seq<u8>) -> Seq<char>
    decreases bytes.len(),
{
    if bytes.len() == 0 {
        Seq::<char>::empty()
    } else if bytes.len() == 1 {
        let b0 = bytes[0] as int;
        seq![base64_char(b0 / 4), base64_char((b0 % 4) * 16), '=', '=']
    } else if bytes.len() == 2 {
        let (b0, b1) = (bytes[0] as int, bytes[1] as int);
        seq![base64_char(b0 / 4), base64_char((b0 % 4) * 16 + b1 / 16), base64_char((b1 % 16) * 4), '=']
    } else {
        let (b0, b1, b2) = (bytes[0] as int, bytes[1] as int, bytes[2] as int);
        seq![
            base64_char(b0 / 4),
            base64_char((b0 % 4) * 16 + b1 / 16),
            base64_char((b1 % 16) * 4 + b2 / 64),
            base64_char(b2 % 64),
        ] + base64_standard_encode(bytes.skip(3))
    }
}

/// The bytes that a standard, padded base64 text stands for; `None` for text that is not
/// canonical standard base64.
pub uninterp spec fn base64_standard_decode(text: Seq<char>) -> Option<Seq<u8>>;

/// Encodes bytes as standard, padded base64 (`base64::engine::general_purpose::STANDARD`,
/// `Engine::encode`). The text decodes back to the bytes. The encoder panics only when the
/// length of its output overflows `usize`, which no slice that fits in memory reaches; the
/// bound in `requires` says so.
#[verifier::external_body]
pub(crate) fn base64_encode(bytes: &[u8]) -> (s: String)
    requires
        bytes@.len() <= isize::MAX,
    ensures
        s@ == base64_standard_encode(bytes@),
        base64_standard_decode(s@) == Some(bytes@),
{
    base64::engine::general_purpose::STANDARD.encode(bytes)
}

/// Decodes standard, padded base64 (`base64::engine::general_purpose::STANDARD`,
/// `Engine::decode`).
#[verifier::external_body]
pub(crate) fn base64_decode(text: &str) -> (r: Result<Vec<u8>, base64::DecodeError>)
    ensures
        r matches Ok(v) ==> base64_standard_decode(text@) == Some(v@),
        r is Err ==> base64_standard_decode(text@) is None,
{
    base64::engine::general_purpose::STANDARD.decode(text.as_bytes())
}

/// MQTT quality of service (`aws.greengrass#QOS`).
///
/// On the wire the Greengrass IPC service encodes QoS as the string form of the integer
/// (`"0"` / `"1"`), matching the AWS SDKs, not the symbolic name.
#[derive(Debug, Clone, Copy, PartialEq, Eq, Structural)]
pub enum QoS {
    /// QoS 0: delivered at most once.
    AtMostOnce,
    /// QoS 1: delivered at least once.
    AtLeastOnce,
}

/// The wire text of a QoS.
pub open spec fn qos_wire_text(q: QoS) -> Seq<char> {
    match q {
        QoS::AtMostOnce => "0"@,
        QoS::AtLeastOnce => "1"@,
    }
}

/// The QoS that a wire text stands for.
pub open spec fn qos_of_wire_text(s: Seq<char>) -> Option<QoS> {
    if s == "0"@ {
        Some(QoS::AtMostOnce)
    } else if s == "1"@ {
        Some(QoS::AtLeastOnce)
    } else {
        None
    }
}

impl QoS {
    /// The wire text of this QoS: `"0"` or `"1"`.
    pub fn wire_text(&self) -> (s: &'static str)
        ensures
            s@ == qos_wire_text(*self),
    {
        match self {
            QoS::AtMostOnce => "0",
            QoS::AtLeastOnce => "1",
        }
    }

    /// The QoS that a wire text stands for; `None` for any text but `"0"` and `"1"`.
    pub fn from_wire_text(s: &str) -> (q: Option<QoS>)
        ensures
            q == qos_of_wire_text(s@),
    {
        let s = s.to_owned();
        if s == "0".to_owned() {
            Some(QoS::AtMostOnce)
        } else if s == "1".to_owned() {
            Some(QoS::AtLeastOnce)
        } else {
            None
        }
    }
}

/// Reading back the wire text of a QoS gives that QoS.
pub proof fn lemma_qos_wire_roundtrip(q: QoS)
    ensures
        qos_of_wire_text(qos_wire_text(q)) == Some(q),
{
    reveal_strlit("0");
    reveal_strlit("1");
    assert("0"@[0] != "1"@[0]);
}

/// A binary blob, which travels as base64 text (the Smithy `Blob` wire encoding used by
/// Greengrass IPC).
#[derive(Debug, Clone, Default, PartialEq, Eq)]
pub struct Blob(pub Vec<u8>);

impl Blob {
    /// The base64 text that this blob travels as; it reads back as this blob.
    pub fn to_base64(&self) -> (s: String)
        requires
            self.0@.len() <= isize::MAX,
        ensures
            s@ == base64_standard_encode(self.0@),
            base64_standard_decode(s@) == Some(self.0@),
    {
        base64_encode(self.0.as_slice())
    }

    /// The blob that a base64 text stands for; the decoder's error for malformed text.
    pub fn from_base64(s: &str) -> (r: Result<Blob, base64::DecodeError>)
        ensures
            match base64_standard_decode(s@) {
                Some(b) => r matches Ok(x) && x.0@ == b,
                None => r is Err,
            },
    {
        match base64_decode(s) {
            Ok(v) => Ok(Blob(v)),
            Err(e) => Err(e),
        }
    }
}

/// Request for `PublishToIoTCore`.
#[derive(Debug, Clone)]
pub struct PublishToIoTCoreRequest {
    /// The topic to publish to; `topicName`.
    pub topic_name: String,
    /// The MQTT QoS to use; `qos`.
    pub qos: QoS,
    /// The message payload (base64-encoded blob on the wire); `payload`, omitted when `None`.
    pub payload: Option<Blob>,
}

/// Response for `PublishToIoTCore` (empty).
#[derive(Debug, Clone, Default)]
pub struct PublishToIoTCoreResponse {}

/// Request for `SubscribeToIoTCore`.
#[derive(Debug, Clone)]
pub struct SubscribeToIoTCoreRequest {
    /// The topic or topic filter to subscribe to (MQTT wildcards allowed); `topicName`.
    pub topic_name: String,
    /// The MQTT QoS to use; `qos`.
    pub qos: QoS,
}

/// Response for `SubscribeToIoTCore` (empty; messages arrive as a stream).
#[derive(Debug, Clone, Default)]
pub struct SubscribeToIoTCoreResponse {}

/// A single MQTT message (`aws.greengrass#MQTTMessage`).
#[derive(Debug, Clone)]
pub struct MqttMessage {
    /// The topic the message was published to; `topicName`.
    pub topic_name: String,
    /// The message payload (base64-decoded from the wire); `payload`.
    pub payload: Option<Blob>,
}

/// A streamed IoT Core message event (`aws.greengrass#IoTCoreMessage`).
#[derive(Debug, Clone)]
pub struct IoTCoreMessage {
    /// The MQTT message; `message`.
    pub message: Option<MqttMessage>,
}

} // verus!
