//! Local publish/subscribe (component-to-component) shapes.

use super::iotcore::{base64_decode, base64_encode, base64_standard_decode, base64_standard_encode};
use serde_json::Value;
use vstd::prelude::*;

verus! {

/// Contextual information about a received message (`aws.greengrass#MessageContext`).
#[derive(Debug, Clone)]
pub struct MessageContext {
    /// The topic the message was published to; `topic`.
    pub topic: String,
}

/// A binary local pub/sub message (`aws.greengrass#BinaryMessage`).
#[derive(Debug, Clone)]
pub struct BinaryMessage {
    /// The raw message bytes.
    pub message: Vec<u8>,
    /// The context of the message (topic).
    pub context: Option<MessageContext>,
}

/// A JSON local pub/sub message (`aws.greengrass#JsonMessage`).
#[derive(Debug, Clone)]
pub struct JsonMessage {
    /// The JSON message object; `message`.
    pub message: Option<Value>,
    /// The context of the message (topic); `context`.
    pub context: Option<MessageContext>,
}

/// A message to publish to a local topic (`aws.greengrass#PublishMessage`, a tagged union).
/// Set exactly one variant.
#[derive(Debug, Clone)]
pub struct PublishMessage {
    /// A JSON message; `jsonMessage`, omitted when `None`.
    pub json_message: Option<JsonMessageOut>,
    /// A binary message (base64-encoded on the wire); `binaryMessage`, omitted when `None`.
    pub binary_message: Option<BinaryMessageOut>,
}

/// Outbound JSON message content.
#[derive(Debug, Clone)]
pub struct JsonMessageOut {
    /// The JSON message object; `message`.
    pub message: Value,
}

/// Outbound binary message content; on the wire an object whose `message` is the base64 text
/// of the bytes.
#[derive(Debug, Clone)]
pub struct BinaryMessageOut {
    /// The raw message bytes.
    pub message: Vec<u8>,
}

impl BinaryMessageOut {
    /// The base64 text that the message bytes travel as; it reads back as those bytes.
    pub fn encoded_message(&self) -> (s: String)
        requires
            self.message@.len() <= isize::MAX,
        ensures
            s@ == base64_standard_encode(self.message@),
            base64_standard_decode(s@) == Some(self.message@),
    {
        base64_encode(self.message.as_slice())
    }
}

/// Request for `PublishToTopic`.
#[derive(Debug, Clone)]
pub struct PublishToTopicRequest {
    /// The topic to publish to; `topic`.
    pub topic: String,
    /// The message to publish; `publishMessage`.
    pub publish_message: PublishMessage,
}

/// Response for `PublishToTopic` (empty).
#[derive(Debug, Clone, Default)]
pub struct PublishToTopicResponse {}

/// Request for `SubscribeToTopic`.
#[derive(Debug, Clone)]
pub struct SubscribeToTopicRequest {
    /// The topic (filter) to subscribe to; `topic`.
    pub topic: String,
    /// Whether to receive messages published by this component too; `receiveMode`, omitted
    /// when `None`.
    pub receive_mode: Option<String>,
}

/// Response for `SubscribeToTopic`.
#[derive(Debug, Clone, Default)]
pub struct SubscribeToTopicResponse {
    /// The topic the subscription was established for; `topicName`.
    pub topic_name: Option<String>,
}

/// A streamed local pub/sub message (`aws.greengrass#SubscriptionResponseMessage`, a tagged
/// union).
#[derive(Debug, Clone)]
pub struct SubscriptionResponseMessage {
    /// A JSON message; `jsonMessage`.
    pub json_message: Option<JsonMessage>,
    /// A binary message (base64-decoded from the wire); `binaryMessage`.
    pub binary_message: Option<BinaryMessageIn>,
}

/// Inbound binary message content (base64-decoded from the wire).
#[derive(Debug, Clone)]
pub struct BinaryMessageIn {
    /// The raw message bytes.
    pub message: Vec<u8>,
    /// The context of the message (topic).
    pub context: Option<MessageContext>,
}

impl BinaryMessageIn {
    /// Builds the inbound message from its wire fields: the base64 text of the bytes (absent
    /// means no bytes) and the context. Malformed base64 is the decoder's error.
    pub fn from_wire(message: Option<String>, context: Option<MessageContext>) -> (r: Result<
        BinaryMessageIn,
        base64::DecodeError,
    >)
        ensures
            message is None ==> (r matches Ok(m) && m.message@ == Seq::<u8>::empty()
                && m.context == context),
            message matches Some(text) ==> match base64_standard_decode(text@) {
                Some(b) => r matches Ok(m) && m.message@ == b && m.context == context,
                None => r is Err,
            },
    {
        let bytes = match message {
            Some(text) => match base64_decode(text.as_str()) {
                Ok(b) => b,
                Err(e) => {
                    return Err(e);
                },
            },
            None => Vec::new(),
        };
        Ok(BinaryMessageIn { message: bytes, context })
    }
}

} // verus!
