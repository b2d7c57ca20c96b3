//! EventStream RPC layer for Greengrass IPC: message types, message flags, the well-known
//! headers, and the RPC view of a decoded message.

pub mod codec;
pub mod flags;
pub mod headers;
pub mod message;
pub mod wire;

use vstd::prelude::*;

verus! {

/// EventStream RPC message types (header `:message-type`, `Int32`).
///
/// `Application*` types are only valid on a stream (positive stream-id); all others are protocol
/// messages on stream-id 0.
#[derive(Debug, Clone, Copy, PartialEq, Eq, Structural)]
pub enum MessageType {
    /// An operation request, response or event (wire value 0).
    ApplicationMessage,
    /// A modeled service error on a stream (wire value 1).
    ApplicationError,
    /// A ping (wire value 2).
    Ping,
    /// A reply to a ping (wire value 3).
    PingResponse,
    /// The client's first message (wire value 4).
    Connect,
    /// The server's reply to `Connect` (wire value 5).
    ConnectAck,
    /// A protocol error (wire value 6).
    ProtocolError,
    /// An internal server error (wire value 7).
    InternalError,
}

/// The wire value of a message type.
pub open spec fn message_type_code(t: MessageType) -> i32 {
    match t {
        MessageType::ApplicationMessage => 0,
        MessageType::ApplicationError => 1,
        MessageType::Ping => 2,
        MessageType::PingResponse => 3,
        MessageType::Connect => 4,
        MessageType::ConnectAck => 5,
        MessageType::ProtocolError => 6,
        MessageType::InternalError => 7,
    }
}

/// The message type whose wire value is `v`, if there is one.
pub open spec fn message_type_of(v: i32) -> Option<MessageType> {
    if v == 0 {
        Some(MessageType::ApplicationMessage)
    } else if v == 1 {
        Some(MessageType::ApplicationError)
    } else if v == 2 {
        Some(MessageType::Ping)
    } else if v == 3 {
        Some(MessageType::PingResponse)
    } else if v == 4 {
        Some(MessageType::Connect)
    } else if v == 5 {
        Some(MessageType::ConnectAck)
    } else if v == 6 {
        Some(MessageType::ProtocolError)
    } else if v == 7 {
        Some(MessageType::InternalError)
    } else {
        None
    }
}

impl MessageType {
    /// Decodes a `:message-type` header value; `None` for values outside `0..=7`.
    pub fn from_i32(v: i32) -> (res: Option<MessageType>)
        ensures
            res == message_type_of(v),
            res is Some <==> 0 <= v <= 7,
            res matches Some(t) ==> message_type_code(t) == v,
    {
        match v {
            0 => Some(MessageType::ApplicationMessage),
            1 => Some(MessageType::ApplicationError),
            2 => Some(MessageType::Ping),
            3 => Some(MessageType::PingResponse),
            4 => Some(MessageType::Connect),
            5 => Some(MessageType::ConnectAck),
            6 => Some(MessageType::ProtocolError),
            7 => Some(MessageType::InternalError),
            _ => None,
        }
    }

    /// The `:message-type` header value of this message type.
    pub fn to_i32(&self) -> (res: i32)
        ensures
            res == message_type_code(*self),
    {
        match self {
            MessageType::ApplicationMessage => 0,
            MessageType::ApplicationError => 1,
            MessageType::Ping => 2,
            MessageType::PingResponse => 3,
            MessageType::Connect => 4,
            MessageType::ConnectAck => 5,
            MessageType::ProtocolError => 6,
            MessageType::InternalError => 7,
        }
    }
}

/// The name of a message type, as diagnostics print it.
pub open spec fn message_type_name(t: MessageType) -> Seq<char> {
    match t {
        MessageType::ApplicationMessage => "ApplicationMessage"@,
        MessageType::ApplicationError => "ApplicationError"@,
        MessageType::Ping => "Ping"@,
        MessageType::PingResponse => "PingResponse"@,
        MessageType::Connect => "Connect"@,
        MessageType::ConnectAck => "ConnectAck"@,
        MessageType::ProtocolError => "ProtocolError"@,
        MessageType::InternalError => "InternalError"@,
    }
}

impl MessageType {
    /// The name of this message type, as diagnostics print it.
    pub fn name(&self) -> (s: &'static str)
        ensures
            s@ == message_type_name(*self),
    {
        match self {
            MessageType::ApplicationMessage => "ApplicationMessage",
            MessageType::ApplicationError => "ApplicationError",
            MessageType::Ping => "Ping",
            MessageType::PingResponse => "PingResponse",
            MessageType::Connect => "Connect",
            MessageType::ConnectAck => "ConnectAck",
            MessageType::ProtocolError => "ProtocolError",
            MessageType::InternalError => "InternalError",
        }
    }
}

/// Decoding the wire value of a message type gives that message type back, and every value
/// that decodes is the wire value of what it decodes to.
pub proof fn lemma_message_type_code_roundtrip(t: MessageType, v: i32)
    ensures
        message_type_of(message_type_code(t)) == Some(t),
        message_type_of(v) matches Some(u) ==> message_type_code(u) == v,
        0 <= message_type_code(t) <= 7,
{
}

/// The wire codes of the message types are the protocol's fixed table: application message 0,
/// application error 1, ping 2, ping response 3, connect 4, connect ack 5, protocol error 6,
/// internal error 7; each of those values decodes to its type, and no other value decodes.
pub proof fn lemma_message_type_wire_table(v: i32)
    ensures
        message_type_code(MessageType::ApplicationMessage) == 0,
        message_type_code(MessageType::ApplicationError) == 1,
        message_type_code(MessageType::Ping) == 2,
        message_type_code(MessageType::PingResponse) == 3,
        message_type_code(MessageType::Connect) == 4,
        message_type_code(MessageType::ConnectAck) == 5,
        message_type_code(MessageType::ProtocolError) == 6,
        message_type_code(MessageType::InternalError) == 7,
        message_type_of(0) == Some(MessageType::ApplicationMessage),
        message_type_of(1) == Some(MessageType::ApplicationError),
        message_type_of(2) == Some(MessageType::Ping),
        message_type_of(3) == Some(MessageType::PingResponse),
        message_type_of(4) == Some(MessageType::Connect),
        message_type_of(5) == Some(MessageType::ConnectAck),
        message_type_of(6) == Some(MessageType::ProtocolError),
        message_type_of(7) == Some(MessageType::InternalError),
        !(0 <= v <= 7) ==> message_type_of(v) is None,
{
}

} // verus!
