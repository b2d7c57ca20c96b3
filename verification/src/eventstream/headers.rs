//! Well-known EventStream RPC header names used by Greengrass IPC.

use vstd::prelude::*;

verus! {

/// `:message-type` (Int32), see `MessageType`.
pub const MESSAGE_TYPE: &'static str = ":message-type";

/// `:message-flags` (Int32), see the `flags` module.
pub const MESSAGE_FLAGS: &'static str = ":message-flags";

/// `:stream-id` (Int32): 0 for protocol messages, positive for operation streams.
pub const STREAM_ID: &'static str = ":stream-id";

/// `:content-type` (String): always `application/json` for Greengrass.
pub const CONTENT_TYPE: &'static str = ":content-type";

/// `:version` (String): the protocol version, sent on `Connect`.
pub const VERSION: &'static str = ":version";

/// `service-model-type` (String): the request, response or event shape name.
pub const SERVICE_MODEL_TYPE: &'static str = "service-model-type";

/// `operation` (String): the operation name, sent on the first message of a stream.
pub const OPERATION: &'static str = "operation";

/// The content type used for all Greengrass IPC payloads.
pub const CONTENT_TYPE_JSON: &'static str = "application/json";

/// The EventStream RPC protocol version Greengrass expects on `Connect`.
pub const PROTOCOL_VERSION: &'static str = "0.1.0";

} // verus!
