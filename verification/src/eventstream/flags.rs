//! EventStream RPC message flags (header `:message-flags`, `Int32`; bit flags).

use vstd::prelude::*;

verus! {

/// No flags.
pub const NONE: i32 = 0x0;

/// Present on a `ConnectAck` when the connection is accepted. Absent means rejected.
pub const CONNECTION_ACCEPTED: i32 = 0x1;

/// Closes the stream after this message.
pub const TERMINATE_STREAM: i32 = 0x2;

} // verus!
