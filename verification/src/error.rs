//! Error types for the Greengrass IPC client.

use vstd::prelude::*;

verus! {

/// An I/O error from the socket (`std::io::Error`), carried through unchanged.
#[verifier::external_type_specification]
#[verifier::external_body]
pub struct ExIoError(std::io::Error);

/// Errors that can occur while connecting to or communicating with the Greengrass nucleus over
/// IPC.
#[derive(Debug)]
#[non_exhaustive]
pub enum Error {
    /// The process is not running as a Greengrass component: the named environment variable
    /// (`SVCUID` or `AWS_GG_NUCLEUS_DOMAIN_SOCKET_FILEPATH_FOR_COMPONENT`) is not set.
    ///
    /// Callers that want to run both under and outside Greengrass can treat this as "no IPC
    /// available" and continue.
    NotUnderGreengrass(&'static str),
    /// Failed to connect to, read from, or write to the nucleus IPC socket.
    Io(std::io::Error),
    /// The connection handshake failed: the nucleus rejected the `Connect` message (usually an
    /// invalid or expired `SVCUID`), or replied with an unexpected message.
    Handshake(String),
    /// An EventStream frame could not be encoded or decoded.
    Frame(String),
    /// A request or event payload could not be serialized to or deserialized from JSON; the
    /// JSON codec's error text.
    Payload(String),
    /// The nucleus returned a modeled service error for an operation.
    Service {
        /// The service-model type of the error (e.g. `aws.greengrass#ResourceNotFoundError`).
        model: String,
        /// The human-readable error message from the nucleus.
        message: String,
    },
    /// The connection was closed while an operation was in flight.
    ConnectionClosed,
}

impl Error {
    /// A framing error with the given message.
    pub fn frame(msg: String) -> (e: Error)
        ensures
            e matches Error::Frame(m) && m@ == msg@,
    {
        Error::Frame(msg)
    }

    /// A handshake error with the given message.
    pub fn handshake(msg: String) -> (e: Error)
        ensures
            e matches Error::Handshake(m) && m@ == msg@,
    {
        Error::Handshake(msg)
    }
}

} // verus!
