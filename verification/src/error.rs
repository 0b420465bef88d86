//! The errors the library reports.

use vstd::prelude::*;

verus! {

/// A byte string could not be decoded. Nothing has been changed when this
/// is returned.
#[derive(Clone, Copy, Debug, PartialEq, Eq, Structural)]
pub enum DecodeError {
    /// The input does not have the length its format asks for. For a format
    /// of variable length, `expected` is the least length it accepts.
    WrongLength { expected: usize, actual: usize },
    /// A field of fixed length holds a value that stands for nothing.
    MalformedField { value: u8 },
}

/// The connector could not complete an exchange.
#[derive(Clone, Copy, Debug, PartialEq, Eq, Structural)]
pub enum TransportError {
    /// The device could not be reached, or the connection broke.
    Connection,
    /// No reply came in time.
    Timeout,
}

/// A reply was authentic but is not the answer the command asked for. The
/// session stays usable.
#[derive(Clone, Copy, Debug, PartialEq, Eq, Structural)]
pub enum ProtocolError {
    /// The reply carries another operation identifier than the command's
    /// response type.
    UnexpectedResponseType,
    /// The reply, or the message to be sent, does not fit its format.
    Malformed,
    /// The device refused the command: the session's key lacks a capability.
    InsufficientPermissions,
}

/// Why a session operation failed.
#[derive(Clone, Copy, Debug, PartialEq, Eq, Structural)]
pub enum SessionError {
    /// The session is not active: a fresh one has to be authenticated.
    Expired,
    /// The handshake or a reply failed its integrity check. The session has
    /// expired.
    Authentication,
    /// The connector failed. The session has expired, since the device may
    /// or may not have seen the command.
    Transport(TransportError),
    /// The exchange was authentic but did not yield the expected response.
    Protocol(ProtocolError),
}

} // verus!
