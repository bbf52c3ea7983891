//! The failures that the client logic reports.

use vstd::prelude::*;
use crate::antidote_pb::CRDT_type;

verus! {

/// Why an operation of the client did not succeed.
#[derive(Clone, Debug, PartialEq, Eq)]
pub enum ClientError {
    /// The stream ended, or a read delivered no bytes.
    Io,
    /// A record is too long for the 32-bit length of a frame.
    MessageTooLarge,
    /// A frame of length zero, which holds no message code.
    EmptyFrame,
    /// The message code received is not the one that answers the request.
    ProtocolMismatch { observed: u8, expected: u8 },
    /// The payload is not a well-formed record of the expected kind.
    Malformed,
    /// The server answered, and refused: its own error code.
    Operation { errorcode: u32 },
    /// A read answered with no object at all.
    EmptyResult,
    /// A map holds no entry of this kind under this key.
    EntryNotFound { key: Vec<u8>, crdt_type: CRDT_type },
    /// No host is configured to connect to.
    NoHost,
}

} // verus!
