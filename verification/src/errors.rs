//! The ways in which a call can fail.

use vstd::prelude::*;

verus! {

/// What went wrong with a call. A call either succeeds whole or fails with
/// one of these; nothing is retried on the way.
#[derive(Clone, Debug, PartialEq, Eq)]
pub enum Error {
    /// The address, the path and the parameters do not make a URL.
    BadUrl,
    /// The agent answered with something that is no answer to the call.
    ConsulError,
    /// The request did not reach the agent, or its answer did not come back.
    TransportError(String),
    /// The agent answered with a status that is no success.
    ServerError { status: u16, body: Vec<u8> },
    /// A lock was asked for without a session.
    RequireSessionFlag,
    /// The consistency index in the answer's header is no 64-bit number.
    ParseConsulIndexError,
    /// The body of the answer does not have the shape that was expected.
    DecodeError,
    /// A check to register fills in the fields of no kind of check, or of
    /// several. Nothing is sent for it.
    InvalidCheck,
}

} // verus!
