//! Error kinds surfaced by the pipe transport and command protocol.

use vstd::prelude::*;

verus! {

/// Everything that can go wrong while spawning the analysis tool,
/// exchanging one framed request/response pair, or decoding a response.
///
/// All errors are returned to the immediate caller of the failing
/// operation; none are retried or swallowed by this crate.
#[derive(Debug)]
pub enum Error {
    /// The subprocess could not be started, or the startup handshake
    /// byte could not be read because the child exited at once.
    SpawnFailed,
    /// A read or write on the pipes failed after a successful spawn.
    IoError,
    /// End of stream was reached while a frame terminator was still
    /// awaited: the subprocess exited or violated the framing contract.
    ProtocolError,
    /// The response bytes are not valid UTF-8.
    EncodingError,
    /// A JSON decode was requested but the response text was empty.
    EmptyResponse,
    /// Non-empty response text failed to parse as JSON; holds the
    /// parser's diagnostic for caller inspection.
    MalformedJson(String),
}

} // verus!
