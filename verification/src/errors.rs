//! Error taxonomy of the live-protocol core.

use vstd::prelude::*;

verus! {

/// A fault found while scanning a binary frame buffer.
///
/// Any of these ends the current decode call; the session loop treats that
/// as a skipped chunk, not as a session failure.
#[derive(Clone, Copy, Debug, PartialEq, Eq, Structural)]
pub enum ProtocolError {
    /// A frame header declares `header_len` larger than its `total_len`.
    MalformedHeader,
    /// Nested compressed frames exceed the fixed nesting limit.
    DepthExceeded,
    /// A compressed body is not a valid stream of the protocol's compression format.
    InflateFailed,
    /// A compressed body inflates to more than the fixed size limit.
    InflatedTooLarge,
}

/// The error taxonomy of the protocol client.
#[derive(Debug, Clone, PartialEq, Eq)]
pub enum LiveError {
    /// A required configuration value is missing or empty; no session is created.
    Config(String),
    /// A session is already active; the caller must stop it first.
    AlreadyActive,
    /// The session-start response carried no socket endpoint to connect to.
    NoSocketUrl,
    /// The socket handshake failed; fatal to session start.
    Connect(String),
    /// A malformed frame; skipped, non-fatal to the session loop.
    Protocol(ProtocolError),
    /// The REST service answered with a non-zero status code.
    Api { code: i64, message: String },
    /// A socket read or write failure; ends the session loop.
    Transport(String),
}

} // verus!
