//! The ways a session with a debugging target can fail.

use vstd::prelude::*;

use crate::json::JsonValue;

verus! {

/// A failure that the client reports to its user.
#[derive(Debug, PartialEq)]
pub enum ClientError {
    /// The target list that the HTTP endpoint returned is empty.
    NoTargets,
    /// The WebSocket URL of the target does not parse as a URL.
    InvalidWebSocketUrl,
    /// The target answered a request with an error object.
    Protocol(JsonValue),
    /// The target answered a request with neither a result nor an error.
    EmptyResult,
    /// The connection closed before the response to a request arrived.
    ConnectionClosed,
    /// Collecting a heap snapshot took longer than its deadline.
    SnapshotTimedOut,
    /// A heap snapshot ended without any data.
    NoSnapshotData { request_completed: bool, finished: bool },
}

} // verus!
