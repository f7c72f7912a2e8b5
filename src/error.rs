//! The failures that end a chat or image job.
use vstd::prelude::*;

verus! {

/// Why a job ended without its result. The `String` payloads carry the
/// underlying message for display.
#[derive(Debug, Clone)]
pub enum ClientError {
    /// No response came (refused, unresolved, timed out).
    Connection(String),
    /// The server answered with a non-2xx status.
    Server { status: u16, body: String },
    /// A whole response did not have the expected shape.
    Parse(String),
    /// The connection failed while a response was streaming.
    Transport(String),
    /// The stream closed without a terminal signal.
    Incomplete,
    /// A returned image was not valid base64.
    Encoding,
    /// The image service returned no image.
    EmptyResult,
}

/// Whether an HTTP status is a success (2xx).
pub open spec fn is_success(status: u16) -> bool {
    200 <= status <= 299
}

/// Whether a response status is a success; any other status makes the
/// call fail with [`ClientError::Server`].
pub fn is_success_status(status: u16) -> (r: bool)
    ensures
        r == is_success(status),
{
    200 <= status && status <= 299
}

} // verus!
