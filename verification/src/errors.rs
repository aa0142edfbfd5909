//! Error taxonomy for the two background loops. Each variant is fatal
//! to the loop that raises it; transient conditions (a single corrupt
//! frame, a missing clock header, a failed art fetch) are not errors
//! and never appear here.

use vstd::prelude::*;

verus! {

/// A condition that terminates the background loop which observed it.
#[derive(Clone, Copy, Debug, PartialEq, Eq, Structural)]
pub enum RadioError {
    /// Opening the stream transport failed.
    ConnectFailed,
    /// The stream endpoint answered with anything but the expected
    /// success status line.
    StreamNotFound,
    /// A metadata fetch failed at the transport level.
    FetchFailed,
    /// The metadata body could not be decoded.
    MalformedBody,
    /// The response carried a clock header that could not be parsed.
    /// An absent header is not an error: the offset defaults to zero.
    MalformedClockHeader,
}

impl RadioError {
    /// A human-readable description of the condition.
    pub fn message(&self) -> (r: &'static str)
        ensures
            self is ConnectFailed ==> r@ == "could not connect to the stream"@,
            self is StreamNotFound ==> r@ == "stream not found"@,
            self is FetchFailed ==> r@ == "metadata fetch failed"@,
            self is MalformedBody ==> r@ == "malformed metadata body"@,
            self is MalformedClockHeader ==> r@ == "malformed clock header"@,
    {
        match self {
            RadioError::ConnectFailed => "could not connect to the stream",
            RadioError::StreamNotFound => "stream not found",
            RadioError::FetchFailed => "metadata fetch failed",
            RadioError::MalformedBody => "malformed metadata body",
            RadioError::MalformedClockHeader => "malformed clock header",
        }
    }
}

} // verus!
