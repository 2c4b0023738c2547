//! The errors a `query` call can report.

use vstd::prelude::*;
use vstd::string::StringExecFns;

verus! {

/// Why a call against the server failed. Errors propagate to the caller as
/// result values; nothing is retried or recovered internally.
#[derive(Debug)]
pub enum HelixError {
    /// The request could not be sent or the response could not be read
    /// (DNS failure, connection refused, timeout).
    TransportError { details: String },
    /// The server answered with a non-success status; `details` carries the
    /// response body, or a description of the status when the body was empty.
    RemoteError { details: String },
    /// The payload did not match the shape the caller expected.
    DecodeError { details: String },
}

/// The human-readable message of an error: a fixed prefix naming the failure
/// kind, followed by its detail text.
pub open spec fn spec_message(e: HelixError) -> Seq<char> {
    match e {
        HelixError::TransportError { details } => "Error communicating with server: "@ + details@,
        HelixError::RemoteError { details } => "Got Error from server: "@ + details@,
        HelixError::DecodeError { details } => "Error decoding server response: "@ + details@,
    }
}

impl HelixError {
    /// The detail text alone, as the server or the transport reported it.
    pub fn details(&self) -> (r: &String)
        ensures
            *self matches HelixError::TransportError { details } ==> r@ == details@,
            *self matches HelixError::RemoteError { details } ==> r@ == details@,
            *self matches HelixError::DecodeError { details } ==> r@ == details@,
    {
        match self {
            HelixError::TransportError { details } => details,
            HelixError::RemoteError { details } => details,
            HelixError::DecodeError { details } => details,
        }
    }

    /// The full message, prefix and detail.
    pub fn message(&self) -> (r: String)
        ensures
            r@ == spec_message(*self),
    {
        match self {
            HelixError::TransportError { details } => {
                let mut s = "Error communicating with server: ".to_owned();
                s.append(details.as_str());
                s
            },
            HelixError::RemoteError { details } => {
                let mut s = "Got Error from server: ".to_owned();
                s.append(details.as_str());
                s
            },
            HelixError::DecodeError { details } => {
                let mut s = "Error decoding server response: ".to_owned();
                s.append(details.as_str());
                s
            },
        }
    }
}

} // verus!
