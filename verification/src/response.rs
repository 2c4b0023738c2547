//! Interpretation of the server's answer: a success status hands the payload
//! on for decoding, any other status becomes a remote error whose detail text
//! is the body, or a description of the status when the body is empty.

use vstd::prelude::*;
use vstd::string::StringExecFns;
use crate::decimal::spec_decimal;
use crate::decimal::u16_to_decimal;
use crate::error::HelixError;

verus! {

/// The canonical reason phrase of an HTTP status code, if the code has one.
pub uninterp spec fn reason_of(status: u16) -> Option<Seq<char>>;

/// Relies on `reqwest::StatusCode::from_u16` and
/// `reqwest::StatusCode::canonical_reason`: the reason phrase is a fixed
/// table keyed by the numeric code alone, and a code outside `100..=999`, or
/// absent from the table, has none.
#[verifier::external_body]
fn status_reason(status: u16) -> (r: Option<String>)
    ensures
        (match r {
            Some(s) => reason_of(status) == Some(s@),
            None => reason_of(status) is None,
        }),
{
    match reqwest::StatusCode::from_u16(status) {
        Ok(code) => code.canonical_reason().map(|reason| reason.to_owned()),
        Err(_) => None,
    }
}

/// The status of a successful exchange; every other status is a failure.
pub open spec fn spec_is_success(status: u16) -> bool {
    status == 200
}

/// The detail text reported for a failed exchange: the response body
/// verbatim when there is one, else the status's canonical reason phrase,
/// else a generic description carrying the numeric code.
pub open spec fn spec_error_details(status: u16, body: Seq<char>) -> Seq<char> {
    if body.len() > 0 {
        body
    } else {
        match reason_of(status) {
            Some(reason) => reason,
            None => "unknown error with code: "@ + spec_decimal(status as nat),
        }
    }
}

/// The detail text for a failed exchange with status `status` and response
/// body `body`.
pub fn remote_error_details(status: u16, body: &str) -> (r: String)
    ensures
        r@ == spec_error_details(status, body@),
{
    if !body.is_empty() {
        body.to_owned()
    } else {
        match status_reason(status) {
            Some(reason) => reason,
            None => {
                let mut s = "unknown error with code: ".to_owned();
                s.append(u16_to_decimal(status).as_str());
                s
            },
        }
    }
}

/// Turns the server's answer into the caller's result: on the success status
/// the payload comes back unchanged, ready for decoding; on any other status
/// a remote error carries the detail text of `spec_error_details`.
pub fn interpret_response(status: u16, body: &str) -> (r: Result<String, HelixError>)
    ensures
        r is Ok <==> spec_is_success(status),
        r matches Ok(payload) ==> payload@ == body@,
        r matches Err(e) ==> e matches HelixError::RemoteError { details }
            && details@ == spec_error_details(status, body@),
{
    if status == 200 {
        Ok(body.to_owned())
    } else {
        Err(HelixError::RemoteError { details: remote_error_details(status, body) })
    }
}

} // verus!
