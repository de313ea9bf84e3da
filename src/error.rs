use vstd::prelude::*;
use vstd::string::StringExecFns;

use crate::api::{decimal, push_decimal};

verus! {

/// What can go wrong when talking to the API or when checking a webhook.
#[derive(Debug, Clone, Copy, PartialEq, Eq, Structural)]
pub enum TwilioError {
    /// The request could not be sent (connection, TLS, timeout).
    RequestError,
    /// The response body could not be read.
    ReadResponseError,
    /// The API answered with a status other than the expected success.
    HTTPError(u16),
    /// A body or a field mapping could not be decoded.
    ParsingError,
    /// The webhook signature is missing or does not match.
    AuthError,
    /// The webhook request is malformed.
    BadRequest,
}

/// A status code in the server-error class.
pub open spec fn is_server_error(status: u16) -> bool {
    500 <= status <= 599
}

/// Whether a caller may try the failed operation again.
pub open spec fn retryable(e: TwilioError) -> bool {
    match e {
        TwilioError::RequestError => true,
        TwilioError::ReadResponseError => true,
        TwilioError::HTTPError(s) => is_server_error(s),
        _ => false,
    }
}

/// The standard reason phrase of a status code, where it has one.
pub uninterp spec fn reason_phrase(status: u16) -> Option<Seq<char>>;

/// Relies on `hyper::StatusCode::canonical_reason` (after `from_u16`): the
/// standard reason phrase of a status, if it has one. A code outside
/// 100..=999 is no status code, and so has none.
#[verifier::external_body]
fn canonical_reason(status: u16) -> (r: Option<String>)
    ensures
        match r {
            Some(t) => reason_phrase(status) == Some(t@),
            None => reason_phrase(status) is None,
        },
        (status < 100 || status > 999) ==> r is None,
{
    hyper::StatusCode::from_u16(status).ok().and_then(|c| c.canonical_reason()).map(
        |t| t.to_string(),
    )
}

/// How a status code is written: its number, a space, and its reason
/// phrase (or a marker where it has none).
pub open spec fn status_text(status: u16) -> Seq<char> {
    decimal(status as nat) + " "@ + match reason_phrase(status) {
        Some(t) => t,
        None => "<unknown status code>"@,
    }
}

/// The description of an error.
pub open spec fn error_text(e: TwilioError) -> Seq<char> {
    match e {
        TwilioError::RequestError => "Network error"@,
        TwilioError::ReadResponseError => "Could not read the response body"@,
        TwilioError::HTTPError(s) => "Invalid HTTP status code: "@ + status_text(s),
        TwilioError::ParsingError => "Parsing error"@,
        TwilioError::AuthError => "Missing `X-Twilio-Signature` header in request"@,
        TwilioError::BadRequest => "Bad request"@,
    }
}

impl TwilioError {
    /// The description of the error.
    pub fn to_string(&self) -> (r: String)
        ensures
            r@ == error_text(*self),
    {
        match self {
            TwilioError::RequestError => String::from_str("Network error"),
            TwilioError::ReadResponseError => String::from_str("Could not read the response body"),
            TwilioError::HTTPError(s) => {
                let mut out = String::from_str("Invalid HTTP status code: ");
                push_decimal(&mut out, *s as u64);
                out.append(" ");
                match canonical_reason(*s) {
                    Some(t) => out.append(t.as_str()),
                    None => out.append("<unknown status code>"),
                }
                out
            },
            TwilioError::ParsingError => String::from_str("Parsing error"),
            TwilioError::AuthError => String::from_str(
                "Missing `X-Twilio-Signature` header in request",
            ),
            TwilioError::BadRequest => String::from_str("Bad request"),
        }
    }

    /// Transport failures and server-side errors may be retried; nothing else.
    pub fn is_retryable(&self) -> (r: bool)
        ensures
            r == retryable(*self),
    {
        match self {
            TwilioError::RequestError => true,
            TwilioError::ReadResponseError => true,
            TwilioError::HTTPError(s) => 500 <= *s && *s <= 599,
            _ => false,
        }
    }
}

/// The outcome owed for a response status: 200 and 201 succeed, anything
/// else is an HTTP error that carries the status.
pub open spec fn status_outcome(status: u16) -> Result<(), TwilioError> {
    if status == 200 || status == 201 {
        Ok(())
    } else {
        Err(TwilioError::HTTPError(status))
    }
}

/// Classifies the status of an API response before its body is decoded.
pub fn check_status(status: u16) -> (r: Result<(), TwilioError>)
    ensures
        r == status_outcome(status),
{
    if status == 200 || status == 201 {
        Ok(())
    } else {
        Err(TwilioError::HTTPError(status))
    }
}

} // verus!
