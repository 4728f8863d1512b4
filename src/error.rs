//! The gateway's error taxonomy and its mapping onto HTTP status codes.
use vstd::prelude::*;

verus! {

/// The classes of failure that a request can end in.
#[derive(Clone, Copy, Debug, PartialEq, Eq, Structural)]
pub enum ApiError {
    /// A malformed path or query parameter, or a malformed body.
    ClientInput,
    /// The collaborator reports that the requested entry does not exist.
    NotFound,
    /// The request body exceeds the gateway's cap.
    PayloadTooLarge,
    /// A collaborator is missing or failed internally.
    UpstreamUnavailable,
}

/// The HTTP status that each error class is answered with.
pub open spec fn status_of(e: ApiError) -> u16 {
    match e {
        ApiError::ClientInput => 400,
        ApiError::NotFound => 404,
        ApiError::PayloadTooLarge => 413,
        ApiError::UpstreamUnavailable => 500,
    }
}

impl ApiError {
    /// The HTTP status code of this error class.
    pub fn status_code(&self) -> (r: u16)
        ensures
            r == status_of(*self),
    {
        match self {
            ApiError::ClientInput => 400,
            ApiError::NotFound => 404,
            ApiError::PayloadTooLarge => 413,
            ApiError::UpstreamUnavailable => 500,
        }
    }

    /// A short message for the error body, which says nothing of how a
    /// collaborator works inside.
    pub fn message(&self) -> (r: &'static str)
        ensures
            r@.len() > 0,
    {
        proof {
            reveal_strlit("invalid request");
            reveal_strlit("not found");
            reveal_strlit("request body too large");
            reveal_strlit("service unavailable");
        }
        match self {
            ApiError::ClientInput => "invalid request",
            ApiError::NotFound => "not found",
            ApiError::PayloadTooLarge => "request body too large",
            ApiError::UpstreamUnavailable => "service unavailable",
        }
    }
}

/// An error answer: its status and the short message that goes in the
/// `{"error": <message>}` body.
pub struct ErrorResponse {
    pub status: u16,
    pub message: String,
}

/// Builds the answer for an error of class `e` with the given message.
pub fn error_response(e: ApiError, message: String) -> (r: ErrorResponse)
    ensures
        r.status == status_of(e),
        r.message@ == message@,
{
    ErrorResponse { status: e.status_code(), message }
}

/// Each error class is answered with a distinct status code.
pub proof fn lemma_status_injective(a: ApiError, b: ApiError)
    ensures
        status_of(a) == status_of(b) <==> a == b,
{
}

} // verus!
