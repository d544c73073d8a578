//! The closed error taxonomy of the HTTP boundary and its stable wire body.
//!
//! Every failure a client can see is one of two kinds: an upstream failure
//! collapsed to "service unavailable" with the underlying detail preserved,
//! or the deliberate "forbidden" answer for unmatched routes. The JSON body
//! `{"error_code":"<status>","error_message":"<description>"}` is rendered
//! here, fully specified down to each character.

use vstd::prelude::*;

use crate::response::HttpResponse;
use crate::text::{dec_rep, json_escape, json_escape_str, u64_to_dec};

verus! {

/// A failure as it leaves the service.
#[derive(Debug)]
pub enum ApiError {
    /// Any upstream adapter failure, with its detail message.
    ServiceUnavailable(String),
    /// A request that matched no defined route.
    Forbidden,
}

/// The HTTP status code of each error kind.
pub open spec fn status_of(e: ApiError) -> u16 {
    match e {
        ApiError::ServiceUnavailable(_) => 503,
        ApiError::Forbidden => 403,
    }
}

/// The human-readable description of each error kind.
pub open spec fn message_of(e: ApiError) -> Seq<char> {
    match e {
        ApiError::ServiceUnavailable(detail) => "service unavailable: "@ + detail@,
        ApiError::Forbidden => "forbidden"@,
    }
}

/// The JSON error body carrying a status code string and a description.
pub open spec fn error_body(code: Seq<char>, message: Seq<char>) -> Seq<char> {
    "{\"error_code\":\""@ + code + "\",\"error_message\":\""@ + json_escape(message) + "\"}"@
}

impl ApiError {
    /// The HTTP status code this error is answered with.
    pub fn status_code(&self) -> (c: u16)
        ensures
            c == status_of(*self),
    {
        match self {
            ApiError::ServiceUnavailable(_) => 503,
            ApiError::Forbidden => 403,
        }
    }

    /// The human-readable description of this error.
    pub fn message(&self) -> (m: String)
        ensures
            m@ == message_of(*self),
    {
        match self {
            ApiError::ServiceUnavailable(detail) => String::from_str(
                "service unavailable: ",
            ).concat(detail.as_str()),
            ApiError::Forbidden => String::from_str("forbidden"),
        }
    }

    /// Renders this error as a complete HTTP response: its status code and
    /// the stable JSON error body.
    pub fn to_response(&self) -> (r: HttpResponse)
        ensures
            r.status == status_of(*self),
            r.body@ == error_body(dec_rep(status_of(*self) as nat), message_of(*self)),
    {
        let fields = ErrorResponse::from_error(self);
        let body = fields.to_json();
        HttpResponse { status: self.status_code(), body }
    }
}

/// The taxonomy is closed: every failure reaching the HTTP boundary is
/// answered 503 or 403 — there is no generic 500 fallback.
pub proof fn lemma_error_taxonomy_closed(e: ApiError)
    ensures
        status_of(e) == 503 || status_of(e) == 403,
{
}

/// The two fields of the JSON body of an unsuccessful HTTP request:
/// the status code in decimal string form and a description.
pub struct ErrorResponse {
    pub error_code: String,
    pub error_message: String,
}

impl ErrorResponse {
    /// Builds the body fields of an error: the decimal string of its status
    /// code and its description.
    pub fn from_error(e: &ApiError) -> (r: ErrorResponse)
        ensures
            r.error_code@ == dec_rep(status_of(*e) as nat),
            r.error_message@ == message_of(*e),
    {
        let code = e.status_code();
        ErrorResponse { error_code: u64_to_dec(code as u64), error_message: e.message() }
    }

    /// Serializes the two fields as the stable JSON error body.
    pub fn to_json(&self) -> (s: String)
        ensures
            s@ == error_body(self.error_code@, self.error_message@),
    {
        let escaped = json_escape_str(self.error_message.as_str());
        String::from_str("{\"error_code\":\"").concat(self.error_code.as_str()).concat(
            "\",\"error_message\":\"",
        ).concat(escaped.as_str()).concat("\"}")
    }
}

} // verus!
