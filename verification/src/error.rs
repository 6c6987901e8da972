//! The closed set of failures that the library reports.

use crate::text::{push_decimal, push_text};
use vstd::prelude::*;

verus! {

/// A failure of a call to the provider or to the backend, classified.
#[derive(Debug, Clone, PartialEq, Eq)]
pub enum ApiError {
    /// The transport failed and there is no HTTP response.
    NetworkError(String),
    /// An HTTP response whose status reports a failure, with its body.
    RequestError(u16, String),
    /// The body of a response did not have the expected structure.
    ParseError(String),
    /// The provider, or the flow itself, rejected the attempt.
    AuthenticationError(String),
    NotFound(String),
    InternalServerError(String),
    Unauthorized(String),
    Forbidden(String),
    BadRequest(String),
}

/// An `ApiError` with its texts as sequences of characters.
pub enum ApiErrorView {
    NetworkError(Seq<char>),
    RequestError(u16, Seq<char>),
    ParseError(Seq<char>),
    AuthenticationError(Seq<char>),
    NotFound(Seq<char>),
    InternalServerError(Seq<char>),
    Unauthorized(Seq<char>),
    Forbidden(Seq<char>),
    BadRequest(Seq<char>),
}

impl View for ApiError {
    type V = ApiErrorView;

    open spec fn view(&self) -> ApiErrorView {
        match self {
            ApiError::NetworkError(d) => ApiErrorView::NetworkError(d@),
            ApiError::RequestError(s, b) => ApiErrorView::RequestError(*s, b@),
            ApiError::ParseError(d) => ApiErrorView::ParseError(d@),
            ApiError::AuthenticationError(d) => ApiErrorView::AuthenticationError(d@),
            ApiError::NotFound(d) => ApiErrorView::NotFound(d@),
            ApiError::InternalServerError(d) => ApiErrorView::InternalServerError(d@),
            ApiError::Unauthorized(d) => ApiErrorView::Unauthorized(d@),
            ApiError::Forbidden(d) => ApiErrorView::Forbidden(d@),
            ApiError::BadRequest(d) => ApiErrorView::BadRequest(d@),
        }
    }
}

/// Whether an HTTP status reports success: the codes from 200 to 299.
pub open spec fn is_success(status: u16) -> bool {
    200 <= status < 300
}

/// Whether an HTTP status reports success.
pub fn status_is_success(status: u16) -> (r: bool)
    ensures
        r == is_success(status),
{
    200 <= status && status < 300
}

impl ApiErrorView {
    /// The line shown to the user for this failure.
    pub open spec fn message(self) -> Seq<char> {
        match self {
            ApiErrorView::NetworkError(d) => "Network error: "@ + d,
            ApiErrorView::RequestError(s, b) => "Request error: "@ + crate::text::decimal(s as nat)
                + " - "@ + b,
            ApiErrorView::ParseError(d) => "Parse error: "@ + d,
            ApiErrorView::AuthenticationError(d) => "Authentication error: "@ + d,
            ApiErrorView::NotFound(d) => "Authorization error: "@ + d,
            ApiErrorView::InternalServerError(d) => "Internal server error: "@ + d,
            ApiErrorView::Unauthorized(d) => "Service unavailable: "@ + d,
            ApiErrorView::Forbidden(d) => "Forbidden: "@ + d,
            ApiErrorView::BadRequest(d) => "Bad request: "@ + d,
        }
    }
}

/// `head` followed by `tail`.
fn labelled(head: &str, tail: &str) -> (s: String)
    ensures
        s@ == head@ + tail@,
{
    let mut s = String::new();
    push_text(&mut s, head);
    push_text(&mut s, tail);
    proof {
        assert(s@ =~= head@ + tail@);
    }
    s
}

impl ApiError {
    /// The line shown to the user for this failure.
    pub fn message(&self) -> (s: String)
        ensures
            s@ == self@.message(),
    {
        match self {
            ApiError::NetworkError(d) => labelled("Network error: ", d.as_str()),
            ApiError::RequestError(status, body) => {
                let mut s = String::new();
                push_text(&mut s, "Request error: ");
                push_decimal(&mut s, *status as u64);
                push_text(&mut s, " - ");
                push_text(&mut s, body.as_str());
                proof {
                    assert(s@ =~= self@.message());
                }
                s
            },
            ApiError::ParseError(d) => labelled("Parse error: ", d.as_str()),
            ApiError::AuthenticationError(d) => labelled("Authentication error: ", d.as_str()),
            ApiError::NotFound(d) => labelled("Authorization error: ", d.as_str()),
            ApiError::InternalServerError(d) => labelled("Internal server error: ", d.as_str()),
            ApiError::Unauthorized(d) => labelled("Service unavailable: ", d.as_str()),
            ApiError::Forbidden(d) => labelled("Forbidden: ", d.as_str()),
            ApiError::BadRequest(d) => labelled("Bad request: ", d.as_str()),
        }
    }

    /// Classifies a failure of the transport: one that carries an HTTP status
    /// is a `RequestError`, any other a `NetworkError`.
    pub fn from_transport(status: Option<u16>, detail: String) -> (e: ApiError)
        ensures
            e@ == match status {
                Some(code) => ApiErrorView::RequestError(code, detail@),
                None => ApiErrorView::NetworkError(detail@),
            },
    {
        match status {
            Some(code) => ApiError::RequestError(code, detail),
            None => ApiError::NetworkError(detail),
        }
    }

    /// Classifies a body that could not be decoded.
    pub fn from_decoding(detail: String) -> (e: ApiError)
        ensures
            e@ == ApiErrorView::ParseError(detail@),
    {
        ApiError::ParseError(detail)
    }
}

/// A failure of the credential store.
#[derive(Debug, Clone, Copy, PartialEq, Eq, Structural)]
pub enum CredentialsError {
    /// The store holds no session.
    TokenNotFound,
    /// The store holds something that could not be read.
    TokenReadError,
}

impl CredentialsError {
    /// The line shown to the user for this failure.
    pub open spec fn spec_message(self) -> Seq<char> {
        match self {
            CredentialsError::TokenNotFound => "Failed to store token"@,
            CredentialsError::TokenReadError => "Failed to read token"@,
        }
    }

    /// The line shown to the user for this failure.
    pub fn message(&self) -> (s: String)
        ensures
            s@ == self.spec_message(),
    {
        match self {
            CredentialsError::TokenNotFound => String::from_str("Failed to store token"),
            CredentialsError::TokenReadError => String::from_str("Failed to read token"),
        }
    }
}

} // verus!
