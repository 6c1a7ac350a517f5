//! Responses and errors of the shortener's HTTP operations.

use vstd::prelude::*;

verus! {

/// The three kinds of failure an operation reports.
#[derive(Clone, Copy, Debug, PartialEq, Eq, Structural)]
pub enum ApiError {
    /// The request body is not an absolute URL.
    InvalidInput,
    /// No mapping exists for the requested code.
    NotFound,
    /// The store failed, or refused an insert.
    Internal,
}

/// The HTTP status of an error kind.
pub open spec fn error_status(e: ApiError) -> u16 {
    match e {
        ApiError::InvalidInput => 422,
        ApiError::NotFound => 404,
        ApiError::Internal => 500,
    }
}

/// The text sent as the body of an error response.
pub open spec fn error_message(e: ApiError) -> Seq<char> {
    match e {
        ApiError::InvalidInput => "Invalid URL"@,
        ApiError::NotFound => "URL not found"@,
        ApiError::Internal => "Database error"@,
    }
}

impl ApiError {
    /// The HTTP status code of this error.
    pub fn status(&self) -> (r: u16)
        ensures
            r == error_status(*self),
    {
        match self {
            ApiError::InvalidInput => 422,
            ApiError::NotFound => 404,
            ApiError::Internal => 500,
        }
    }

    /// The short human-readable body sent with this error.
    pub fn message(&self) -> (r: String)
        ensures
            r@ == error_message(*self),
    {
        match self {
            ApiError::InvalidInput => String::from_str("Invalid URL"),
            ApiError::NotFound => String::from_str("URL not found"),
            ApiError::Internal => String::from_str("Database error"),
        }
    }
}

/// A successful HTTP response: a status, an optional `Location` header and a
/// text body.
#[derive(Debug)]
pub struct Response {
    pub status: u16,
    pub location: Option<String>,
    pub body: String,
}

/// `r` is a 200 response with text `body` and no `Location`.
pub open spec fn is_ok_text(r: Response, body: Seq<char>) -> bool {
    r.status == 200 && r.location is None && r.body@ == body
}

/// `r` is a 302 response to `target`, with an empty body.
pub open spec fn is_found(r: Response, target: Seq<char>) -> bool {
    r.status == 302 && r.location is Some && r.location->0@ == target && r.body@.len() == 0
}

impl Response {
    /// A 200 response carrying `body`.
    pub fn ok_text(body: String) -> (r: Response)
        ensures
            is_ok_text(r, body@),
    {
        Response { status: 200, location: None, body }
    }

    /// A 302 response whose `Location` is `target`.
    pub fn found(target: String) -> (r: Response)
        ensures
            is_found(r, target@),
    {
        Response { status: 302, location: Some(target), body: String::new() }
    }
}

} // verus!
