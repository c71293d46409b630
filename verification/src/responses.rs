use vstd::prelude::*;

verus! {

/// Error surfaced to the HTTP caller: either the payload was rejected
/// before any channel call, or every delivery channel failed (or the
/// service was misconfigured).  `message` is the human-readable summary;
/// `error` carries the detail.
#[derive(Debug)]
pub enum ApiError {
    BadRequest { message: String, error: String },
    InternalServerError { message: String, error: String },
}

impl ApiError {
    /// Builds the rejection for an invalid payload.
    pub fn bad_request(message: String, error: String) -> (r: ApiError)
        ensures
            r == (ApiError::BadRequest { message, error }),
    {
        ApiError::BadRequest { message, error }
    }

    /// Builds the error for a total delivery or configuration failure.
    pub fn internal_server_error(message: String, error: String) -> (r: ApiError)
        ensures
            r == (ApiError::InternalServerError { message, error }),
    {
        ApiError::InternalServerError { message, error }
    }

    /// The HTTP status each error kind is served with: 400 for a rejected
    /// payload, 500 for a total failure.
    pub fn status_code(&self) -> (c: u16)
        ensures
            self is BadRequest ==> c == 400,
            self is InternalServerError ==> c == 500,
    {
        match self {
            ApiError::BadRequest { .. } => 400,
            ApiError::InternalServerError { .. } => 500,
        }
    }
}

/// Successful dispatch response: one line per channel, each either the
/// channel's confirmation text or its fixed failure placeholder.
#[derive(Debug)]
pub struct EmailSentResponse {
    pub email_message: String,
    pub telegram_message: String,
}

} // verus!
