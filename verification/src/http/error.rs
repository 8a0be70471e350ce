//! One error type for the `/terms` and `/cards` API. Every error body is
//! `{ "error": "<message>" }`; the shell writes it with the status code
//! chosen here.

use crate::envelope::{BAD_REQUEST, INTERNAL_SERVER_ERROR, NOT_FOUND};
use vstd::prelude::*;

verus! {

/// A request that could not be served.
#[derive(Clone, Debug, PartialEq, Eq)]
pub enum AppError {
    /// A malformed body or a failed validation; carries the message.
    BadRequest(String),
    /// A `{id}` in the path matched no row. Carries the message so the
    /// same variant serves Terms and Cards.
    NotFound(&'static str),
    /// An infrastructure failure (the database, mainly). The cause is
    /// logged where it is mapped; the client only ever sees this message.
    Internal,
}

/// The message an error's body carries.
pub open spec fn app_error_message(e: AppError) -> Seq<char> {
    match e {
        AppError::BadRequest(m) => m@,
        AppError::NotFound(m) => m@,
        AppError::Internal => "internal error"@,
    }
}

/// The HTTP status an error is answered with.
pub open spec fn app_error_status(e: AppError) -> u16 {
    match e {
        AppError::BadRequest(_) => BAD_REQUEST,
        AppError::NotFound(_) => NOT_FOUND,
        AppError::Internal => INTERNAL_SERVER_ERROR,
    }
}

impl AppError {
    /// The message of the `{ "error": ... }` body.
    pub fn to_string(&self) -> (s: String)
        ensures
            s@ == app_error_message(*self),
    {
        match self {
            AppError::BadRequest(m) => m.clone(),
            AppError::NotFound(m) => String::from_str(m),
            AppError::Internal => String::from_str("internal error"),
        }
    }

    /// The status code: `400`, `404` or `500`.
    pub fn status_code(&self) -> (code: u16)
        ensures
            code == app_error_status(*self),
    {
        match self {
            AppError::BadRequest(_) => BAD_REQUEST,
            AppError::NotFound(_) => NOT_FOUND,
            AppError::Internal => INTERNAL_SERVER_ERROR,
        }
    }
}

} // verus!
