//! What a request handler hands back: a status and a text.

use crate::utils::error_handling::{error_text, Error};
use vstd::prelude::*;

verus! {

/// How a request ended.
#[derive(Debug, Clone, Copy, PartialEq, Eq, Structural)]
pub enum Status {
    /// The request was carried out.
    Success,
    /// The request was carried out and there is nothing to show for it.
    NoContent,
    /// The request itself is at fault.
    BadRequest,
    /// The request came in a format that is not understood.
    UnsupportedMediaType,
    /// The request names something that does not exist and never will.
    ImATeapot,
    /// The request is well formed but says something impossible.
    UnprocessableEntity,
    /// The supply that the request draws on is used up for now.
    TooManyRequests,
    /// The library reported an error that no rule provides for.
    InternalServerError,
    /// The request cannot be served in the state that things are in.
    ServiceUnavailable,
}

/// The HTTP status number of each outcome.
pub open spec fn status_code(status: Status) -> u16 {
    match status {
        Status::Success => 200,
        Status::NoContent => 204,
        Status::BadRequest => 400,
        Status::UnsupportedMediaType => 415,
        Status::ImATeapot => 418,
        Status::UnprocessableEntity => 422,
        Status::TooManyRequests => 429,
        Status::InternalServerError => 500,
        Status::ServiceUnavailable => 503,
    }
}

impl Status {
    /// The HTTP status number of the outcome.
    pub fn code(&self) -> (code: u16)
        ensures
            code == status_code(*self),
    {
        match self {
            Status::Success => 200,
            Status::NoContent => 204,
            Status::BadRequest => 400,
            Status::UnsupportedMediaType => 415,
            Status::ImATeapot => 418,
            Status::UnprocessableEntity => 422,
            Status::TooManyRequests => 429,
            Status::InternalServerError => 500,
            Status::ServiceUnavailable => 503,
        }
    }
}

/// The answer to one request: how it ended, and the text to send back.
#[derive(Debug, Clone, PartialEq, Eq)]
pub struct Reply {
    pub status: Status,
    pub body: String,
}

impl Reply {
    /// The answer with the given status and text.
    pub fn new(status: Status, text: &str) -> (reply: Reply)
        ensures
            reply.status == status,
            reply.body@ == text@,
    {
        Reply { status, body: String::from_str(text) }
    }

    /// The answer with the given status and no text.
    pub fn empty(status: Status) -> (reply: Reply)
        ensures
            reply.status == status,
            reply.body@ == Seq::<char>::empty(),
    {
        Reply { status, body: String::new() }
    }

    /// The answer that reports an error of the library: the error's words,
    /// as an internal server error.
    pub fn failure(error: Error) -> (reply: Reply)
        ensures
            reply.status == Status::InternalServerError,
            reply.body@ == error_text(error),
    {
        Reply { status: Status::InternalServerError, body: error.message() }
    }
}

} // verus!
