//! The error a request is answered with: an HTTP status and a message.

use vstd::prelude::*;

verus! {

pub const BAD_REQUEST: u16 = 400;

pub const UNAUTHORIZED: u16 = 401;

pub const FORBIDDEN: u16 = 403;

pub const NOT_FOUND: u16 = 404;

pub const CONFLICT: u16 = 409;

pub const INTERNAL_SERVER_ERROR: u16 = 500;

/// An error answer: the HTTP status code and the message shown to the caller.
#[derive(Debug)]
pub struct ApiError {
    pub status: u16,
    pub message: String,
}

impl ApiError {
    /// Whether the error has this status and this message.
    pub open spec fn says(self, status: u16, message: Seq<char>) -> bool {
        self.status == status && self.message@ == message
    }
}

/// The message that goes with a status where none is given.
pub open spec fn default_message(status: u16) -> Seq<char> {
    if status == BAD_REQUEST {
        "Bad request"@
    } else if status == UNAUTHORIZED {
        "Unauthorized"@
    } else if status == FORBIDDEN {
        "Forbidden"@
    } else if status == NOT_FOUND {
        "Resource not found"@
    } else if status == CONFLICT {
        "Conflict"@
    } else if status == INTERNAL_SERVER_ERROR {
        "Internal server error"@
    } else {
        "An error occurred"@
    }
}

/// The error answer with `status` and `message`, or with the message that
/// goes with the status where none is given.
pub fn error_response(status: u16, message: Option<&str>) -> (error: ApiError)
    ensures
        error.status == status,
        error.message@ == (match message {
            Some(text) => text@,
            None => default_message(status),
        }),
{
    let default_message = if status == BAD_REQUEST {
        "Bad request"
    } else if status == UNAUTHORIZED {
        "Unauthorized"
    } else if status == FORBIDDEN {
        "Forbidden"
    } else if status == NOT_FOUND {
        "Resource not found"
    } else if status == CONFLICT {
        "Conflict"
    } else if status == INTERNAL_SERVER_ERROR {
        "Internal server error"
    } else {
        "An error occurred"
    };
    let text = match message {
        Some(text) => text,
        None => default_message,
    };
    ApiError { status, message: text.to_owned() }
}

} // verus!
