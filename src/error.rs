//! The HTTP errors that request handlers report.
use vstd::prelude::*;

verus! {

/// An HTTP error, with the message that goes with it.
#[derive(Debug)]
pub enum HttpError {
    /// Bad Request (400).
    BadRequest(String),
    /// Unauthorized (401).
    Unauthorized(String),
    /// Forbidden (403).
    Forbidden(String),
    /// Not Found (404).
    NotFound(String),
    /// Internal Server Error (500).
    InternalServerError(String),
}

impl HttpError {
    /// The status code of the error.
    pub open spec fn status(&self) -> u16 {
        match self {
            HttpError::BadRequest(_) => 400,
            HttpError::Unauthorized(_) => 401,
            HttpError::Forbidden(_) => 403,
            HttpError::NotFound(_) => 404,
            HttpError::InternalServerError(_) => 500,
        }
    }

    /// The message carried by the error.
    pub open spec fn message(&self) -> Seq<char> {
        match self {
            HttpError::BadRequest(m) => m@,
            HttpError::Unauthorized(m) => m@,
            HttpError::Forbidden(m) => m@,
            HttpError::NotFound(m) => m@,
            HttpError::InternalServerError(m) => m@,
        }
    }

    /// The reason phrase of the error's status.
    pub open spec fn reason(&self) -> Seq<char> {
        match self {
            HttpError::BadRequest(_) => "Bad Request"@,
            HttpError::Unauthorized(_) => "Unauthorized"@,
            HttpError::Forbidden(_) => "Forbidden"@,
            HttpError::NotFound(_) => "Not Found"@,
            HttpError::InternalServerError(_) => "Internal Server Error"@,
        }
    }

    /// The status code and the message.
    pub fn to_tuple(&self) -> (r: (u16, &str))
        ensures
            r.0 == self.status(),
            r.1@ == self.message(),
    {
        match self {
            HttpError::BadRequest(msg) => (400, msg.as_str()),
            HttpError::Unauthorized(msg) => (401, msg.as_str()),
            HttpError::Forbidden(msg) => (403, msg.as_str()),
            HttpError::NotFound(msg) => (404, msg.as_str()),
            HttpError::InternalServerError(msg) => (500, msg.as_str()),
        }
    }

    /// The text shown for the error: its reason phrase, a colon, a space and
    /// its message.
    pub fn to_string(&self) -> (r: String)
        ensures
            r@ == self.reason() + ": "@ + self.message(),
    {
        let (reason, msg) = match self {
            HttpError::BadRequest(msg) => ("Bad Request", msg),
            HttpError::Unauthorized(msg) => ("Unauthorized", msg),
            HttpError::Forbidden(msg) => ("Forbidden", msg),
            HttpError::NotFound(msg) => ("Not Found", msg),
            HttpError::InternalServerError(msg) => ("Internal Server Error", msg),
        };
        let mut r = String::from_str(reason);
        r.append(": ");
        r.append(msg.as_str());
        r
    }
}

} // verus!
