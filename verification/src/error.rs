//! The error taxonomy and its mapping to response statuses.

use vstd::prelude::*;
use vstd::string::*;

verus! {

/// What went wrong, as far as a client may know.
#[derive(Clone, Copy, Debug, PartialEq, Eq, Structural)]
pub enum ErrorKind {
    /// Malformed or out-of-range client input.
    Validation,
    /// Missing, expired or unresolvable credential material.
    Unauthorized,
    /// Well-formed credential material that is cryptographically wrong.
    Invalid,
    /// A uniqueness violation, such as a username already taken.
    Conflict,
    /// A failure of the relational store, or a state of it that must not occur.
    Store,
    /// Malformed base64, UTF-8 or JSON inside a signed envelope.
    Encoding,
}

/// An error of the service: its kind and a message.
#[derive(Debug)]
pub enum WebError {
    Validation(String),
    Unauthorized(String),
    Invalid(String),
    Conflict(String),
    Store(String),
    Encoding(String),
}

/// What is sent back over HTTP: a status code and a body.
#[derive(Debug)]
pub struct Response {
    pub status: u16,
    pub body: String,
}

/// The HTTP status that answers an error of kind `kind`.
pub open spec fn status_of(kind: ErrorKind) -> int {
    match kind {
        ErrorKind::Validation => 400,
        ErrorKind::Unauthorized => 401,
        ErrorKind::Invalid => 400,
        ErrorKind::Conflict => 400,
        ErrorKind::Store => 500,
        ErrorKind::Encoding => 401,
    }
}

/// Whether the message of an error of kind `kind` may be shown to a client.
/// Store and encoding failures carry internal detail and are answered with a
/// fixed text.
pub open spec fn discloses_message(kind: ErrorKind) -> bool {
    !(kind == ErrorKind::Store || kind == ErrorKind::Encoding)
}

/// The body that answers an error of kind `kind` with message `message`.
pub open spec fn body_of(kind: ErrorKind, message: Seq<char>) -> Seq<char> {
    if discloses_message(kind) {
        message
    } else if kind == ErrorKind::Store {
        "Internal server error"@
    } else {
        "Malformed authorization"@
    }
}

impl View for WebError {
    type V = (ErrorKind, Seq<char>);

    open spec fn view(&self) -> (ErrorKind, Seq<char>) {
        match *self {
            WebError::Validation(m) => (ErrorKind::Validation, m@),
            WebError::Unauthorized(m) => (ErrorKind::Unauthorized, m@),
            WebError::Invalid(m) => (ErrorKind::Invalid, m@),
            WebError::Conflict(m) => (ErrorKind::Conflict, m@),
            WebError::Store(m) => (ErrorKind::Store, m@),
            WebError::Encoding(m) => (ErrorKind::Encoding, m@),
        }
    }
}

impl WebError {
    /// The kind of this error.
    pub fn kind(&self) -> (k: ErrorKind)
        ensures
            k == self@.0,
    {
        match self {
            WebError::Validation(_) => ErrorKind::Validation,
            WebError::Unauthorized(_) => ErrorKind::Unauthorized,
            WebError::Invalid(_) => ErrorKind::Invalid,
            WebError::Conflict(_) => ErrorKind::Conflict,
            WebError::Store(_) => ErrorKind::Store,
            WebError::Encoding(_) => ErrorKind::Encoding,
        }
    }

    /// The message of this error.
    pub fn message(&self) -> (m: &str)
        ensures
            m@ == self@.1,
    {
        match self {
            WebError::Validation(m) => m.as_str(),
            WebError::Unauthorized(m) => m.as_str(),
            WebError::Invalid(m) => m.as_str(),
            WebError::Conflict(m) => m.as_str(),
            WebError::Store(m) => m.as_str(),
            WebError::Encoding(m) => m.as_str(),
        }
    }

    /// The HTTP status that answers this error.
    pub fn status(&self) -> (s: u16)
        ensures
            s == status_of(self@.0),
    {
        match self {
            WebError::Validation(_) => 400,
            WebError::Unauthorized(_) => 401,
            WebError::Invalid(_) => 400,
            WebError::Conflict(_) => 400,
            WebError::Store(_) => 500,
            WebError::Encoding(_) => 401,
        }
    }

    /// The response that answers this error: its status, and its message
    /// unless the kind forbids disclosing it.
    pub fn to_response(&self) -> (r: Response)
        ensures
            r.status == status_of(self@.0),
            r.body@ == body_of(self@.0, self@.1),
    {
        let body = match self {
            WebError::Store(_) => String::from_str("Internal server error"),
            WebError::Encoding(_) => String::from_str("Malformed authorization"),
            _ => String::from_str(self.message()),
        };
        Response { status: self.status(), body }
    }
}

} // verus!
