//! The error adapter: the single chokepoint that turns "operation failed"
//! into "respond to the client now".
//!
//! A failed operation carries a [`LibError`]; the call site pairs it with a
//! [`ResponseSpec`] saying what the client should see, and [`on_err`] turns
//! the pair into a [`Failure`] — a terminal outcome holding the complete
//! response description. Nothing is retried and nothing is swallowed.

use vstd::prelude::*;

verus! {

/// HTTP status for a successful request.
pub const STATUS_OK: u16 = 200;

/// HTTP status for an absent resource with an otherwise fine request.
pub const STATUS_NO_CONTENT: u16 = 204;

/// HTTP status for malformed or missing required input.
pub const STATUS_BAD_REQUEST: u16 = 400;

/// HTTP status for a miss: an unknown path or an ownership check that failed.
pub const STATUS_NOT_FOUND: u16 = 404;

/// HTTP status for a storage or transaction failure.
pub const STATUS_INTERNAL_SERVER_ERROR: u16 = 500;

/// An internal operation failure, carrying its cause as text.
#[derive(Debug)]
pub enum LibError {
    Cause(String),
}

impl LibError {
    /// The cause text, as a character sequence.
    pub open spec fn cause_view(&self) -> Seq<char> {
        match self {
            LibError::Cause(s) => s@,
        }
    }

    /// A short description of what went wrong.
    pub fn description(&self) -> (r: &str)
        ensures
            r@ == self.cause_view(),
    {
        match self {
            LibError::Cause(s) => s.as_str(),
        }
    }
}

/// What to answer the client with if an operation fails: a status code alone,
/// or a status paired with a message that overrides the error's own cause.
#[derive(Debug)]
pub struct ResponseSpec {
    pub status: u16,
    pub message: Option<String>,
}

/// View of `ResponseSpec`.
pub ghost struct ResponseSpecV {
    pub status: u16,
    pub message: Option<Seq<char>>,
}

impl View for ResponseSpec {
    type V = ResponseSpecV;

    open spec fn view(&self) -> ResponseSpecV {
        ResponseSpecV {
            status: self.status,
            message: match self.message {
                Some(m) => Some(m@),
                None => None,
            },
        }
    }
}

impl ResponseSpec {
    /// A response description carrying a status code alone.
    pub fn of_status(status: u16) -> (r: ResponseSpec)
        ensures
            r@ == (ResponseSpecV { status, message: None }),
    {
        ResponseSpec { status, message: None }
    }

    /// A response description carrying a status code and a message body.
    pub fn with_message(status: u16, message: String) -> (r: ResponseSpec)
        ensures
            r@ == (ResponseSpecV { status, message: Some(message@) }),
    {
        ResponseSpec { status, message: Some(message) }
    }
}

/// A terminal outcome: the request cannot proceed, and this is the complete
/// description of the response to send. A failure is a value, not an
/// exception; it short-circuits the rest of the pipeline.
#[derive(Debug)]
pub struct Failure {
    pub response: ResponseSpec,
    pub cause: String,
}

/// View of `Failure`.
pub ghost struct FailureV {
    pub response: ResponseSpecV,
    pub cause: Seq<char>,
}

impl View for Failure {
    type V = FailureV;

    open spec fn view(&self) -> FailureV {
        FailureV { response: self.response@, cause: self.cause@ }
    }
}

/// Converts an operation's result into a terminal outcome on failure: the
/// successful value passes through unchanged, and an error becomes a
/// [`Failure`] carrying the given response description and the error's cause.
pub fn on_err<T>(r: Result<T, LibError>, m: ResponseSpec) -> (out: Result<T, Failure>)
    ensures
        r matches Ok(v) ==> (out matches Ok(w) && w == v),
        r matches Err(e) ==> (out matches Err(f) && f@.response == m@ && f@.cause
            == e.cause_view()),
{
    match r {
        Ok(v) => Ok(v),
        Err(e) => {
            let cause = match e {
                LibError::Cause(s) => s,
            };
            Err(Failure { response: m, cause })
        },
    }
}

} // verus!
