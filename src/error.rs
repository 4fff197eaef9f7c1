//! Errors of the aggregation core and of the render requests.

use vstd::prelude::*;

verus! {

/// A failure scoped to the one request that produced it.
#[derive(Clone, Debug, PartialEq, Eq)]
pub enum CoreError {
    /// Network failure, non-success status or unreadable body from the upstream API.
    Upstream(String),
    /// The upstream response lacks the expected list, or a cursor cannot be read.
    Parse(String),
    /// The render producer failed.
    Producer(String),
    /// The render producer exceeded its time budget.
    ProducerTimeout,
}

/// A failure with a message for the caller.
#[derive(Debug)]
pub struct Error(pub String);

impl Error {
    /// The message carried by the error.
    pub fn message(&self) -> (r: &str)
        ensures
            r@ == self.0@,
    {
        self.0.as_str()
    }
}

/// The `{status, message}` envelope returned to HTTP callers on failure.
#[derive(Debug)]
pub struct ErrorResponse {
    pub status: &'static str,
    pub message: String,
}

impl ErrorResponse {
    /// A `"fail"` envelope carrying `message`.
    pub fn fail(message: String) -> (r: ErrorResponse)
        ensures
            r.status@ == "fail"@,
            r.message@ == message@,
    {
        ErrorResponse { status: "fail", message }
    }
}

} // verus!
