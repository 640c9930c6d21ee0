//! The access-logging middleware.
use crate::text::{decimal_digits, unsigned_text};
use vstd::prelude::*;

verus! {

/// Middleware that logs each request's method, URI and response status.
pub struct LoggingMiddleware;

impl LoggingMiddleware {
    pub fn new() -> (r: Self)
        ensures
            r == LoggingMiddleware,
    {
        LoggingMiddleware
    }
}

/// The access-log line for a request and the status of its response.
pub open spec fn access_line_text(method: Seq<char>, uri: Seq<char>, status: u16) -> Seq<char> {
    "[access] "@ + method + " "@ + uri + " -> "@ + decimal_digits(status as nat)
}

/// The access-log line for a request and the status of its response.
pub fn access_line(method: &str, uri: &str, status: u16) -> (r: String)
    ensures
        r@ == access_line_text(method@, uri@, status),
{
    let code = unsigned_text(status as u64);
    String::from_str("[access] ").concat(method).concat(" ").concat(uri).concat(" -> ").concat(
        code.as_str(),
    )
}

} // verus!
