//! The plain greeting handler and its request log line.
use crate::text::{decimal_digits, unsigned_text};
use vstd::prelude::*;

verus! {

/// The body that the greeting handler replies with.
pub const HELLO_BODY: &'static str = "Hello, World!";

/// A header value, or `-` when the request does not carry it.
pub open spec fn or_dash(v: Option<Seq<char>>) -> Seq<char> {
    match v {
        Some(s) => s,
        None => "-"@,
    }
}

/// The request log line, in the common server form:
/// `remote - - "METHOD URI" status "user-agent"`.
pub open spec fn request_line_text(
    remote: Option<Seq<char>>,
    method: Seq<char>,
    uri: Seq<char>,
    status: u16,
    agent: Option<Seq<char>>,
) -> Seq<char> {
    or_dash(remote) + " - - \""@ + method + " "@ + uri + "\" "@ + decimal_digits(status as nat)
        + " \""@ + or_dash(agent) + "\""@
}

fn dash_or(v: Option<&str>) -> (r: &str)
    ensures
        r@ == or_dash(
            match v {
                Some(s) => Some(s@),
                None => None,
            },
        ),
{
    match v {
        Some(s) => s,
        None => "-",
    }
}

/// The request log line for a request from `remote` (if known) with this
/// method, URI, response status and user agent (if given).
pub fn request_line(
    remote: Option<&str>,
    method: &str,
    uri: &str,
    status: u16,
    agent: Option<&str>,
) -> (r: String)
    ensures
        r@ == request_line_text(
            match remote {
                Some(s) => Some(s@),
                None => None,
            },
            method@,
            uri@,
            status,
            match agent {
                Some(s) => Some(s@),
                None => None,
            },
        ),
{
    let code = unsigned_text(status as u64);
    String::from_str(dash_or(remote)).concat(" - - \"").concat(method).concat(" ").concat(
        uri,
    ).concat("\" ").concat(code.as_str()).concat(" \"").concat(dash_or(agent)).concat("\"")
}

} // verus!
