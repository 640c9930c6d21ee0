//! The fallback handler: serves static files, or echoes the request.
use vstd::prelude::*;

verus! {

/// The fallback handler of the pipeline.
pub struct SimpleHandler;

/// The body of the fallback reply for a request with this method and URI.
pub open spec fn simple_handler_text(method: Seq<char>, uri: Seq<char>) -> Seq<char> {
    "SimpleHandler: "@ + method + " "@ + uri
}

/// The body of the fallback reply for a request with this method and URI.
pub fn simple_handler_response(method: &str, uri: &str) -> (r: String)
    ensures
        r@ == simple_handler_text(method@, uri@),
{
    String::from_str("SimpleHandler: ").concat(method).concat(" ").concat(uri)
}

/// `s` without the slashes at its start.
pub open spec fn without_leading_slashes(s: Seq<char>) -> Seq<char>
    decreases s.len(),
{
    if s.len() > 0 && s[0] == '/' {
        without_leading_slashes(s.drop_first())
    } else {
        s
    }
}

/// The file, relative to the static directory, that serves a request path:
/// the path without its leading slashes, or `index.html` when nothing is left.
pub open spec fn static_file_text(path: Seq<char>) -> Seq<char> {
    if without_leading_slashes(path).len() == 0 {
        "index.html"@
    } else {
        without_leading_slashes(path)
    }
}

/// The file, relative to the static directory, that serves a request path.
pub fn static_file_path(path: &str) -> (r: String)
    ensures
        r@ == static_file_text(path@),
{
    let n = path.unicode_len();
    let mut k: usize = 0;
    assert(path@.subrange(0, n as int) =~= path@);
    while k < n && path.get_char(k) == '/'
        invariant
            k <= n,
            n == path@.len(),
            without_leading_slashes(path@.subrange(k as int, n as int)) == without_leading_slashes(
                path@,
            ),
        decreases n - k,
    {
        assert(path@.subrange(k as int, n as int).drop_first() =~= path@.subrange(
            k + 1,
            n as int,
        ));
        k = k + 1;
    }
    let rest = path.substring_char(k, n);
    if k == n {
        assert(path@.subrange(k as int, n as int) =~= Seq::<char>::empty());
        String::from_str("index.html")
    } else {
        String::from_str(rest)
    }
}

} // verus!
