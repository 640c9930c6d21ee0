//! Turning what a module produced, or the lack of a module, into a reply.
use crate::routing::PluginKind;
use vstd::prelude::*;

verus! {

/// A response: status code and body text.
pub struct Reply {
    pub status: u16,
    pub body: String,
}

/// The text handed to a module for a request: the method, a space, the URI.
pub open spec fn plugin_input_text(method: Seq<char>, uri: Seq<char>) -> Seq<char> {
    method + " "@ + uri
}

/// The text handed to a module for a request with this method and URI.
pub fn plugin_input(method: &str, uri: &str) -> (r: String)
    ensures
        r@ == plugin_input_text(method@, uri@),
{
    String::from_str(method).concat(" ").concat(uri)
}

/// The body of the reply when no module of this kind is loaded.
pub open spec fn not_loaded_text(kind: PluginKind) -> Seq<char> {
    match kind {
        PluginKind::CAbi => "Plugin not loaded"@,
        PluginKind::Script => "Lua plugin not loaded"@,
        PluginKind::Wasm => "WASM plugin not loaded"@,
        PluginKind::NativeVTable => "Rust dylib plugin not loaded"@,
    }
}

/// The reply for a request to a module of kind `kind`: its output with status
/// 200, or status 500 with a fixed body when no such module is loaded.
pub fn module_reply(kind: PluginKind, output: Option<String>) -> (r: Reply)
    ensures
        output matches Some(out) ==> r.status == 200 && r.body@ == out@,
        output is None ==> r.status == 500 && r.body@ == not_loaded_text(kind),
{
    match output {
        Some(out) => Reply { status: 200, body: out },
        None => {
            let body = match kind {
                PluginKind::CAbi => "Plugin not loaded",
                PluginKind::Script => "Lua plugin not loaded",
                PluginKind::Wasm => "WASM plugin not loaded",
                PluginKind::NativeVTable => "Rust dylib plugin not loaded",
            };
            Reply { status: 500, body: String::from_str(body) }
        },
    }
}

} // verus!
