//! Server configuration.
use std::collections::HashMap;
use vstd::prelude::*;

verus! {

/// The server's configuration: where it listens, optional static and proxy
/// settings, log files, the plugin directory and the endpoint bindings
/// (endpoint path to plugin file reference).
#[derive(Debug, Clone)]
pub struct Config {
    pub address: String,
    pub port: u16,
    pub static_dir: Option<String>,
    pub proxy_pass: Option<String>,
    pub access_log: Option<String>,
    pub error_log: Option<String>,
    pub plugins_dir: Option<String>,
    pub plugin_endpoints: Option<HashMap<String, String>>,
}

impl Default for Config {
    /// Listens on 127.0.0.1:8080, takes plugins from `plugins`, and sets
    /// nothing else.
    fn default() -> (r: Self)
        ensures
            r.address@ == "127.0.0.1"@,
            r.port == 8080,
            r.static_dir is None,
            r.proxy_pass is None,
            r.access_log is None,
            r.error_log is None,
            r.plugins_dir matches Some(d) && d@ == "plugins"@,
            r.plugin_endpoints is None,
    {
        Config {
            address: String::from_str("127.0.0.1"),
            port: 8080,
            static_dir: None,
            proxy_pass: None,
            access_log: None,
            error_log: None,
            plugins_dir: Some(String::from_str("plugins")),
            plugin_endpoints: None,
        }
    }
}

/// The plugin directory that `plugins_dir` names, else `plugins`.
pub open spec fn plugins_dir_text(plugins_dir: Option<String>) -> Seq<char> {
    match plugins_dir {
        Some(d) => d@,
        None => "plugins"@,
    }
}

impl Config {
    /// The directory that plugins are loaded from.
    pub fn plugins_dir_or_default(&self) -> (r: String)
        ensures
            r@ == plugins_dir_text(self.plugins_dir),
    {
        match &self.plugins_dir {
            Some(d) => d.clone(),
            None => String::from_str("plugins"),
        }
    }
}

/// The endpoint bindings used when the configuration names none: the C-ABI
/// example at `/plugin`, the Lua example at `/lua-plugin` and the WebAssembly
/// example at `/wasm-plugin`, all in the plugin directory `dir`.
pub open spec fn default_endpoints_of(dir: Seq<char>) -> Seq<(Seq<char>, Seq<char>)> {
    seq![
        ("/plugin"@, "cabi:"@ + dir + "/libplugin_example.so"@),
        ("/lua-plugin"@, dir + "/hello.lua"@),
        ("/wasm-plugin"@, dir + "/hello.wasm"@),
    ]
}

/// The endpoint bindings used when the configuration names none.
pub fn default_endpoints(dir: &str) -> (r: Vec<(String, String)>)
    ensures
        r@.len() == 3,
        forall|i: int|
            0 <= i < 3 ==> (#[trigger] r@[i]).0@ == default_endpoints_of(dir@)[i].0 && r@[i].1@
                == default_endpoints_of(dir@)[i].1,
{
    let mut r: Vec<(String, String)> = Vec::new();
    r.push(
        (
            String::from_str("/plugin"),
            String::from_str("cabi:").concat(dir).concat("/libplugin_example.so"),
        ),
    );
    r.push((String::from_str("/lua-plugin"), String::from_str(dir).concat("/hello.lua")));
    r.push((String::from_str("/wasm-plugin"), String::from_str(dir).concat("/hello.wasm")));
    r
}

/// The file of the reloadable native plugin in the plugin directory `dir`.
pub fn reloadable_file(dir: &str) -> (r: String)
    ensures
        r@ == dir@ + "/librust_plugin_example.so"@,
{
    String::from_str(dir).concat("/librust_plugin_example.so")
}

} // verus!
