//! A request-serving host that dispatches requests to plugin modules of four
//! kinds: C-ABI shared objects, native function-table plugins, WebAssembly
//! modules and Lua scripts.
pub mod config;
pub mod dispatch;
pub mod handlers;
pub mod lifecycle;
pub mod logging_middleware;
pub mod modules;
pub mod routing;
pub mod simple_handler;
pub mod text;
