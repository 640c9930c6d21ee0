//! Plugin modules of every kind, and what they need of their runtimes.
pub mod dynamic_loader;
pub mod lua_runtime;
pub mod marshal;
pub mod wasm_runtime;
