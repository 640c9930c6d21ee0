use wigspace_rust::modules::dynamic_loader::memory_pages;
use wigspace_rust::modules::wasm_runtime::ImportEntry;
use wigspace_rust::modules::dynamic_loader::{
    wasm_reply, DynamicModule, WasmModule, WasmOutcome,
};

/// A module whose `handle` writes `prefix` and then the input, zero-terminated,
/// at offset 2048 and returns that offset.
fn prefixing_module(prefix: &str) -> String {
    format!(
        r#"(module
  (import "env" "memory" (memory 1))
  (data (i32.const 1024) "{prefix}")
  (func (export "handle") (param $ptr i32) (param $len i32) (result i32)
    (memory.copy (i32.const 2048) (i32.const 1024) (i32.const {plen}))
    (memory.copy (i32.add (i32.const 2048) (i32.const {plen})) (local.get $ptr) (local.get $len))
    (i32.store8
      (i32.add (i32.add (i32.const 2048) (i32.const {plen})) (local.get $len))
      (i32.const 0))
    (i32.const 2048)))"#,
        prefix = prefix,
        plen = prefix.len()
    )
}

const ECHO_WAT: &str = r#"(module
  (import "env" "memory" (memory 1))
  (func (export "handle") (param $ptr i32) (param $len i32) (result i32)
    (memory.copy (i32.const 4096) (local.get $ptr) (local.get $len))
    (i32.store8 (i32.add (i32.const 4096) (local.get $len)) (i32.const 0))
    (i32.const 4096)))"#;

#[test]
fn test_wasm_loader_skeleton() {
    let wat = prefixing_module("[WASM skeleton] would call WASM with input: ");
    let module = WasmModule::from_bytes(wat.as_bytes()).expect("Failed to load WASM module");
    let input = "hello wasm";
    let output = module.handle(input);
    assert!(
        output.contains("[WASM skeleton] would call WASM with input: hello wasm"),
        "Unexpected WASM skeleton output: {}",
        output
    );
    println!("WASM skeleton output: {}", output);
}

#[test]
fn test_wasm_loader_stub() {
    let wat = prefixing_module("[WASM stub] input: ");
    let module = WasmModule::from_bytes(wat.as_bytes()).expect("Failed to load WASM module");
    let input = "hello wasm";
    let output = module.handle(input);
    assert!(
        output.contains("[WASM stub] input: hello wasm"),
        "Unexpected WASM stub output: {}",
        output
    );
    println!("WASM stub output: {}", output);
}

#[test]
fn wasm_echo_round_trips_through_sandbox_memory() {
    let module = WasmModule::from_bytes(ECHO_WAT.as_bytes()).unwrap();
    assert_eq!(module.handle("ping"), "ping");
}

#[test]
fn wasm_echo_round_trips_every_input() {
    let module = WasmModule::from_bytes(ECHO_WAT.as_bytes()).unwrap();
    for input in ["", "a", "hello from test", "GET /wasm-plugin", "ünïcödé"] {
        assert_eq!(module.handle(input), input);
    }
}

#[test]
fn wasm_calls_do_not_share_state() {
    let module = WasmModule::from_bytes(ECHO_WAT.as_bytes()).unwrap();
    assert_eq!(module.handle("a long first input"), "a long first input");
    assert_eq!(module.handle("b"), "b");
}

#[test]
fn wasm_without_handle_export_gives_diagnostic() {
    let wat = r#"(module (import "env" "memory" (memory 1)) (func (export "other")))"#;
    let module = WasmModule::from_bytes(wat.as_bytes()).unwrap();
    assert_eq!(module.handle("x"), "[WASM error] no exported 'handle' function");
}

#[test]
fn wasm_trap_gives_diagnostic() {
    let wat = r#"(module
  (import "env" "memory" (memory 1))
  (func (export "handle") (param i32 i32) (result i32) unreachable))"#;
    let module = WasmModule::from_bytes(wat.as_bytes()).unwrap();
    assert!(module.handle("x").starts_with("[WASM error] call failed: "));
}

#[test]
fn wasm_wrong_signature_gives_diagnostic() {
    let wat = r#"(module
  (import "env" "memory" (memory 1))
  (func (export "handle") (param i32 i32) (result i64) i64.const 7))"#;
    let module = WasmModule::from_bytes(wat.as_bytes()).unwrap();
    assert_eq!(module.handle("x"), "[WASM error] unexpected return type");
}

#[test]
fn wasm_unsatisfied_import_gives_diagnostic() {
    let wat = r#"(module (import "env" "missing" (func)) (func (export "handle")))"#;
    let module = WasmModule::from_bytes(wat.as_bytes()).unwrap();
    assert!(module.handle("x").starts_with("[WASM error] instantiation failed: "));
}

#[test]
fn wasm_input_too_large_gives_diagnostic() {
    let module = WasmModule::from_bytes(ECHO_WAT.as_bytes()).unwrap();
    let input = "x".repeat(70_000);
    assert!(module.handle(&input).starts_with("[WASM error] memory write: "));
}

#[test]
fn wasm_malformed_binary_is_a_load_error() {
    let err = WasmModule::from_bytes(b"\0asm\x07").err().expect("should fail");
    assert!(!err.reason.is_empty());
}

#[test]
fn wasm_missing_file_is_a_load_error() {
    assert!(WasmModule::load("/nonexistent/plugin.wasm").is_err());
}

#[test]
fn wasm_reply_reads_up_to_the_zero_byte() {
    let mut memory = vec![0u8; 16];
    memory[3..6].copy_from_slice(b"abc");
    let r = wasm_reply(WasmOutcome::Returned { memory, offset: 3 });
    assert_eq!(r, "abc");
}

#[test]
fn wasm_reply_stops_at_end_of_memory() {
    let memory = b"xyz".to_vec();
    assert_eq!(wasm_reply(WasmOutcome::Returned { memory, offset: 1 }), "yz");
}

#[test]
fn wasm_reply_offset_outside_memory_is_empty() {
    let memory = b"xyz".to_vec();
    assert_eq!(wasm_reply(WasmOutcome::Returned { memory: memory.clone(), offset: 3 }), "");
    assert_eq!(wasm_reply(WasmOutcome::Returned { memory, offset: -1 }), "");
}

#[test]
fn wasm_reply_decodes_malformed_utf8_lossily() {
    let memory = vec![b'o', b'k', 0xff, b'!', 0];
    assert_eq!(wasm_reply(WasmOutcome::Returned { memory, offset: 0 }), "ok\u{FFFD}!");
}

#[test]
fn wasm_reply_diagnostics() {
    assert_eq!(
        wasm_reply(WasmOutcome::CallFailed("boom".to_string())),
        "[WASM error] call failed: boom"
    );
    assert_eq!(
        wasm_reply(WasmOutcome::WriteFailed("oob".to_string())),
        "[WASM error] memory write: oob"
    );
    assert_eq!(
        wasm_reply(WasmOutcome::InstantiateFailed("bad".to_string())),
        "[WASM error] instantiation failed: bad"
    );
    assert_eq!(
        wasm_reply(WasmOutcome::MemoryFailed("m".to_string())),
        "[WASM error] memory: m"
    );
    assert_eq!(wasm_reply(WasmOutcome::LinkFailed("l".to_string())), "[WASM error] link: l");
    assert_eq!(wasm_reply(WasmOutcome::NotI32), "[WASM error] unexpected return type");
    assert_eq!(wasm_reply(WasmOutcome::NoEntry), "[WASM error] no exported 'handle' function");
}

#[test]
fn wasm_memory_follows_declared_minimum() {
    let wat = r#"(module
  (import "env" "memory" (memory 2))
  (func (export "handle") (param $ptr i32) (param $len i32) (result i32)
    (memory.copy (i32.const 100000) (local.get $ptr) (local.get $len))
    (i32.store8 (i32.add (i32.const 100000) (local.get $len)) (i32.const 0))
    (i32.const 100000)))"#;
    let module = WasmModule::from_bytes(wat.as_bytes()).unwrap();
    assert_eq!(module.handle("ping"), "ping");
}

#[test]
fn wasm_request_fixes_what_the_module_gets() {
    let q = wigspace_rust::modules::dynamic_loader::wasm_request("héllo");
    assert_eq!(q.import_module, "env");
    assert_eq!(q.import_name, "memory");
    assert_eq!(q.entry, "handle");
    assert_eq!(q.offset, 100);
    assert_eq!(q.bytes, "héllo".as_bytes().to_vec());
    assert_eq!(q.len, 6);
}

#[test]
fn memory_pages_take_the_env_memory_minimum() {
    let e = |m: &str, n: &str, min: Option<u64>| ImportEntry {
        module: m.to_string(),
        name: n.to_string(),
        memory_minimum: min,
    };
    assert_eq!(memory_pages(&vec![]), 1);
    assert_eq!(memory_pages(&vec![e("env", "f", None), e("env", "memory", Some(3))]), 3);
    assert_eq!(memory_pages(&vec![e("env", "memory", None)]), 1);
    assert_eq!(memory_pages(&vec![e("other", "memory", Some(5))]), 1);
    assert_eq!(memory_pages(&vec![e("env", "memory", Some(0))]), 0);
}
