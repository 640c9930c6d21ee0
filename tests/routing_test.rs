use wigspace_rust::dispatch::{module_reply, plugin_input};
use wigspace_rust::routing::{
    kind_of_file, plan_bindings, ControlOp, ModuleRegistry, PluginKind, Route,
};

fn entries(pairs: &[(&str, &str)]) -> Vec<(String, String)> {
    pairs.iter().map(|(p, f)| (p.to_string(), f.to_string())).collect()
}

#[test]
fn kind_follows_extension() {
    assert_eq!(kind_of_file("echo.so"), Some((PluginKind::CAbi, "echo.so".to_string())));
    assert_eq!(kind_of_file("m.wasm"), Some((PluginKind::Wasm, "m.wasm".to_string())));
    assert_eq!(kind_of_file("m.wat"), Some((PluginKind::Wasm, "m.wat".to_string())));
    assert_eq!(kind_of_file("hello.lua"), Some((PluginKind::Script, "hello.lua".to_string())));
    assert_eq!(kind_of_file("notes.txt"), None);
    assert_eq!(kind_of_file(""), None);
    assert_eq!(kind_of_file("so"), None);
}

#[test]
fn explicit_tag_decides_kind() {
    assert_eq!(
        kind_of_file("vtable:librust_plugin.so"),
        Some((PluginKind::NativeVTable, "librust_plugin.so".to_string()))
    );
    assert_eq!(kind_of_file("cabi:plugin"), Some((PluginKind::CAbi, "plugin".to_string())));
    assert_eq!(kind_of_file("wasm:m.bin"), Some((PluginKind::Wasm, "m.bin".to_string())));
    assert_eq!(kind_of_file("lua:script.txt"), Some((PluginKind::Script, "script.txt".to_string())));
}

#[test]
fn plan_skips_unknown_kinds_and_repeated_paths() {
    let plan = plan_bindings(&entries(&[
        ("/a", "a.so"),
        ("/x", "readme.md"),
        ("/b", "b.wasm"),
        ("/a", "other.lua"),
    ]));
    let got: Vec<(String, PluginKind, String)> =
        plan.into_iter().map(|b| (b.path, b.kind, b.file)).collect();
    assert_eq!(
        got,
        vec![
            ("/a".to_string(), PluginKind::CAbi, "a.so".to_string()),
            ("/b".to_string(), PluginKind::Wasm, "b.wasm".to_string()),
        ]
    );
}

#[test]
fn plan_of_no_endpoints_is_empty() {
    assert!(plan_bindings(&Vec::new()).is_empty());
}

#[test]
fn request_reaches_only_the_bound_module() {
    let mut reg: ModuleRegistry<&str> = ModuleRegistry::new();
    assert!(reg.bind("/a".to_string(), "moduleA"));
    assert!(reg.bind("/b".to_string(), "moduleB"));
    match reg.route("/a") {
        Route::Module(i) => assert_eq!(*reg.module_at(i), "moduleA"),
        other => panic!("unexpected route {:?}", other),
    }
    match reg.route("/b") {
        Route::Module(i) => assert_eq!(*reg.module_at(i), "moduleB"),
        other => panic!("unexpected route {:?}", other),
    }
    assert_eq!(reg.route("/c"), Route::PassThrough);
    assert_eq!(reg.route("/a/"), Route::PassThrough);
}

#[test]
fn a_path_binds_at_most_once() {
    let mut reg: ModuleRegistry<u32> = ModuleRegistry::new();
    assert!(reg.bind("/a".to_string(), 1));
    assert!(!reg.bind("/a".to_string(), 2));
    assert_eq!(reg.len(), 1);
    assert_eq!(reg.position("/a"), Some(0));
    assert_eq!(*reg.module_at(0), 1);
    assert_eq!(reg.position("/b"), None);
}

#[test]
fn reserved_paths_route_to_lifecycle() {
    let mut reg: ModuleRegistry<u32> = ModuleRegistry::new();
    assert!(reg.bind("/rust-plugin".to_string(), 7));
    assert_eq!(reg.route("/reload-rust-plugin"), Route::Control(ControlOp::Reload));
    assert_eq!(reg.route("/init-rust-plugin"), Route::Control(ControlOp::Init));
    assert_eq!(reg.route("/shutdown-rust-plugin"), Route::Control(ControlOp::Shutdown));
    assert_eq!(reg.route("/rust-plugin"), Route::Reloadable);
}

#[test]
fn echo_binding_end_to_end_text() {
    let plan = plan_bindings(&entries(&[("/echo.so", "echo.so")]));
    assert_eq!(plan.len(), 1);
    assert_eq!(plan[0].kind, PluginKind::CAbi);
    let mut reg: ModuleRegistry<PluginKind> = ModuleRegistry::new();
    assert!(reg.bind(plan[0].path.clone(), plan[0].kind));
    assert_eq!(reg.route("/echo.so"), Route::Module(0));
    let output = format!("[plugin] got: {}", "hello from test");
    let reply = module_reply(PluginKind::CAbi, Some(output));
    assert_eq!(reply.status, 200);
    assert!(reply.body.contains("[plugin] got: hello from test"));
}

#[test]
fn plugin_input_joins_method_and_uri() {
    assert_eq!(plugin_input("GET", "/plugin?x=1"), "GET /plugin?x=1");
    assert_eq!(plugin_input("", ""), " ");
}

#[test]
fn missing_module_replies_500() {
    let r = module_reply(PluginKind::CAbi, None);
    assert_eq!((r.status, r.body.as_str()), (500, "Plugin not loaded"));
    let r = module_reply(PluginKind::Script, None);
    assert_eq!((r.status, r.body.as_str()), (500, "Lua plugin not loaded"));
    let r = module_reply(PluginKind::Wasm, None);
    assert_eq!((r.status, r.body.as_str()), (500, "WASM plugin not loaded"));
    let r = module_reply(PluginKind::NativeVTable, None);
    assert_eq!((r.status, r.body.as_str()), (500, "Rust dylib plugin not loaded"));
    let r = module_reply(PluginKind::Wasm, Some("out".to_string()));
    assert_eq!((r.status, r.body.as_str()), (200, "out"));
}
