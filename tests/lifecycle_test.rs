use wigspace_rust::lifecycle::reload_source;
use wigspace_rust::lifecycle::{call_reply, hook_status, Hook, HookOutcome, ReloadSlot};

#[test]
fn missing_shutdown_hook_reports_no_such_function() {
    assert_eq!(hook_status(Hook::Shutdown, HookOutcome::Missing), "[rust_plugin] no shutdown fn");
    assert_eq!(hook_status(Hook::Init, HookOutcome::Missing), "[rust_plugin] no init fn");
}

#[test]
fn init_twice_reports_each_code() {
    assert_eq!(hook_status(Hook::Init, HookOutcome::Returned(42)), "[rust_plugin] init: 42");
    assert_eq!(hook_status(Hook::Init, HookOutcome::Returned(42)), "[rust_plugin] init: 42");
    assert_eq!(hook_status(Hook::Shutdown, HookOutcome::Returned(24)), "[rust_plugin] shutdown: 24");
    assert_eq!(hook_status(Hook::Init, HookOutcome::Returned(-7)), "[rust_plugin] init: -7");
    assert_eq!(hook_status(Hook::Init, HookOutcome::Returned(0)), "[rust_plugin] init: 0");
    assert_eq!(
        hook_status(Hook::Init, HookOutcome::Returned(i32::MIN)),
        "[rust_plugin] init: -2147483648"
    );
}

#[test]
fn panicking_hook_is_reported() {
    assert_eq!(hook_status(Hook::Init, HookOutcome::Panicked), "[rust_plugin] panic in init");
    assert_eq!(
        hook_status(Hook::Shutdown, HookOutcome::Panicked),
        "[rust_plugin] panic in shutdown"
    );
}

#[test]
fn panicking_call_is_reported() {
    assert_eq!(call_reply(None), "[rust_plugin] panic in plugin");
    assert_eq!(call_reply(Some("[rust_plugin] hello rust".to_string())), "[rust_plugin] hello rust");
}

#[test]
fn reload_replaces_whole_module_on_success() {
    let mut slot = ReloadSlot::new(Some(("lib-1", "table-1")));
    let r = slot.reload(Ok(("lib-2", "table-2")));
    assert_eq!((r.status, r.body.as_str()), (200, "[rust_plugin] reload: success"));
    assert_eq!(slot.module(), Some(&("lib-2", "table-2")));
}

#[test]
fn failed_reload_keeps_previous_module() {
    let mut slot = ReloadSlot::new(Some(("lib-1", "table-1")));
    let r = slot.reload(Err("not found".to_string()));
    assert_eq!((r.status, r.body.as_str()), (200, "[rust_plugin] reload error: not found"));
    assert_eq!(slot.module(), Some(&("lib-1", "table-1")));
}

#[test]
fn reload_of_empty_slot_loads_or_fails_500() {
    let mut slot: ReloadSlot<u8> = ReloadSlot::new(None);
    let r = slot.reload(Err("missing".to_string()));
    assert_eq!((r.status, r.body.as_str()), (500, "[rust_plugin] reload error: missing"));
    assert_eq!(slot.module(), None);
    let r = slot.reload(Ok(3));
    assert_eq!((r.status, r.body.as_str()), (200, "[rust_plugin] loaded"));
    assert_eq!(slot.module(), Some(&3));
}

#[test]
fn hook_reply_needs_a_loaded_module() {
    let empty: ReloadSlot<u8> = ReloadSlot::new(None);
    let r = empty.hook_reply(Hook::Init, HookOutcome::Returned(42));
    assert_eq!((r.status, r.body.as_str()), (500, "Rust dylib plugin not loaded"));
    let loaded = ReloadSlot::new(Some(1u8));
    let r = loaded.hook_reply(Hook::Init, HookOutcome::Returned(42));
    assert_eq!((r.status, r.body.as_str()), (200, "[rust_plugin] init: 42"));
}

#[test]
fn reload_source_prefers_loaded_module() {
    assert_eq!(reload_source(Some("a.so".to_string()), "b.so".to_string()), "a.so");
    assert_eq!(reload_source(None, "b.so".to_string()), "b.so");
}
