//! Lifecycle of the reloadable native plugin: its init and shutdown hooks,
//! the firewall around its calls, and the slot whose module a reload replaces
//! as a whole.
use crate::dispatch::{not_loaded_text, Reply};
use crate::routing::PluginKind;
use crate::text::{decimal_text, signed_text};
use vstd::prelude::*;

verus! {

/// An optional hook of a native plugin.
#[derive(Clone, Copy, Debug, PartialEq, Eq, Structural)]
pub enum Hook {
    Init,
    Shutdown,
}

/// How a call of a hook ended.
#[derive(Clone, Copy, Debug, PartialEq, Eq, Structural)]
pub enum HookOutcome {
    /// The plugin exports no such hook.
    Missing,
    /// The hook panicked; the panic was caught.
    Panicked,
    /// The hook returned this code.
    Returned(i32),
}

pub open spec fn hook_name(h: Hook) -> Seq<char> {
    match h {
        Hook::Init => "init"@,
        Hook::Shutdown => "shutdown"@,
    }
}

/// The status text of a hook call that ended in `o`.
pub open spec fn hook_status_text(h: Hook, o: HookOutcome) -> Seq<char> {
    match o {
        HookOutcome::Missing => "[rust_plugin] no "@ + hook_name(h) + " fn"@,
        HookOutcome::Panicked => "[rust_plugin] panic in "@ + hook_name(h),
        HookOutcome::Returned(code) => "[rust_plugin] "@ + hook_name(h) + ": "@ + decimal_text(
            code as int,
        ),
    }
}

fn hook_str(h: Hook) -> (r: &'static str)
    ensures
        r@ == hook_name(h),
{
    match h {
        Hook::Init => "init",
        Hook::Shutdown => "shutdown",
    }
}

/// The status text of a hook call that ended in `o`: the code it returned,
/// that it panicked, or that the plugin has no such hook.
pub fn hook_status(h: Hook, o: HookOutcome) -> (r: String)
    ensures
        r@ == hook_status_text(h, o),
{
    let name = hook_str(h);
    match o {
        HookOutcome::Missing => String::from_str("[rust_plugin] no ").concat(name).concat(" fn"),
        HookOutcome::Panicked => String::from_str("[rust_plugin] panic in ").concat(name),
        HookOutcome::Returned(code) => {
            let digits = signed_text(code as i64);
            String::from_str("[rust_plugin] ").concat(name).concat(": ").concat(digits.as_str())
        },
    }
}

/// The reply of a native plugin's `handle` call: its output, or a fixed
/// diagnostic when the call panicked.
pub open spec fn call_reply_text(o: Option<Seq<char>>) -> Seq<char> {
    match o {
        Some(out) => out,
        None => "[rust_plugin] panic in plugin"@,
    }
}

/// The reply of a native plugin's `handle` call whose output is `output`, or
/// `None` when the call panicked.
pub fn call_reply(output: Option<String>) -> (r: String)
    ensures
        r@ == call_reply_text(
            match output {
                Some(s) => Some(s@),
                None => None,
            },
        ),
{
    match output {
        Some(s) => s,
        None => String::from_str("[rust_plugin] panic in plugin"),
    }
}

/// What the slot holds after a reload whose load ended in `loaded`: the new
/// module when it loaded, else what it held before.
pub open spec fn reloaded<M>(before: Option<M>, loaded: Result<M, String>) -> Option<M> {
    match loaded {
        Ok(m) => Some(m),
        Err(_) => before,
    }
}

/// The reply of a reload whose load ended in `loaded`, on a slot that held a
/// module (`was_loaded`) or none.
pub open spec fn reload_reply_text(was_loaded: bool, loaded: Result<(), Seq<char>>) -> (u16, Seq<
    char,
>) {
    match loaded {
        Ok(()) => if was_loaded {
            (200, "[rust_plugin] reload: success"@)
        } else {
            (200, "[rust_plugin] loaded"@)
        },
        Err(e) => if was_loaded {
            (200, "[rust_plugin] reload error: "@ + e)
        } else {
            (500, "[rust_plugin] reload error: "@ + e)
        },
    }
}

/// The single plugin slot that can be replaced while the host runs. It holds
/// one whole module or none; a reload swaps the whole module at once.
pub struct ReloadSlot<M> {
    current: Option<M>,
}

impl<M> ReloadSlot<M> {
    /// What the slot holds.
    pub closed spec fn content(&self) -> Option<M> {
        self.current
    }

    /// A slot holding `initial`.
    pub fn new(initial: Option<M>) -> (r: Self)
        ensures
            r.content() == initial,
    {
        ReloadSlot { current: initial }
    }

    /// The module in the slot, if any.
    pub fn module(&self) -> (r: Option<&M>)
        ensures
            r matches Some(m) ==> self.content() == Some(*m),
            r is None ==> self.content() is None,
    {
        match &self.current {
            Some(m) => Some(m),
            None => None,
        }
    }

    /// Applies a reload whose load ended in `loaded`: a new module replaces
    /// the old one whole; a failed load leaves the slot as it was.
    pub fn reload(&mut self, loaded: Result<M, String>) -> (r: Reply)
        ensures
            final(self).content() == reloaded(old(self).content(), loaded),
            (r.status, r.body@) == reload_reply_text(
                old(self).content() is Some,
                match loaded {
                    Ok(_) => Ok(()),
                    Err(e) => Err(e@),
                },
            ),
    {
        let was_loaded = self.current.is_some();
        match loaded {
            Ok(m) => {
                self.current = Some(m);
                if was_loaded {
                    Reply { status: 200, body: String::from_str("[rust_plugin] reload: success") }
                } else {
                    Reply { status: 200, body: String::from_str("[rust_plugin] loaded") }
                }
            },
            Err(e) => {
                let body = String::from_str("[rust_plugin] reload error: ").concat(e.as_str());
                let status: u16 = if was_loaded {
                    200
                } else {
                    500
                };
                Reply { status, body }
            },
        }
    }

    /// The reply of a hook control request: the hook's status when a module is
    /// loaded (`outcome` is then how its hook call ended), else status 500.
    pub fn hook_reply(&self, h: Hook, outcome: HookOutcome) -> (r: Reply)
        ensures
            self.content() is Some ==> r.status == 200 && r.body@ == hook_status_text(h, outcome),
            self.content() is None ==> r.status == 500 && r.body@ == not_loaded_text(
                PluginKind::NativeVTable,
            ),
    {
        if self.current.is_some() {
            Reply { status: 200, body: hook_status(h, outcome) }
        } else {
            Reply { status: 500, body: String::from_str("Rust dylib plugin not loaded") }
        }
    }
}

/// A reload never leaves the slot holding a mix of two modules: afterwards it
/// holds exactly the module it held before, or exactly the newly loaded one.
pub proof fn reload_is_whole<M>(before: Option<M>, loaded: Result<M, String>)
    ensures
        reloaded(before, loaded) == before || (loaded matches Ok(m) && reloaded(before, loaded)
            == Some(m)),
        loaded is Err ==> reloaded(before, loaded) == before,
{
}

/// A missing shutdown hook gives the "no such function" status, and each init
/// call reports the code that this call of the hook returned, whatever an
/// earlier call returned.
pub proof fn hooks_are_well_defined(first: i32, second: i32)
    ensures
        hook_status_text(Hook::Shutdown, HookOutcome::Missing) == "[rust_plugin] no shutdown fn"@,
        hook_status_text(Hook::Init, HookOutcome::Returned(first)) == "[rust_plugin] init: "@
            + decimal_text(first as int),
        hook_status_text(Hook::Init, HookOutcome::Returned(second)) == "[rust_plugin] init: "@
            + decimal_text(second as int),
{
    reveal_strlit("[rust_plugin] no ");
    reveal_strlit("shutdown");
    reveal_strlit(" fn");
    reveal_strlit("[rust_plugin] no shutdown fn");
    reveal_strlit("[rust_plugin] ");
    reveal_strlit("init");
    reveal_strlit(": ");
    reveal_strlit("[rust_plugin] init: ");
    assert("[rust_plugin] no "@ + "shutdown"@ + " fn"@ =~= "[rust_plugin] no shutdown fn"@);
    assert("[rust_plugin] "@ + "init"@ + ": "@ =~= "[rust_plugin] init: "@);
    assert("[rust_plugin] "@ + "init"@ + ": "@ + decimal_text(first as int) =~= "[rust_plugin] init: "@
        + decimal_text(first as int));
    assert("[rust_plugin] "@ + "init"@ + ": "@ + decimal_text(second as int) =~= "[rust_plugin] init: "@
        + decimal_text(second as int));
}

/// The file that a reload loads from: the file of the module in the slot,
/// else the configured file of the reloadable plugin.
pub fn reload_source(current: Option<String>, configured: String) -> (r: String)
    ensures
        r@ == match current {
            Some(c) => c@,
            None => configured@,
        },
{
    match current {
        Some(c) => c,
        None => configured,
    }
}

} // verus!
