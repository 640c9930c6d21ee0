//! The uniform module interface and the loaders that run inside the host
//! process's safe code: WebAssembly modules and Lua scripts.
//!
//! A call into a module never fails past this interface: every failure inside
//! the module or its runtime comes back as a descriptive text.
use crate::modules::lua_runtime::{
    call_global, exec_chunk, new_interpreter, Interpreter, ScriptStep, ScriptValue,
};
use crate::modules::marshal::{c_string_at, lossy_text, read_c_string, utf8_lossy};
use crate::modules::wasm_runtime::{
    call_entry, clone_linker, compile_bytes, compile_file, define_memory, find_export,
    instantiate, memory_config, memory_contents, module_imports, new_engine, new_linker,
    open_sandbox, unbounded_memory_type, write_memory, ImportEntry, Sandbox, SandboxStep,
};
use crate::text::has_prefix;
use vstd::utf8::{decode_utf8, encode_utf8, valid_utf8};
use vstd::prelude::*;

verus! {

/// Lifecycle operations of a plugin that can be initialised, shut down and
/// replaced while the host runs. Each returns a status text.
pub trait PluginLifecycle {
    fn init(&mut self) -> String;

    fn shutdown(&mut self) -> String;

    fn reload(&mut self) -> String;
}

/// A loaded module of any kind: it turns an input text into an output text.
pub trait DynamicModule {
    /// Whether `output` is a reply that this module may give to `input`.
    spec fn replies(&self, input: Seq<char>, output: Seq<char>) -> bool;

    fn handle(&self, input: &str) -> (r: String)
        ensures
            self.replies(input@, r@),
    ;
}

/// Why a module could not be loaded.
#[derive(Debug)]
pub struct LoadError {
    pub reason: String,
}

/// The offset in sandbox memory at which the input is written.
pub const WASM_INPUT_OFFSET: u32 = 100;

/// Pages of the linear memory given to a module that imports none as
/// `env`.`memory`.
pub const WASM_MEMORY_PAGES: u32 = 1;

/// The most pages a 32-bit linear memory can have.
pub const WASM_MAX_PAGES: u64 = 65536;

/// What a call hands to a WebAssembly module: the import under which it gets
/// its memory, the name of its entry point, and the input bytes with the offset
/// and length passed to the entry point.
pub struct WasmRequest {
    pub import_module: String,
    pub import_name: String,
    pub entry: String,
    pub offset: u32,
    pub bytes: Vec<u8>,
    pub len: i32,
}

/// What a call hands to a WebAssembly module for `input`: the memory as
/// `env`.`memory`, the entry point `handle`, the input's UTF-8 bytes at
/// `WASM_INPUT_OFFSET`, and as arguments that offset and the byte length.
pub fn wasm_request(input: &str) -> (r: WasmRequest)
    ensures
        r.import_module@ == "env"@,
        r.import_name@ == "memory"@,
        r.entry@ == "handle"@,
        r.offset == WASM_INPUT_OFFSET,
        r.bytes@ == encode_utf8(input@),
        r.len == r.bytes@.len() as i32,
{
    let bytes = input.as_bytes_vec();
    let len = bytes.len() as i32;
    WasmRequest {
        import_module: String::from_str("env"),
        import_name: String::from_str("memory"),
        entry: String::from_str("handle"),
        offset: WASM_INPUT_OFFSET,
        bytes,
        len,
    }
}

/// The steps of a full call for request `q`, in order: define the memory,
/// instantiate, look up the entry point, write the input, call the entry point.
pub open spec fn request_plan(q: WasmRequest) -> Seq<SandboxStep> {
    seq![
        SandboxStep::Link(q.import_module@, q.import_name@),
        SandboxStep::Instantiate,
        SandboxStep::Find(q.entry@),
        SandboxStep::Write(q.offset as int, q.bytes@),
        SandboxStep::Call(q.offset as i32, q.len),
    ]
}

/// The steps of a full call on `input`: the memory defined as `env`.`memory`,
/// instantiation, lookup of `handle`, the input's UTF-8 bytes written at
/// `WASM_INPUT_OFFSET`, and the call with that offset and the byte length.
pub open spec fn input_plan(input: Seq<char>) -> Seq<SandboxStep> {
    seq![
        SandboxStep::Link("env"@, "memory"@),
        SandboxStep::Instantiate,
        SandboxStep::Find("handle"@),
        SandboxStep::Write(WASM_INPUT_OFFSET as int, encode_utf8(input)),
        SandboxStep::Call(WASM_INPUT_OFFSET as i32, encode_utf8(input).len() as i32),
    ]
}

/// How one call of a WebAssembly module ended.
pub enum WasmOutcome {
    MemoryFailed(String),
    LinkFailed(String),
    InstantiateFailed(String),
    NoEntry,
    WriteFailed(String),
    CallFailed(String),
    NotI32,
    /// The entry point returned `offset`; `memory` is the sandbox memory
    /// after the call.
    Returned { memory: Vec<u8>, offset: i32 },
}

/// How many steps of the plan a call that ended in `o` took: every step up to
/// the one that failed, and no step after it.
pub open spec fn steps_taken(o: WasmOutcome) -> int {
    match o {
        WasmOutcome::MemoryFailed(_) => 0,
        WasmOutcome::LinkFailed(_) => 1,
        WasmOutcome::InstantiateFailed(_) => 2,
        WasmOutcome::NoEntry => 3,
        WasmOutcome::WriteFailed(_) => 4,
        _ => 5,
    }
}

/// A diagnostic of the WebAssembly loader.
pub open spec fn wasm_error(detail: Seq<char>) -> Seq<char> {
    "[WASM error] "@ + detail
}

/// The reply of a WebAssembly call that ended in `o`.
pub open spec fn wasm_reply_text(o: WasmOutcome) -> Seq<char> {
    match o {
        WasmOutcome::MemoryFailed(e) => wasm_error("memory: "@ + e@),
        WasmOutcome::LinkFailed(e) => wasm_error("link: "@ + e@),
        WasmOutcome::InstantiateFailed(e) => wasm_error("instantiation failed: "@ + e@),
        WasmOutcome::NoEntry => wasm_error("no exported 'handle' function"@),
        WasmOutcome::WriteFailed(e) => wasm_error("memory write: "@ + e@),
        WasmOutcome::CallFailed(e) => wasm_error("call failed: "@ + e@),
        WasmOutcome::NotI32 => wasm_error("unexpected return type"@),
        WasmOutcome::Returned { memory, offset } => utf8_lossy(
            c_string_at(memory@, (offset as u32) as int),
        ),
    }
}

fn wasm_error_with(what: &str, detail: &str) -> (r: String)
    ensures
        r@ == wasm_error(what@ + detail@),
{
    let r = String::from_str("[WASM error] ").concat(what).concat(detail);
    assert(r@ =~= wasm_error(what@ + detail@));
    r
}

/// The reply for a WebAssembly call that ended in `o`: the zero-terminated
/// text at the returned offset, or a diagnostic that names the failed step.
pub fn wasm_reply(o: WasmOutcome) -> (r: String)
    ensures
        r@ == wasm_reply_text(o),
        o matches WasmOutcome::Returned { memory, offset } ==> (valid_utf8(
            c_string_at(memory@, (offset as u32) as int),
        ) ==> r@ == decode_utf8(c_string_at(memory@, (offset as u32) as int))),
{
    match o {
        WasmOutcome::MemoryFailed(e) => wasm_error_with("memory: ", e.as_str()),
        WasmOutcome::LinkFailed(e) => wasm_error_with("link: ", e.as_str()),
        WasmOutcome::InstantiateFailed(e) => wasm_error_with("instantiation failed: ", e.as_str()),
        WasmOutcome::NoEntry => {
            proof {
                reveal_strlit("");
            }
            wasm_error_with("no exported 'handle' function", "")
        },
        WasmOutcome::WriteFailed(e) => wasm_error_with("memory write: ", e.as_str()),
        WasmOutcome::CallFailed(e) => wasm_error_with("call failed: ", e.as_str()),
        WasmOutcome::NotI32 => {
            proof {
                reveal_strlit("");
            }
            wasm_error_with("unexpected return type", "")
        },
        WasmOutcome::Returned { memory, offset } => {
            let start: usize = #[verifier::truncate] (offset as u32 as usize);
            let bytes = read_c_string(memory.as_slice(), start);
            lossy_text(bytes.as_slice())
        },
    }
}

/// Whether `e` is the memory import `env`.`memory`.
pub open spec fn is_memory_import(e: ImportEntry) -> bool {
    e.module@ == "env"@ && e.name@ == "memory"@ && e.memory_minimum is Some
}

/// The declared minimum in pages of the first memory imported as
/// `env`.`memory`, if the module imports one.
pub open spec fn declared_pages(imports: Seq<ImportEntry>) -> Option<u64>
    decreases imports.len(),
{
    if imports.len() == 0 {
        None
    } else if is_memory_import(imports[0]) {
        imports[0].memory_minimum
    } else {
        declared_pages(imports.drop_first())
    }
}

/// The pages of the memory to give a module with these imports: its declared
/// minimum, else `WASM_MEMORY_PAGES`.
pub open spec fn memory_pages_for(imports: Seq<ImportEntry>) -> u64 {
    match declared_pages(imports) {
        Some(m) => m,
        None => WASM_MEMORY_PAGES as u64,
    }
}

/// The pages of the memory to give a module with these imports.
pub fn memory_pages(imports: &Vec<ImportEntry>) -> (r: u64)
    ensures
        r == memory_pages_for(imports@),
{
    let mut i: usize = 0;
    assert(imports@.subrange(0, imports@.len() as int) =~= imports@);
    while i < imports.len()
        invariant
            i <= imports@.len(),
            declared_pages(imports@.subrange(i as int, imports@.len() as int)) == declared_pages(
                imports@,
            ),
        decreases imports.len() - i,
    {
        let e = &imports[i];
        let ghost rest = imports@.subrange(i as int, imports@.len() as int);
        assert(rest[0] == imports@[i as int]);
        if e.memory_minimum.is_some() && e.module == String::from_str("env") && e.name
            == String::from_str("memory") {
            match e.memory_minimum {
                Some(m) => {
                    return m;
                },
                None => {},
            }
        }
        assert(rest.drop_first() =~= imports@.subrange(i + 1, imports@.len() as int));
        i = i + 1;
    }
    assert(imports@.subrange(i as int, imports@.len() as int) =~= Seq::<ImportEntry>::empty());
    WASM_MEMORY_PAGES as u64
}

/// A compiled WebAssembly module. Each call runs in a fresh store with a fresh
/// linear memory of the module's declared minimum size, imported by the module
/// as `env`.`memory`.
pub struct WasmModule {
    engine: wasmtime::Engine,
    module: wasmtime::Module,
    linker: wasmtime::Linker<()>,
    memory_ty: wasmtime::MemoryType,
    pages: u32,
    imports: Vec<ImportEntry>,
}

impl WasmModule {
    /// The pages of the memory that each call gets.
    pub closed spec fn memory_pages(&self) -> u64 {
        self.pages as u64
    }

    /// The compiled module's imports.
    pub closed spec fn imports(&self) -> Seq<ImportEntry> {
        self.imports@
    }

    /// An engine whose linear memories reserve only the address space that
    /// they use. The default engine reserves several GiB of address space for
    /// each memory, which a host with a limit on its address space refuses;
    /// the runtime's documentation gives this setting for that case.
    fn sandbox_engine() -> (r: Result<wasmtime::Engine, String>) {
        new_engine(&memory_config(0, 0))
    }

    /// A module from its compiled form and its imports: each call gets a
    /// memory of `memory_pages_for(imports)` pages; that must fit 32-bit
    /// addresses.
    pub fn from_parts(engine: wasmtime::Engine, module: wasmtime::Module, imports: Vec<
        ImportEntry,
    >) -> (r: Result<Self, LoadError>)
        ensures
            r is Ok <==> memory_pages_for(imports@) <= WASM_MAX_PAGES,
            r matches Ok(m) ==> (m.memory_pages() == memory_pages_for(imports@) && m.imports()
                == imports@),
    {
        let pages = memory_pages(&imports);
        if pages > WASM_MAX_PAGES {
            return Err(
                LoadError {
                    reason: String::from_str("declared memory minimum exceeds 65536 pages"),
                },
            );
        }
        let linker = new_linker(&engine);
        let memory_ty = unbounded_memory_type(pages as u32);
        Ok(WasmModule { engine, module, linker, memory_ty, pages: pages as u32, imports })
    }

    /// A module from the result of compiling it: the compiler's error, or the
    /// module with a memory of its declared minimum size.
    pub fn from_compiled(engine: wasmtime::Engine, compiled: Result<wasmtime::Module, String>) -> (r:
        Result<Self, LoadError>)
        ensures
            compiled matches Err(e) ==> (r matches Err(l) && l.reason == e),
            r is Ok ==> compiled is Ok,
            r matches Ok(m) ==> (m.memory_pages() == memory_pages_for(m.imports())
                && m.memory_pages() <= WASM_MAX_PAGES),
    {
        match compiled {
            Ok(module) => {
                let imports = module_imports(&module);
                Self::from_parts(engine, module, imports)
            },
            Err(reason) => Err(LoadError { reason }),
        }
    }

    /// Compiles the binary or text module in the file at `path`.
    pub fn load(path: &str) -> (r: Result<Self, LoadError>)
        ensures
            r matches Ok(m) ==> (m.memory_pages() == memory_pages_for(m.imports())
                && m.memory_pages() <= WASM_MAX_PAGES),
    {
        match Self::sandbox_engine() {
            Ok(engine) => {
                let compiled = compile_file(&engine, path);
                Self::from_compiled(engine, compiled)
            },
            Err(reason) => Err(LoadError { reason }),
        }
    }

    /// Compiles a binary or text module held in memory.
    pub fn from_bytes(bytes: &[u8]) -> (r: Result<Self, LoadError>)
        ensures
            r matches Ok(m) ==> (m.memory_pages() == memory_pages_for(m.imports())
                && m.memory_pages() <= WASM_MAX_PAGES),
    {
        match Self::sandbox_engine() {
            Ok(engine) => {
                let compiled = compile_bytes(&engine, bytes);
                Self::from_compiled(engine, compiled)
            },
            Err(reason) => Err(LoadError { reason }),
        }
    }

    /// Runs request `q` once in a fresh sandbox and reports how that went,
    /// with the sandbox, whose history holds what was handed to the runtime:
    /// the steps of `request_plan(q)` up to the one that failed, and none after
    /// it. There is no sandbox only when its memory could not be made.
    pub fn run(&self, q: &WasmRequest) -> (r: (WasmOutcome, Option<Sandbox>))
        ensures
            r.1 is None <==> r.0 is MemoryFailed,
            r.1 matches Some(sb) ==> sb.history() == request_plan(*q).take(steps_taken(r.0)),
    {
        let ghost plan = request_plan(*q);
        let mut sb = match open_sandbox(&self.engine, &self.memory_ty) {
            Ok(sb) => sb,
            Err(e) => {
                return (WasmOutcome::MemoryFailed(e), None);
            },
        };
        let mut linker = clone_linker(&self.linker);
        if let Err(e) = define_memory(
            &mut linker,
            &mut sb,
            q.import_module.as_str(),
            q.import_name.as_str(),
        ) {
            assert(sb.history() =~= plan.take(1));
            return (WasmOutcome::LinkFailed(e), Some(sb));
        }
        if let Err(e) = instantiate(&linker, &mut sb, &self.module) {
            assert(sb.history() =~= plan.take(2));
            return (WasmOutcome::InstantiateFailed(e), Some(sb));
        }
        if !find_export(&mut sb, q.entry.as_str()) {
            assert(sb.history() =~= plan.take(3));
            return (WasmOutcome::NoEntry, Some(sb));
        }
        if let Err(e) = write_memory(&mut sb, q.offset as usize, q.bytes.as_slice()) {
            assert(sb.history() =~= plan.take(4));
            return (WasmOutcome::WriteFailed(e), Some(sb));
        }
        let called = call_entry(&mut sb, q.offset as i32, q.len);
        assert(sb.history() =~= plan.take(5));
        let o = match called {
            Err(e) => WasmOutcome::CallFailed(e),
            Ok(None) => WasmOutcome::NotI32,
            Ok(Some(offset)) => WasmOutcome::Returned { memory: memory_contents(&sb), offset },
        };
        (o, Some(sb))
    }
}

impl WasmModule {
    /// Serves `input` once: the reply for the way the call ended, with the
    /// sandbox it ran in, whose history holds the steps of `input_plan(input)`
    /// up to the one that failed and none after it.
    pub fn serve(&self, input: &str) -> (r: (String, Option<Sandbox>))
        ensures
            exists|o: WasmOutcome|
                #![trigger wasm_reply_text(o)]
                r.0@ == wasm_reply_text(o) && (r.1 is None <==> o is MemoryFailed) && (r.1 matches Some(
                    sb,
                ) ==> sb.history() == input_plan(input@).take(steps_taken(o))),
    {
        let q = wasm_request(input);
        assert(request_plan(q) =~= input_plan(input@));
        let (o, sandbox) = self.run(&q);
        let ghost spec_o = o;
        let r = wasm_reply(o);
        assert(r@ == wasm_reply_text(spec_o));
        (r, sandbox)
    }
}

impl DynamicModule for WasmModule {
    /// A reply is the text of some way a call can end; which one depends on
    /// the module and on the runtime.
    open spec fn replies(&self, input: Seq<char>, output: Seq<char>) -> bool {
        exists|o: WasmOutcome| #[trigger] wasm_reply_text(o) == output
    }

    fn handle(&self, input: &str) -> (r: String) {
        let (r, _sandbox) = self.serve(input);
        r
    }
}

/// How one call of a Lua script ended.
pub enum ScriptOutcome {
    StartFailed(String),
    LoadFailed(String),
    NoEntry(String),
    CallFailed(String),
    Returned(ScriptValue),
}

/// The reply of a script call that ended in `o`.
pub open spec fn script_reply_text(o: ScriptOutcome) -> Seq<char> {
    match o {
        ScriptOutcome::StartFailed(e) => "[Lua error] interpreter: "@ + e@,
        ScriptOutcome::LoadFailed(e) => "[Lua error] script load: "@ + e@,
        ScriptOutcome::NoEntry(e) => "[Lua error] no 'handle' function: "@ + e@,
        ScriptOutcome::CallFailed(e) => "[Lua error] call: "@ + e@,
        ScriptOutcome::Returned(ScriptValue::Text(Some(t))) => t@,
        ScriptOutcome::Returned(ScriptValue::Text(None)) => Seq::empty(),
        ScriptOutcome::Returned(ScriptValue::Other(d)) => "[Lua] Non-string return: "@ + d@,
    }
}

fn prefixed(prefix: &str, detail: &str) -> (r: String)
    ensures
        r@ == prefix@ + detail@,
{
    String::from_str(prefix).concat(detail)
}

/// The reply for a script call that ended in `o`: the string that the entry
/// point returned, or a diagnostic.
pub fn script_reply(o: ScriptOutcome) -> (r: String)
    ensures
        r@ == script_reply_text(o),
{
    match o {
        ScriptOutcome::StartFailed(e) => prefixed("[Lua error] interpreter: ", e.as_str()),
        ScriptOutcome::LoadFailed(e) => prefixed("[Lua error] script load: ", e.as_str()),
        ScriptOutcome::NoEntry(e) => prefixed("[Lua error] no 'handle' function: ", e.as_str()),
        ScriptOutcome::CallFailed(e) => prefixed("[Lua error] call: ", e.as_str()),
        ScriptOutcome::Returned(ScriptValue::Text(Some(t))) => t,
        ScriptOutcome::Returned(ScriptValue::Text(None)) => String::new(),
        ScriptOutcome::Returned(ScriptValue::Other(d)) => prefixed(
            "[Lua] Non-string return: ",
            d.as_str(),
        ),
    }
}

/// The name of the global function that a script defines as its entry point.
pub fn script_entry() -> (r: &'static str)
    ensures
        r@ == "handle"@,
{
    "handle"
}

/// A Lua script, run in a fresh interpreter on each call; its global function
/// `handle` takes the input string and returns the output string.
pub struct ScriptingModule {
    script: String,
}

impl ScriptingModule {
    /// A module running the script `source`.
    pub fn from_source(source: String) -> (r: Self)
        ensures
            r.source() == source@,
    {
        ScriptingModule { script: source }
    }

    /// The script's source text.
    pub closed spec fn source(&self) -> Seq<char> {
        self.script@
    }

    /// Runs the script once on `input` in a fresh interpreter and reports how
    /// that went, with the interpreter, whose history holds what was handed to
    /// it: the steps of `script_plan` up to the one that failed, and none after
    /// it. There is no interpreter only when none could be started.
    pub fn run(&self, input: &str) -> (r: (ScriptOutcome, Option<Interpreter>))
        ensures
            r.1 is None <==> r.0 is StartFailed,
            r.1 matches Some(i) ==> i.history() == script_plan(self.source(), input@).take(
                script_steps_taken(r.0),
            ),
    {
        let ghost plan = script_plan(self.source(), input@);
        let mut interp = match new_interpreter() {
            Ok(i) => i,
            Err(e) => {
                return (ScriptOutcome::StartFailed(e), None);
            },
        };
        if let Err(e) = exec_chunk(&mut interp, self.script.as_str()) {
            assert(interp.history() =~= plan.take(1));
            return (ScriptOutcome::LoadFailed(e), Some(interp));
        }
        let o = match call_global(&mut interp, script_entry(), input) {
            Err(e) => {
                assert(interp.history() =~= plan.take(2));
                ScriptOutcome::NoEntry(e)
            },
            Ok(Err(e)) => {
                assert(interp.history() =~= plan.take(3));
                ScriptOutcome::CallFailed(e)
            },
            Ok(Ok(v)) => {
                assert(interp.history() =~= plan.take(3));
                ScriptOutcome::Returned(v)
            },
        };
        (o, Some(interp))
    }
}

/// The steps of a full script call on `input`: run the source, look up the
/// entry point, call it with the input.
pub open spec fn script_plan(source: Seq<char>, input: Seq<char>) -> Seq<ScriptStep> {
    seq![ScriptStep::Exec(source), ScriptStep::Lookup("handle"@), ScriptStep::Call(input)]
}

/// How many steps of the plan a script call that ended in `o` took.
pub open spec fn script_steps_taken(o: ScriptOutcome) -> int {
    match o {
        ScriptOutcome::StartFailed(_) => 0,
        ScriptOutcome::LoadFailed(_) => 1,
        ScriptOutcome::NoEntry(_) => 2,
        _ => 3,
    }
}

impl ScriptingModule {
    /// Serves `input` once: the reply for the way the call ended, with the
    /// interpreter it ran in, whose history holds the steps of
    /// `script_plan(source, input)` up to the one that failed and none after it.
    pub fn serve(&self, input: &str) -> (r: (String, Option<Interpreter>))
        ensures
            exists|o: ScriptOutcome|
                #![trigger script_reply_text(o)]
                r.0@ == script_reply_text(o) && (r.1 is None <==> o is StartFailed) && (r.1 matches Some(
                    i,
                ) ==> i.history() == script_plan(self.source(), input@).take(
                    script_steps_taken(o),
                )),
    {
        let (o, interpreter) = self.run(input);
        let ghost spec_o = o;
        let r = script_reply(o);
        assert(r@ == script_reply_text(spec_o));
        (r, interpreter)
    }
}

impl DynamicModule for ScriptingModule {
    /// A script's entry point may return any string, so any text may be a
    /// script's reply; `script_reply` says which text each outcome gives.
    open spec fn replies(&self, input: Seq<char>, output: Seq<char>) -> bool {
        true
    }

    fn handle(&self, input: &str) -> (r: String) {
        let (r, _interpreter) = self.serve(input);
        r
    }
}

/// A WebAssembly call that failed at any step, in the runtime or in the
/// module, replies with a diagnostic that says so rather than failing.
pub proof fn wasm_failures_are_diagnostics(o: WasmOutcome)
    ensures
        !(o is Returned) ==> has_prefix(wasm_reply_text(o), "[WASM error] "@),
{
    let t = wasm_reply_text(o);
    if !(o is Returned) {
        let lit = "[WASM error] "@;
        assert(t.subrange(0, lit.len() as int) =~= lit);
    }
}

/// A script call that failed while loading the script, finding its entry
/// point or running it replies with a diagnostic that says so rather than
/// failing.
pub proof fn script_failures_are_diagnostics(o: ScriptOutcome)
    ensures
        !(o is Returned) ==> has_prefix(script_reply_text(o), "[Lua error] "@),
{
    reveal_strlit("[Lua error] ");
    reveal_strlit("[Lua error] interpreter: ");
    reveal_strlit("[Lua error] script load: ");
    reveal_strlit("[Lua error] no 'handle' function: ");
    reveal_strlit("[Lua error] call: ");
    let t = script_reply_text(o);
    if !(o is Returned) {
        let lit = "[Lua error] "@;
        assert(t.subrange(0, lit.len() as int) =~= lit);
    }
}

} // verus!
