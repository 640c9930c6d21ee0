//! The parts of the wasmtime runtime that the WebAssembly loader uses.
//!
//! Each value of the runtime is opaque here. Errors of the runtime come back as
//! their display text. A store and the memory, instance and function created in
//! it live together in one `Sandbox`, whose fields only the wrappers below
//! touch, so none of the runtime's checks that a value belongs to its store can
//! fail. Each wrapper that acts on a sandbox records in its ghost history what
//! it handed to the runtime.
use vstd::prelude::*;
use wasmtime::Config as EngineConfig;

verus! {

#[verifier::external_type_specification]
#[verifier::external_body]
pub struct ExEngine(wasmtime::Engine);

#[verifier::external_type_specification]
#[verifier::external_body]
pub struct ExModule(wasmtime::Module);

#[verifier::external_type_specification]
#[verifier::external_body]
#[verifier::reject_recursive_types(T)]
pub struct ExLinker<T>(wasmtime::Linker<T>);

#[verifier::external_type_specification]
#[verifier::external_body]
#[verifier::reject_recursive_types(T)]
pub struct ExStore<T>(wasmtime::Store<T>);

#[verifier::external_type_specification]
#[verifier::external_body]
pub struct ExMemoryType(wasmtime::MemoryType);

/// One import of a compiled module: its module and field name, and the
/// declared minimum in pages when it is a memory.
pub struct ImportEntry {
    pub module: String,
    pub name: String,
    pub memory_minimum: Option<u64>,
}

/// What a wrapper handed to the runtime for a sandbox.
pub enum SandboxStep {
    /// A memory defined as the import `module`.`name`.
    Link(Seq<char>, Seq<char>),
    /// The module instantiated.
    Instantiate,
    /// An export of this name looked up.
    Find(Seq<char>),
    /// These bytes written at this offset of the memory.
    Write(int, Seq<u8>),
    /// The entry point called with these two arguments.
    Call(i32, i32),
}

/// A fresh store with one linear memory, and what has been made in it.
pub struct Sandbox {
    store: wasmtime::Store<()>,
    memory: wasmtime::Memory,
    instance: Option<wasmtime::Instance>,
    entry: Option<wasmtime::Func>,
    history: Ghost<Seq<SandboxStep>>,
}

impl Sandbox {
    /// What has been handed to the runtime for this sandbox, in order.
    pub closed spec fn history(&self) -> Seq<SandboxStep> {
        self.history@
    }

    /// Whether a module has been instantiated in the sandbox.
    pub closed spec fn instantiated(&self) -> bool {
        self.instance is Some
    }

    /// Whether the entry point has been found.
    pub closed spec fn has_entry(&self) -> bool {
        self.entry is Some
    }
}

#[verifier::external_type_specification]
#[verifier::external_body]
pub struct ExMemory(wasmtime::Memory);

#[verifier::external_type_specification]
#[verifier::external_body]
pub struct ExInstance(wasmtime::Instance);

#[verifier::external_type_specification]
#[verifier::external_body]
pub struct ExFunc(wasmtime::Func);

#[verifier::external_type_specification]
#[verifier::external_body]
pub struct ExEngineConfig(EngineConfig);

/// Relies on `Config::new`, `Config::static_memory_maximum_size` and
/// `Config::dynamic_memory_reserved_for_growth`: the default configuration,
/// except that a linear memory larger than `static_max` bytes is allocated
/// dynamically, with `growth` bytes of address space reserved beyond its size.
#[verifier::external_body]
pub(crate) fn memory_config(static_max: u64, growth: u64) -> (r: EngineConfig) {
    let mut config = EngineConfig::new();
    config.static_memory_maximum_size(static_max);
    config.dynamic_memory_reserved_for_growth(growth);
    config
}

/// Relies on `Engine::new`: an engine with this configuration. Asynchronous
/// support stays off, as the configuration does not turn it on, so no call
/// below meets the runtime's panic for asynchronous stores.
#[verifier::external_body]
pub(crate) fn new_engine(config: &EngineConfig) -> (r: Result<wasmtime::Engine, String>) {
    match wasmtime::Engine::new(config) {
        Ok(e) => Ok(e),
        Err(e) => Err(format!("{}", e)),
    }
}

/// Relies on `Module::from_file`: compiles the binary or text module in a file.
#[verifier::external_body]
pub(crate) fn compile_file(engine: &wasmtime::Engine, path: &str) -> (r: Result<
    wasmtime::Module,
    String,
>) {
    match wasmtime::Module::from_file(engine, path) {
        Ok(m) => Ok(m),
        Err(e) => Err(format!("{}", e)),
    }
}

/// Relies on `Module::new`: compiles a binary or text module held in memory.
#[verifier::external_body]
pub(crate) fn compile_bytes(engine: &wasmtime::Engine, bytes: &[u8]) -> (r: Result<
    wasmtime::Module,
    String,
>) {
    match wasmtime::Module::new(engine, bytes) {
        Ok(m) => Ok(m),
        Err(e) => Err(format!("{}", e)),
    }
}

/// Relies on `Module::imports`, `ImportType::module`, `ImportType::name`,
/// `ImportType::ty` and `MemoryType::minimum`: the module's imports in order.
#[verifier::external_body]
pub(crate) fn module_imports(module: &wasmtime::Module) -> (r: Vec<ImportEntry>) {
    module.imports().map(|i| ImportEntry {
        module: i.module().to_string(),
        name: i.name().to_string(),
        memory_minimum: match i.ty() {
            wasmtime::ExternType::Memory(m) => Some(m.minimum()),
            _ => None,
        },
    }).collect()
}

/// Relies on `Linker::new`: a linker with nothing defined yet.
#[verifier::external_body]
pub(crate) fn new_linker(engine: &wasmtime::Engine) -> (r: wasmtime::Linker<()>) {
    wasmtime::Linker::new(engine)
}

/// Relies on `Linker::clone`: a linker with the same definitions.
#[verifier::external_body]
pub(crate) fn clone_linker(linker: &wasmtime::Linker<()>) -> (r: wasmtime::Linker<()>) {
    linker.clone()
}

/// Relies on `MemoryType::new`: the type of a memory of `minimum` pages and no
/// maximum. It panics when that many 64 KiB pages exceed 32-bit addresses.
#[verifier::external_body]
pub(crate) fn unbounded_memory_type(minimum: u32) -> (r: wasmtime::MemoryType)
    requires
        minimum <= 65536,
{
    wasmtime::MemoryType::new(minimum, None)
}

/// Relies on `Store::new` and `Memory::new`: a fresh store, sharing nothing
/// with other stores, and a new linear memory of type `ty` in it.
#[verifier::external_body]
pub(crate) fn open_sandbox(engine: &wasmtime::Engine, ty: &wasmtime::MemoryType) -> (r: Result<
    Sandbox,
    String,
>)
    ensures
        r matches Ok(sb) ==> (sb.history() == Seq::<SandboxStep>::empty() && !sb.instantiated()
            && !sb.has_entry()),
{
    let mut store = wasmtime::Store::new(engine, ());
    match wasmtime::Memory::new(&mut store, ty.clone()) {
        Ok(memory) => Ok(Sandbox {
            store,
            memory,
            instance: None,
            entry: None,
            history: Ghost(Seq::empty()),
        }),
        Err(e) => Err(format!("{}", e)),
    }
}

/// Relies on `Linker::define`: makes the sandbox's memory the import
/// `module`.`name`.
#[verifier::external_body]
pub(crate) fn define_memory(
    linker: &mut wasmtime::Linker<()>,
    sb: &mut Sandbox,
    module: &str,
    name: &str,
) -> (r: Result<(), String>)
    ensures
        final(sb).history() == old(sb).history().push(SandboxStep::Link(module@, name@)),
        final(sb).instantiated() == old(sb).instantiated(),
        final(sb).has_entry() == old(sb).has_entry(),
{
    match linker.define(&sb.store, module, name, sb.memory) {
        Ok(_) => Ok(()),
        Err(e) => Err(format!("{}", e)),
    }
}

/// Relies on `Linker::instantiate`: instantiates `module` in the sandbox
/// against the linker's definitions.
#[verifier::external_body]
pub(crate) fn instantiate(
    linker: &wasmtime::Linker<()>,
    sb: &mut Sandbox,
    module: &wasmtime::Module,
) -> (r: Result<(), String>)
    ensures
        final(sb).history() == old(sb).history().push(SandboxStep::Instantiate),
        r is Ok ==> final(sb).instantiated(),
        final(sb).has_entry() == old(sb).has_entry(),
{
    match linker.instantiate(&mut sb.store, module) {
        Ok(i) => {
            sb.instance = Some(i);
            Ok(())
        },
        Err(e) => Err(format!("{}", e)),
    }
}

/// Relies on `Instance::get_func`: looks up the exported function `name` of
/// the sandbox's instance; says whether there is one.
#[verifier::external_body]
pub(crate) fn find_export(sb: &mut Sandbox, name: &str) -> (found: bool)
    requires
        old(sb).instantiated(),
    ensures
        final(sb).history() == old(sb).history().push(SandboxStep::Find(name@)),
        final(sb).instantiated(),
        found == final(sb).has_entry(),
{
    if let Some(instance) = sb.instance {
        sb.entry = instance.get_func(&mut sb.store, name);
    }
    sb.entry.is_some()
}

/// Relies on `Memory::write`: copies `bytes` into the sandbox's memory at
/// `offset`, or fails, writing nothing, when they do not fit.
#[verifier::external_body]
pub(crate) fn write_memory(sb: &mut Sandbox, offset: usize, bytes: &[u8]) -> (r: Result<(), String>)
    ensures
        final(sb).history() == old(sb).history().push(SandboxStep::Write(offset as int, bytes@)),
        final(sb).instantiated() == old(sb).instantiated(),
        final(sb).has_entry() == old(sb).has_entry(),
{
    match sb.memory.write(&mut sb.store, offset, bytes) {
        Ok(()) => Ok(()),
        Err(e) => Err(format!("{}", e)),
    }
}

/// Relies on `Func::call`: calls the sandbox's entry point with two 32-bit
/// arguments and one result slot; the result is `Some` when it came back as a
/// 32-bit integer.
#[verifier::external_body]
pub(crate) fn call_entry(sb: &mut Sandbox, a: i32, b: i32) -> (r: Result<Option<i32>, String>)
    requires
        old(sb).has_entry(),
    ensures
        final(sb).history() == old(sb).history().push(SandboxStep::Call(a, b)),
{
    let mut results = [wasmtime::Val::I32(0)];
    let params = [wasmtime::Val::I32(a), wasmtime::Val::I32(b)];
    match sb.entry {
        Some(func) => match func.call(&mut sb.store, &params, &mut results) {
            Ok(()) => match results[0] {
                wasmtime::Val::I32(v) => Ok(Some(v)),
                _ => Ok(None),
            },
            Err(e) => Err(format!("{}", e)),
        },
        None => Ok(None),
    }
}

/// Relies on `Memory::data`: a copy of the sandbox memory's current contents.
#[verifier::external_body]
pub(crate) fn memory_contents(sb: &Sandbox) -> (r: Vec<u8>) {
    sb.memory.data(&sb.store).to_vec()
}

} // verus!
