//! Binding endpoint paths to plugin modules, and routing a request path to
//! the module bound to it, to a lifecycle control operation, or past the
//! plugins altogether.
use crate::text::{drop_chars, ends_with, has_prefix, has_suffix, starts_with};
use vstd::prelude::*;

verus! {

/// The kind of a plugin module, which decides the loader.
#[derive(Clone, Copy, Debug, PartialEq, Eq, Structural)]
pub enum PluginKind {
    CAbi,
    NativeVTable,
    Wasm,
    Script,
}

/// The text of `f` after the prefix `p`.
pub open spec fn after(f: Seq<char>, p: Seq<char>) -> Seq<char> {
    f.subrange(p.len() as int, f.len() as int)
}

/// The kind and the file that a configured plugin file reference names. An
/// explicit tag (`cabi:`, `vtable:`, `wasm:`, `lua:`) before the file name
/// decides the kind; otherwise the extension does (`.so`, `.wasm` or `.wat`,
/// `.lua`). Any other reference names no known kind.
pub open spec fn file_kind(f: Seq<char>) -> Option<(PluginKind, Seq<char>)> {
    if has_prefix(f, "cabi:"@) {
        Some((PluginKind::CAbi, after(f, "cabi:"@)))
    } else if has_prefix(f, "vtable:"@) {
        Some((PluginKind::NativeVTable, after(f, "vtable:"@)))
    } else if has_prefix(f, "wasm:"@) {
        Some((PluginKind::Wasm, after(f, "wasm:"@)))
    } else if has_prefix(f, "lua:"@) {
        Some((PluginKind::Script, after(f, "lua:"@)))
    } else if has_suffix(f, ".so"@) {
        Some((PluginKind::CAbi, f))
    } else if has_suffix(f, ".wasm"@) || has_suffix(f, ".wat"@) {
        Some((PluginKind::Wasm, f))
    } else if has_suffix(f, ".lua"@) {
        Some((PluginKind::Script, f))
    } else {
        None
    }
}

fn tagged(f: &str, tag: &str, kind: PluginKind) -> (r: Option<(PluginKind, String)>)
    ensures
        has_prefix(f@, tag@) ==> (r matches Some((k, g)) && k == kind && g@ == after(f@, tag@)),
        !has_prefix(f@, tag@) ==> r is None,
{
    if starts_with(f, tag) {
        Some((kind, drop_chars(f, tag.unicode_len())))
    } else {
        None
    }
}

/// The loader kind and file for the configured file reference `file`.
pub fn kind_of_file(file: &str) -> (r: Option<(PluginKind, String)>)
    ensures
        match file_kind(file@) {
            Some((k, f)) => (r matches Some((k2, f2)) && k2 == k && f2@ == f),
            None => r is None,
        },
{
    let t = tagged(file, "cabi:", PluginKind::CAbi);
    if t.is_some() {
        return t;
    }
    let t = tagged(file, "vtable:", PluginKind::NativeVTable);
    if t.is_some() {
        return t;
    }
    let t = tagged(file, "wasm:", PluginKind::Wasm);
    if t.is_some() {
        return t;
    }
    let t = tagged(file, "lua:", PluginKind::Script);
    if t.is_some() {
        return t;
    }
    if ends_with(file, ".so") {
        Some((PluginKind::CAbi, String::from_str(file)))
    } else if ends_with(file, ".wasm") || ends_with(file, ".wat") {
        Some((PluginKind::Wasm, String::from_str(file)))
    } else if ends_with(file, ".lua") {
        Some((PluginKind::Script, String::from_str(file)))
    } else {
        None
    }
}

/// One endpoint binding: requests to `path` go to the module of kind `kind`
/// loaded from `file`.
pub struct Binding {
    pub path: String,
    pub kind: PluginKind,
    pub file: String,
}

/// A binding as plain values: path, kind and file.
pub open spec fn binding_view(b: Binding) -> (Seq<char>, PluginKind, Seq<char>) {
    (b.path@, b.kind, b.file@)
}

pub open spec fn bindings_view(bs: Seq<Binding>) -> Seq<(Seq<char>, PluginKind, Seq<char>)> {
    bs.map_values(|b: Binding| binding_view(b))
}

/// Whether some binding of `bs` has the path `p`.
pub open spec fn binds(bs: Seq<(Seq<char>, PluginKind, Seq<char>)>, p: Seq<char>) -> bool {
    exists|i: int| 0 <= i < bs.len() && (#[trigger] bs[i]).0 == p
}

/// Whether no two bindings of `bs` share a path.
pub open spec fn unique_paths(bs: Seq<(Seq<char>, PluginKind, Seq<char>)>) -> bool {
    forall|i: int, j: int| 0 <= i < j < bs.len() ==> (#[trigger] bs[i]).0 != (#[trigger] bs[j]).0
}

/// The bindings that the configured endpoints `(path, file reference)` give,
/// in their order: an endpoint whose file names no known kind is skipped, and
/// of several endpoints with one path only the first is kept.
pub open spec fn plan_of(entries: Seq<(String, String)>) -> Seq<(Seq<char>, PluginKind, Seq<char>)>
    decreases entries.len(),
{
    if entries.len() == 0 {
        seq![]
    } else {
        let prev = plan_of(entries.drop_last());
        let e = entries.last();
        match file_kind(e.1@) {
            Some((k, f)) => if binds(prev, e.0@) {
                prev
            } else {
                prev.push((e.0@, k, f))
            },
            None => prev,
        }
    }
}

fn find_binding(bs: &Vec<Binding>, path: &String) -> (r: Option<usize>)
    ensures
        r matches Some(i) ==> (i < bs@.len() && bs@[i as int].path@ == path@),
        r is Some <==> binds(bindings_view(bs@), path@),
{
    let mut i: usize = 0;
    while i < bs.len()
        invariant
            i <= bs@.len(),
            forall|j: int| 0 <= j < i ==> bs@[j].path@ != path@,
        decreases bs.len() - i,
    {
        if bs[i].path == *path {
            assert(bindings_view(bs@)[i as int] == binding_view(bs@[i as int]));
            return Some(i);
        }
        i = i + 1;
    }
    proof {
        let v = bindings_view(bs@);
        assert forall|j: int| 0 <= j < v.len() implies (#[trigger] v[j]).0 != path@ by {
            assert(v[j] == binding_view(bs@[j]));
        }
    }
    None
}

/// The bindings that the configured endpoints give: see `plan_of`.
pub fn plan_bindings(entries: &Vec<(String, String)>) -> (r: Vec<Binding>)
    ensures
        bindings_view(r@) == plan_of(entries@),
{
    let mut out: Vec<Binding> = Vec::new();
    let mut i: usize = 0;
    while i < entries.len()
        invariant
            i <= entries@.len(),
            bindings_view(out@) == plan_of(entries@.take(i as int)),
        decreases entries.len() - i,
    {
        let ghost prefix = entries@.take(i as int + 1);
        assert(prefix.drop_last() =~= entries@.take(i as int));
        let path = &entries[i].0;
        let file = &entries[i].1;
        match kind_of_file(file.as_str()) {
            Some((kind, f)) => {
                if find_binding(&out, path).is_none() {
                    let ghost before = out@;
                    out.push(Binding { path: path.clone(), kind, file: f });
                    assert(bindings_view(out@) =~= bindings_view(before).push(
                        (path@, kind, file_kind(file@).unwrap().1),
                    ));
                }
            },
            None => {},
        }
        assert(bindings_view(out@) == plan_of(prefix));
        i = i + 1;
    }
    assert(entries@.take(entries@.len() as int) =~= entries@);
    out
}

/// Every plan gives each path at most one binding.
pub proof fn plan_paths_unique(entries: Seq<(String, String)>)
    ensures
        unique_paths(plan_of(entries)),
    decreases entries.len(),
{
    if entries.len() > 0 {
        plan_paths_unique(entries.drop_last());
    }
}

/// The path at which the reloadable native plugin serves requests.
pub const RELOADABLE_PATH: &'static str = "/rust-plugin";

/// The control path that reloads the reloadable plugin.
pub const RELOAD_PATH: &'static str = "/reload-rust-plugin";

/// The control path that runs the reloadable plugin's init hook.
pub const INIT_PATH: &'static str = "/init-rust-plugin";

/// The control path that runs the reloadable plugin's shutdown hook.
pub const SHUTDOWN_PATH: &'static str = "/shutdown-rust-plugin";

/// A lifecycle operation on the reloadable plugin.
#[derive(Clone, Copy, Debug, PartialEq, Eq, Structural)]
pub enum ControlOp {
    Init,
    Shutdown,
    Reload,
}

/// Where a request goes.
#[derive(Clone, Copy, Debug, PartialEq, Eq, Structural)]
pub enum Route {
    /// A lifecycle operation on the reloadable plugin.
    Control(ControlOp),
    /// The reloadable plugin itself.
    Reloadable,
    /// The module at this index of the registry.
    Module(usize),
    /// No plugin: the request goes on to the ordinary handler pipeline.
    PassThrough,
}

/// The route of a reserved path, if `p` is one.
pub open spec fn reserved_route(p: Seq<char>) -> Option<Route> {
    if p == RELOAD_PATH@ {
        Some(Route::Control(ControlOp::Reload))
    } else if p == INIT_PATH@ {
        Some(Route::Control(ControlOp::Init))
    } else if p == SHUTDOWN_PATH@ {
        Some(Route::Control(ControlOp::Shutdown))
    } else if p == RELOADABLE_PATH@ {
        Some(Route::Reloadable)
    } else {
        None
    }
}

/// Whether `r` is the route of a request to `p`, given the registry's paths:
/// a reserved path goes to its fixed route; any other path goes to the module
/// bound to exactly that path, or past the plugins when none is.
pub open spec fn routes_to(paths: Seq<Seq<char>>, p: Seq<char>, r: Route) -> bool {
    match reserved_route(p) {
        Some(fixed) => r == fixed,
        None => match r {
            Route::Module(i) => i < paths.len() && paths[i as int] == p,
            Route::PassThrough => !paths.contains(p),
            _ => false,
        },
    }
}

/// Loaded modules by endpoint path; no two share a path.
pub struct ModuleRegistry<M> {
    entries: Vec<(String, M)>,
}

impl<M> ModuleRegistry<M> {
    /// The bound paths, in the order they were bound.
    pub closed spec fn paths(&self) -> Seq<Seq<char>> {
        self.entries@.map_values(|e: (String, M)| e.0@)
    }

    /// The bound modules, in the same order as `paths`.
    pub closed spec fn modules(&self) -> Seq<M> {
        self.entries@.map_values(|e: (String, M)| e.1)
    }

    /// No two modules share a path.
    pub closed spec fn wf(&self) -> bool {
        self.paths().no_duplicates()
    }

    /// An empty registry.
    pub fn new() -> (r: Self)
        ensures
            r.wf(),
            r.paths() == Seq::<Seq<char>>::empty(),
            r.modules() == Seq::<M>::empty(),
    {
        let r = ModuleRegistry { entries: Vec::new() };
        assert(r.paths() =~= Seq::<Seq<char>>::empty());
        assert(r.modules() =~= Seq::<M>::empty());
        r
    }

    /// The number of bound modules.
    pub fn len(&self) -> (n: usize)
        ensures
            n == self.paths().len(),
    {
        self.entries.len()
    }

    /// The index of the module bound to `path`, if any.
    pub fn position(&self, path: &str) -> (r: Option<usize>)
        ensures
            r matches Some(i) ==> (i < self.paths().len() && self.paths()[i as int] == path@),
            r is None ==> !self.paths().contains(path@),
    {
        let p = String::from_str(path);
        let mut i: usize = 0;
        while i < self.entries.len()
            invariant
                i <= self.entries@.len(),
                p@ == path@,
                forall|j: int| 0 <= j < i ==> self.entries@[j].0@ != path@,
            decreases self.entries.len() - i,
        {
            if self.entries[i].0 == p {
                return Some(i);
            }
            i = i + 1;
        }
        proof {
            if self.paths().contains(path@) {
                let j = choose|j: int| 0 <= j < self.paths().len() && self.paths()[j] == path@;
                assert(self.entries@[j].0@ == path@);
            }
        }
        None
    }

    /// Binds `module` to `path`, unless some module is bound to it already;
    /// says whether it did.
    pub fn bind(&mut self, path: String, module: M) -> (added: bool)
        requires
            old(self).wf(),
        ensures
            final(self).wf(),
            added == !old(self).paths().contains(path@),
            added ==> final(self).paths() == old(self).paths().push(path@),
            added ==> final(self).modules() == old(self).modules().push(module),
            !added ==> final(self).paths() == old(self).paths(),
            !added ==> final(self).modules() == old(self).modules(),
    {
        match self.position(path.as_str()) {
            Some(_) => false,
            None => {
                let ghost before = *self;
                self.entries.push((path, module));
                assert(self.paths() =~= before.paths().push(path@));
                assert(self.modules() =~= before.modules().push(module));
                true
            },
        }
    }

    /// The module at index `i`.
    pub fn module_at(&self, i: usize) -> (m: &M)
        requires
            i < self.paths().len(),
        ensures
            *m == self.modules()[i as int],
    {
        &self.entries[i].1
    }

    /// The route of a request to `path`.
    pub fn route(&self, path: &str) -> (r: Route)
        ensures
            routes_to(self.paths(), path@, r),
    {
        let p = String::from_str(path);
        if p == String::from_str(RELOAD_PATH) {
            Route::Control(ControlOp::Reload)
        } else if p == String::from_str(INIT_PATH) {
            Route::Control(ControlOp::Init)
        } else if p == String::from_str(SHUTDOWN_PATH) {
            Route::Control(ControlOp::Shutdown)
        } else if p == String::from_str(RELOADABLE_PATH) {
            Route::Reloadable
        } else {
            match self.position(path) {
                Some(i) => Route::Module(i),
                None => Route::PassThrough,
            }
        }
    }
}

/// A request reaches at most one module, the one bound to its exact path; a
/// request to a path that no binding names, and that is not reserved, reaches
/// no module and goes on past the plugins.
pub proof fn route_reaches_only_its_module<M>(
    reg: ModuleRegistry<M>,
    p: Seq<char>,
    r: Route,
    i: usize,
)
    requires
        reg.wf(),
        routes_to(reg.paths(), p, r),
        i < reg.paths().len(),
    ensures
        r == Route::Module(i) <==> (reserved_route(p) is None && reg.paths()[i as int] == p),
        reserved_route(p) is None && !reg.paths().contains(p) ==> r == Route::PassThrough,
{
    if reserved_route(p) is None && reg.paths()[i as int] == p {
        assert(reg.paths().contains(p));
        if let Route::Module(j) = r {
            assert(reg.paths()[j as int] == p);
            assert(reg.paths().no_duplicates());
            assert(j == i);
        }
    }
}

} // verus!
