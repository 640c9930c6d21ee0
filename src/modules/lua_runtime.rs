//! The parts of the Lua interpreter that the script loader uses.
//!
//! Interpreter values are opaque here; errors come back as their display text.
//! Each wrapper that acts on an interpreter records in its ghost history what
//! it handed to the interpreter.
use vstd::prelude::*;

verus! {

#[verifier::external_type_specification]
#[verifier::external_body]
pub struct ExLua(rlua::Lua);

/// What a Lua function returned, as the script loader tells it apart.
pub enum ScriptValue {
    /// A Lua string; `None` when it is not valid UTF-8.
    Text(Option<String>),
    /// Any other Lua value, in its debug form.
    Other(String),
}

/// What a wrapper handed to an interpreter.
pub enum ScriptStep {
    /// This source run as one chunk.
    Exec(Seq<char>),
    /// The global of this name looked up as a function.
    Lookup(Seq<char>),
    /// That function called with this string.
    Call(Seq<char>),
}

/// A fresh Lua interpreter, and what has been handed to it.
pub struct Interpreter {
    lua: rlua::Lua,
    history: Ghost<Seq<ScriptStep>>,
}

impl Interpreter {
    /// What has been handed to this interpreter, in order.
    pub closed spec fn history(&self) -> Seq<ScriptStep> {
        self.history@
    }
}

/// Relies on `Lua::new_with` with the `coroutine`, `table`, `string`, `utf8`
/// and `math` libraries: a fresh interpreter with no `os`, `io` or `package`
/// library, so a script can neither end the host process (`os.exit`) nor run
/// commands or load native code. Without the `debug` library `new_with` fails
/// only when the interpreter state cannot be set up.
#[verifier::external_body]
pub(crate) fn new_interpreter() -> (r: Result<Interpreter, String>)
    ensures
        r matches Ok(i) ==> i.history() == Seq::<ScriptStep>::empty(),
{
    let libs = rlua::StdLib::COROUTINE | rlua::StdLib::TABLE | rlua::StdLib::STRING
        | rlua::StdLib::UTF8 | rlua::StdLib::MATH;
    match rlua::Lua::new_with(libs, rlua::LuaOptions::default()) {
        Ok(lua) => Ok(Interpreter { lua, history: Ghost(Seq::empty()) }),
        Err(e) => Err(format!("{}", e)),
    }
}

/// Relies on `Lua::load` and `Chunk::exec`: runs `source` as one chunk.
#[verifier::external_body]
pub(crate) fn exec_chunk(interp: &mut Interpreter, source: &str) -> (r: Result<(), String>)
    ensures
        final(interp).history() == old(interp).history().push(ScriptStep::Exec(source@)),
{
    match interp.lua.load(source).exec() {
        Ok(()) => Ok(()),
        Err(e) => Err(format!("{}", e)),
    }
}

/// Relies on `Lua::globals`, `Table::get` and `Function::call`: looks up the
/// global function `name` (the outer `Err` when there is none) and calls it
/// with one string argument (the inner result).
#[verifier::external_body]
pub(crate) fn call_global(interp: &mut Interpreter, name: &str, input: &str) -> (r: Result<
    Result<ScriptValue, String>,
    String,
>)
    ensures
        r is Err ==> final(interp).history() == old(interp).history().push(
            ScriptStep::Lookup(name@),
        ),
        r is Ok ==> final(interp).history() == old(interp).history().push(
            ScriptStep::Lookup(name@),
        ).push(ScriptStep::Call(input@)),
{
    let func = match interp.lua.globals().get::<_, rlua::Function>(name) {
        Ok(f) => f,
        Err(e) => return Err(format!("{}", e)),
    };
    Ok(match func.call::<_, rlua::Value>(input) {
        Ok(rlua::Value::String(s)) => Ok(ScriptValue::Text(s.to_str().ok().map(String::from))),
        Ok(v) => Ok(ScriptValue::Other(format!("{:?}", v))),
        Err(e) => Err(format!("{}", e)),
    })
}

} // verus!
