//! A stand-alone engine with the greeting module, and the script that calls
//! it.

use crate::engine::{
    callback_outcome, exec_source, script_outcome, BindingError, Fault, ScriptError,
};
use vstd::prelude::*;
use vstd::string::*;

verus! {

/// The line the greeting module hands to the host for a name.
pub open spec fn hello_text(name: Seq<char>) -> Seq<char> {
    "hello, "@ + name + "!"@
}

/// The script that greets a name through the greeting module.
pub open spec fn hello_script_text(name: Seq<char>) -> Seq<char> {
    "my_module.hello('"@ + name + "')"@
}

/// Writes the line the greeting module hands to the host for a name.
pub fn hello_line(name: &str) -> (r: String)
    ensures
        r@ == hello_text(name@),
{
    let mut r = String::from_str("hello, ");
    r.append(name);
    r.append("!");
    r
}

/// Writes the script that greets a name through the greeting module.
pub fn hello_script(name: &str) -> (r: String)
    ensures
        r@ == hello_script_text(name@),
{
    let mut r = String::from_str("my_module.hello('");
    r.append(name);
    r.append("')");
    r
}

/// The greeting module's one function: hands the host the line for `name`.
pub fn hello<F: Fn(String)>(greet: &F, name: String)
    requires
        forall|line: String| greet.requires((line,)),
    ensures
        exists|line: String| line@ == hello_text(name@) && #[trigger] greet.ensures((line,), ()),
{
    let line = hello_line(name.as_str());
    greet(line)
}

/// Creates an engine with no standard library loaded.
///
/// Calls `mlua::Lua::new_with` with `StdLib::NONE` and the default options.
/// Nothing is claimed of the outcome. An error of the engine is handed on as
/// a `Fault`: its message, and whether it is mlua's `SyntaxError`.
#[verifier::external_body]
fn new_bare_engine() -> Result<mlua::Lua, Fault> {
    mlua::Lua::new_with(mlua::StdLib::NONE, mlua::LuaOptions::default()).map_err(
        |e| Fault {
            from_compiling: matches!(e, mlua::Error::SyntaxError { .. }),
            message: e.to_string(),
        },
    )
}

/// Makes a table of the engine, makes a function of the engine that takes a
/// text and runs `hello` on `greet` and that text, sets the table's member
/// `member` to the function, and sets the engine's global `module` to the
/// table.
///
/// Calls `mlua::Lua::create_table`, `mlua::Lua::create_function`,
/// `mlua::Table::set` on the new table, then `mlua::Lua::globals` and
/// `mlua::Table::set`, all on the one engine. The outer error is the failure
/// to make the function, the inner one any other failure. Nothing is claimed
/// of the outcome. An error of the engine is handed on as a `Fault`: its
/// message, and whether it is mlua's `SyntaxError`.
#[verifier::external_body]
fn set_global_module<F>(lua: &mlua::Lua, module: &str, member: &str, greet: F) -> Result<
    Result<(), Fault>,
    Fault,
> where F: Fn(String) + 'static
    requires
        forall|line: String| greet.requires((line,)),
{
    let fault = |e: mlua::Error| Fault {
        from_compiling: matches!(e, mlua::Error::SyntaxError { .. }),
        message: e.to_string(),
    };
    let table = match lua.create_table() {
        Ok(table) => table,
        Err(e) => return Ok(Err(fault(e))),
    };
    match lua.create_function(move |_, name: String| Ok(hello(&greet, name))) {
        Ok(f) => Ok(
            table.set(member, f).and_then(|_| lua.globals().set(module, table)).map_err(fault),
        ),
        Err(e) => Err(fault(e)),
    }
}

/// Makes the greeting module, a table whose member `hello` runs `hello` on
/// `greet`, and binds it as the engine's global `my_module`. The engine
/// decides whether that can be done; its refusal is reported as
/// `FunctionRejected` where it could not make the function and as `Rejected`
/// otherwise.
pub fn create_my_module<F>(lua: &mlua::Lua, greet: F) -> (r: Result<(), BindingError>) where
    F: Fn(String) + 'static,
    requires
        forall|line: String| greet.requires((line,)),
    ensures
        !(r matches Err(BindingError::InvalidHandle)),
{
    callback_outcome(set_global_module(lua, "my_module", "hello", greet))
}

/// What `init` reports for the outcomes of the engine: the engine where it
/// was made and the greeting module was bound, `Rejected` with the engine's
/// message where no engine was made, and otherwise the error of the binding.
pub fn init_outcome(made: Result<(mlua::Lua, Result<(), BindingError>), Fault>) -> (r: Result<
    mlua::Lua,
    BindingError,
>)
    ensures
        made matches Err(fault) ==> r == Err::<mlua::Lua, BindingError>(
            BindingError::Rejected(fault.message),
        ),
        made matches Ok(pair) ==> match pair.1 {
            Ok(_) => r == Ok::<mlua::Lua, BindingError>(pair.0),
            Err(e) => r == Err::<mlua::Lua, BindingError>(e),
        },
{
    match made {
        Err(fault) => Err(BindingError::Rejected(fault.message)),
        Ok((lua, bound)) => match bound {
            Ok(()) => Ok(lua),
            Err(e) => Err(e),
        },
    }
}

/// An engine without standard libraries whose global `my_module` is the
/// greeting module. The engine decides whether it can be made; its refusal
/// is reported as `FunctionRejected` for the function and as `Rejected`
/// otherwise.
pub fn init<F>(greet: F) -> (r: Result<mlua::Lua, BindingError>) where F: Fn(String) + 'static
    requires
        forall|line: String| greet.requires((line,)),
    ensures
        !(r matches Err(BindingError::InvalidHandle)),
{
    match new_bare_engine() {
        Err(fault) => init_outcome(Err(fault)),
        Ok(lua) => {
            let bound = create_my_module(&lua, greet);
            init_outcome(Ok((lua, bound)))
        },
    }
}

/// Runs the script that greets `name` on the engine. The engine decides the
/// outcome; a handle is not involved, so `InvalidHandle` is never reported.
pub fn run_script(lua: &mlua::Lua, name: String) -> (r: Result<(), ScriptError>)
    ensures
        !(r matches Err(ScriptError::InvalidHandle)),
{
    let script = hello_script(name.as_str());
    script_outcome(exec_source(lua, script.as_str()))
}

} // verus!
