//! The registry of embedded engine instances.
//!
//! An engine is reached through a handle: a small number the registry hands
//! out on creation and checks on every use. A handle is never handed out
//! twice, so a handle whose engine was destroyed stays invalid for good.

use crate::marshal::{
    encode_c_text, lemma_nul_position_unique, text_to_c_bytes, ConversionError,
};
use vstd::prelude::*;
use vstd::string::*;
use vstd::utf8::*;

verus! {

#[verifier::external_type_specification]
#[verifier::external_body]
pub struct ExLua(mlua::Lua);

/// What the engine reports when it refuses or faults.
#[derive(Debug)]
pub struct Fault {
    /// Whether the engine failed to compile a source, rather than to run it
    /// or to do anything else.
    pub from_compiling: bool,
    /// The engine's own words for the fault.
    pub message: String,
}

/// Why a script did not run to its end.
#[derive(Debug)]
pub enum ScriptError {
    /// The handle names no live engine.
    InvalidHandle,
    /// The source could not be compiled.
    Compile(String),
    /// The script faulted while it ran.
    Runtime(String),
}

/// Why a global could not be bound.
#[derive(Debug)]
pub enum BindingError {
    /// The handle names no live engine.
    InvalidHandle,
    /// The engine refused the name or the value.
    Rejected(String),
    /// The engine could not make a function of the callback.
    FunctionRejected(String),
}

impl ScriptError {
    /// The line that tells the operator of this error.
    pub open spec fn diagnostic_text(&self) -> Seq<char> {
        match self {
            ScriptError::InvalidHandle => "Error executing Lua code: invalid engine handle"@,
            ScriptError::Compile(m) => "Error executing Lua code: "@ + m@,
            ScriptError::Runtime(m) => "Error executing Lua code: "@ + m@,
        }
    }

    /// Writes the line that tells the operator of this error.
    pub fn diagnostic(&self) -> (r: String)
        ensures
            r@ == self.diagnostic_text(),
    {
        match self {
            ScriptError::InvalidHandle => String::from_str(
                "Error executing Lua code: invalid engine handle",
            ),
            ScriptError::Compile(m) => String::from_str("Error executing Lua code: ").concat(
                m.as_str(),
            ),
            ScriptError::Runtime(m) => String::from_str("Error executing Lua code: ").concat(
                m.as_str(),
            ),
        }
    }
}

impl BindingError {
    /// The line that tells the operator of this error.
    pub open spec fn diagnostic_text(&self) -> Seq<char> {
        match self {
            BindingError::InvalidHandle => "Error setting global: invalid engine handle"@,
            BindingError::Rejected(m) => "Error setting global: "@ + m@,
            BindingError::FunctionRejected(m) => "Error creating Lua function: "@ + m@,
        }
    }

    /// Writes the line that tells the operator of this error.
    pub fn diagnostic(&self) -> (r: String)
        ensures
            r@ == self.diagnostic_text(),
    {
        match self {
            BindingError::InvalidHandle => String::from_str(
                "Error setting global: invalid engine handle",
            ),
            BindingError::Rejected(m) => String::from_str("Error setting global: ").concat(
                m.as_str(),
            ),
            BindingError::FunctionRejected(m) => String::from_str(
                "Error creating Lua function: ",
            ).concat(m.as_str()),
        }
    }
}

/// Creates an engine with the safe standard libraries loaded.
///
/// Calls `mlua::Lua::new`, which stops the process where no engine can be
/// allocated. Nothing is claimed of the engine it returns.
#[verifier::external_body]
fn new_engine() -> mlua::Lua {
    mlua::Lua::new()
}

/// Sets or overwrites a global of the engine with a text.
///
/// Calls `mlua::Lua::globals` and `mlua::Table::set` on the table it returns,
/// both on the one engine. Nothing is claimed of the outcome. An error of the
/// engine is handed on as a `Fault`: its message, and whether it is mlua's
/// `SyntaxError`.
#[verifier::external_body]
fn set_global_text(lua: &mlua::Lua, name: &str, value: &str) -> Result<(), Fault> {
    lua.globals().set(name, value).map_err(
        |e| Fault {
            from_compiling: matches!(e, mlua::Error::SyntaxError { .. }),
            message: e.to_string(),
        },
    )
}

/// Makes a function of the engine that, each time a script calls it, runs
/// `trampoline` on `callback` and raises what that reports as an error of the
/// script, and sets a global of the same engine to that function.
///
/// Calls `mlua::Lua::create_function`, then `mlua::Lua::globals` and
/// `mlua::Table::set`, all on the one engine. The outer error is the failure
/// to make the function, the inner one the failure to set the global.
/// Nothing is claimed of the outcome. An error of the engine is handed on as
/// a `Fault`: its message, and whether it is mlua's `SyntaxError`.
#[verifier::external_body]
fn set_global_callback<F>(lua: &mlua::Lua, name: &str, callback: F) -> Result<
    Result<(), Fault>,
    Fault,
> where F: Fn(Vec<u8>) -> Result<(), String> + 'static
    requires
        forall|v: Vec<u8>| callback.requires((v,)),
{
    let fault = |e: mlua::Error| Fault {
        from_compiling: matches!(e, mlua::Error::SyntaxError { .. }),
        message: e.to_string(),
    };
    match lua.create_function(
        move |_, ()| trampoline(&callback).map_err(mlua::Error::RuntimeError),
    ) {
        Ok(function) => Ok(lua.globals().set(name, function).map_err(fault)),
        Err(e) => Err(fault(e)),
    }
}

/// Compiles and runs a script on the engine.
///
/// Calls `mlua::Lua::load` and `mlua::Chunk::exec` on the chunk it returns,
/// which comes back when the script has finished or faulted. Nothing is
/// claimed of the outcome. An error of the engine is handed on as a `Fault`:
/// its message, and whether it is mlua's `SyntaxError`.
#[verifier::external_body]
pub(crate) fn exec_source(lua: &mlua::Lua, source: &str) -> Result<(), Fault> {
    lua.load(source).exec().map_err(
        |e| Fault {
            from_compiling: matches!(e, mlua::Error::SyntaxError { .. }),
            message: e.to_string(),
        },
    )
}

/// The text a bound callback is handed each time a script calls it.
pub open spec fn callback_text() -> Seq<char> {
    "Hello, world!"@
}

/// The callback text as it crosses the boundary: its bytes, closed by a zero
/// byte.
pub open spec fn callback_bytes() -> Seq<u8> {
    seq![72u8, 101u8, 108u8, 108u8, 111u8, 44u8, 32u8, 119u8, 111u8, 114u8, 108u8, 100u8, 33u8, 0u8]
}

/// The callback text can cross the boundary, and `callback_bytes` is what it
/// crosses as.
pub proof fn lemma_callback_text_encodes()
    ensures
        encode_c_text(callback_text()) == Ok::<Seq<u8>, ConversionError>(callback_bytes()),
{
    reveal_strlit("Hello, world!");
    let chars = callback_text();
    assert(chars.len() == 13);
    assert(is_ascii_chars(chars));
    is_ascii_chars_encode_utf8(chars);
    let bytes = encode_utf8(chars);
    assert(bytes =~= callback_bytes().subrange(0, 13));
    lemma_nul_position_unique(bytes, 13);
    assert(bytes.push(0u8) =~= callback_bytes());
}

/// Enters host code from a running script: hands the callback text, as
/// `callback_bytes`, to `callback`, once, and returns its verdict, which the
/// engine raises in the script where it is an error.
pub fn trampoline<F: Fn(Vec<u8>) -> Result<(), String>>(callback: &F) -> (r: Result<(), String>)
    requires
        forall|v: Vec<u8>| callback.requires((v,)),
    ensures
        exists|v: Vec<u8>| v@ == callback_bytes() && #[trigger] callback.ensures((v,), r),
{
    proof {
        lemma_callback_text_encodes();
    }
    match text_to_c_bytes("Hello, world!") {
        Ok(bytes) => callback(bytes),
        Err(_) => {
            proof {
                assert(false);
            }
            Err(String::new())
        },
    }
}

/// The script error that stands for a fault of the engine: a compile error
/// where the fault came from compiling, a runtime error otherwise, each with
/// the engine's message.
pub open spec fn script_error_of(fault: Fault) -> ScriptError {
    if fault.from_compiling {
        ScriptError::Compile(fault.message)
    } else {
        ScriptError::Runtime(fault.message)
    }
}

/// What a binding reports for an outcome of the engine: success for success,
/// and a rejection with the engine's message for a fault.
pub open spec fn binding_result(outcome: Result<(), Fault>) -> Result<(), BindingError> {
    match outcome {
        Ok(_) => Ok(()),
        Err(fault) => Err(BindingError::Rejected(fault.message)),
    }
}

/// What the binding of a callback reports: where no function could be made
/// of the callback, `FunctionRejected` with the engine's message; otherwise
/// what the binding of the function reports.
pub open spec fn callback_result(created: Result<Result<(), Fault>, Fault>) -> Result<
    (),
    BindingError,
> {
    match created {
        Ok(bound) => binding_result(bound),
        Err(fault) => Err(BindingError::FunctionRejected(fault.message)),
    }
}

/// The script error that stands for a fault of the engine, from its parts.
pub fn classify_fault(from_compiling: bool, message: String) -> (e: ScriptError)
    ensures
        e == script_error_of(Fault { from_compiling, message }),
{
    if from_compiling {
        ScriptError::Compile(message)
    } else {
        ScriptError::Runtime(message)
    }
}

/// What `eval` reports for an outcome of the engine: success for success, and
/// for a fault the script error that stands for it.
pub fn script_outcome(outcome: Result<(), Fault>) -> (r: Result<(), ScriptError>)
    ensures
        outcome is Ok ==> r is Ok,
        outcome matches Err(fault) ==> r == Err::<(), ScriptError>(script_error_of(fault)),
{
    match outcome {
        Ok(()) => Ok(()),
        Err(fault) => Err(classify_fault(fault.from_compiling, fault.message)),
    }
}

/// What a binding reports for an outcome of the engine.
pub fn binding_outcome(outcome: Result<(), Fault>) -> (r: Result<(), BindingError>)
    ensures
        r == binding_result(outcome),
{
    match outcome {
        Ok(()) => Ok(()),
        Err(fault) => Err(BindingError::Rejected(fault.message)),
    }
}

/// What the binding of a callback reports for an outcome of the engine.
pub fn callback_outcome(created: Result<Result<(), Fault>, Fault>) -> (r: Result<
    (),
    BindingError,
>)
    ensures
        r == callback_result(created),
{
    match created {
        Ok(bound) => binding_outcome(bound),
        Err(fault) => Err(BindingError::FunctionRejected(fault.message)),
    }
}

/// The engines of one host, each under the handle it was created with.
pub struct EngineRegistry {
    slots: Vec<Option<mlua::Lua>>,
}

/// Liveness after `destroy`: the handle's entry is cleared, where there is
/// one, and nothing else changes.
pub open spec fn destroyed(live: Seq<bool>, handle: usize) -> Seq<bool> {
    if handle < live.len() {
        live.update(handle as int, false)
    } else {
        live
    }
}

impl EngineRegistry {
    /// What the registry holds under a handle: an engine, or nothing once the
    /// engine was destroyed. Only handles below `issued` are meaningful.
    pub closed spec fn slot(&self, handle: int) -> Option<mlua::Lua> {
        self.slots@[handle]
    }

    /// How many handles were handed out so far.
    pub closed spec fn issued(&self) -> nat {
        self.slots@.len()
    }

    /// Whether a handle names an engine that was created and not destroyed.
    pub open spec fn is_live(&self, handle: usize) -> bool {
        handle < self.issued() && self.slot(handle as int) is Some
    }

    /// The liveness of every handle handed out so far, by handle.
    pub open spec fn view(&self) -> Seq<bool> {
        Seq::new(self.issued(), |h: int| self.slot(h) is Some)
    }

    /// A registry without engines.
    pub fn new() -> (r: Self)
        ensures
            r.issued() == 0,
            r@ == Seq::<bool>::empty(),
    {
        let r = EngineRegistry { slots: Vec::new() };
        assert(r@ =~= Seq::<bool>::empty());
        r
    }

    /// Creates an engine and returns its handle: the next number that was
    /// never handed out. Every other handle keeps its engine.
    pub fn create(&mut self) -> (handle: usize)
        ensures
            handle == old(self).issued(),
            final(self).issued() == old(self).issued() + 1,
            final(self).is_live(handle),
            final(self)@ == old(self)@.push(true),
            forall|h: int| 0 <= h < old(self).issued() ==> final(self).slot(h) == old(self).slot(h),
    {
        let handle = self.slots.len();
        self.slots.push(Some(new_engine()));
        assert(self@ =~= old(self)@.push(true));
        handle
    }

    /// Destroys the engine under a handle and tells whether there was one.
    /// On a handle that is not live this does nothing.
    pub fn destroy(&mut self, handle: usize) -> (freed: bool)
        ensures
            freed == old(self).is_live(handle),
            !final(self).is_live(handle),
            final(self).issued() == old(self).issued(),
            final(self)@ == destroyed(old(self)@, handle),
            forall|h: int|
                0 <= h < old(self).issued() && h != handle ==> final(self).slot(h) == old(
                    self,
                ).slot(h),
    {
        if handle < self.slots.len() {
            let freed = self.slots[handle].is_some();
            self.slots.set(handle, None);
            assert(self@ =~= destroyed(old(self)@, handle));
            freed
        } else {
            assert(self@ =~= destroyed(old(self)@, handle));
            false
        }
    }

    /// Whether a handle names a live engine.
    pub fn contains(&self, handle: usize) -> (r: bool)
        ensures
            r == self.is_live(handle),
    {
        handle < self.slots.len() && self.slots[handle].is_some()
    }

    /// The engine under a handle, where the handle is live.
    pub fn engine(&self, handle: usize) -> (r: Option<&mlua::Lua>)
        ensures
            r is Some <==> self.is_live(handle),
            r is Some ==> self.slot(handle as int) == Some(*r->0),
    {
        if handle < self.slots.len() {
            match &self.slots[handle] {
                Some(lua) => Some(lua),
                None => None,
            }
        } else {
            None
        }
    }

    /// Sets or overwrites a global of the engine under `handle` with a text.
    /// Fails with `InvalidHandle` exactly when the handle is not live;
    /// otherwise the engine decides, and its refusal is reported as
    /// `Rejected`.
    pub fn bind_text(&self, handle: usize, name: &str, value: &str) -> (r: Result<
        (),
        BindingError,
    >)
        ensures
            r matches Err(BindingError::InvalidHandle) <==> !self.is_live(handle),
            !(r matches Err(BindingError::FunctionRejected(_))),
    {
        match self.engine(handle) {
            None => Err(BindingError::InvalidHandle),
            Some(lua) => binding_outcome(set_global_text(lua, name, value)),
        }
    }

    /// Registers `callback` under a global name of the engine under `handle`.
    /// A script may then call it any number of times; each call runs
    /// `trampoline` on it. Fails with `InvalidHandle` exactly when the handle
    /// is not live; otherwise the engine decides: where it cannot make a
    /// function of the callback that is reported as `FunctionRejected`, and
    /// where it refuses the binding, as `Rejected`.
    pub fn bind_function<F>(&self, handle: usize, name: &str, callback: F) -> (r: Result<
        (),
        BindingError,
    >) where F: Fn(Vec<u8>) -> Result<(), String> + 'static
        requires
            forall|v: Vec<u8>| callback.requires((v,)),
        ensures
            r matches Err(BindingError::InvalidHandle) <==> !self.is_live(handle),
    {
        match self.engine(handle) {
            None => Err(BindingError::InvalidHandle),
            Some(lua) => callback_outcome(set_global_callback(lua, name, callback)),
        }
    }

    /// Compiles and runs a script on the engine under `handle`, and returns
    /// when it has finished or faulted. Fails with `InvalidHandle` exactly
    /// when the handle is not live; otherwise the engine decides. The
    /// registry is not changed either way, so the handle stays live after a
    /// fault.
    pub fn eval(&self, handle: usize, source: &str) -> (r: Result<(), ScriptError>)
        ensures
            r matches Err(ScriptError::InvalidHandle) <==> !self.is_live(handle),
    {
        match self.engine(handle) {
            None => Err(ScriptError::InvalidHandle),
            Some(lua) => script_outcome(exec_source(lua, source)),
        }
    }
}

/// Destroying is idempotent: a second `destroy` of the same handle leaves
/// every handle's liveness as the first left it.
pub proof fn lemma_destroy_idempotent(live: Seq<bool>, handle: usize)
    ensures
        destroyed(destroyed(live, handle), handle) == destroyed(live, handle),
        handle < live.len() ==> !destroyed(live, handle)[handle as int],
{
    assert(destroyed(destroyed(live, handle), handle) =~= destroyed(live, handle));
}

} // verus!
