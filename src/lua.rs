//! The calls into the Lua engine, each with what it is relied on for.
use vstd::prelude::*;

use crate::command::run_command;
use crate::error::{outcome_view, Errors};
use crate::host::{Channel, Invoker};
use crate::sandbox::{dangerous_globals_spec, sanitize, Sanitized};
use crate::value::{stringify_spec, ScriptValue};

verus! {

/// A Lua state (`rlua::Lua`), carried opaquely.
#[verifier::external_type_specification]
#[verifier::external_body]
pub struct ExLua(rlua::Lua);

/// An engine error (`rlua::Error`), carried opaquely until its message is taken.
#[verifier::external_type_specification]
#[verifier::external_body]
pub struct ExLuaError(rlua::Error);

/// A handle on a Lua state for the length of one `Lua::context` call.
#[verifier::external_type_specification]
#[verifier::external_body]
pub struct ExContext<'lua>(rlua::Context<'lua>);

/// A reference to a Lua table.
#[verifier::external_type_specification]
#[verifier::external_body]
pub struct ExTable<'lua>(rlua::Table<'lua>);

/// A reference to a Lua function.
#[verifier::external_type_specification]
#[verifier::external_body]
pub struct ExFunction<'lua>(rlua::Function<'lua>);

/// A Lua value, read through `script_value`.
#[verifier::external_type_specification]
#[verifier::external_body]
pub struct ExValue<'lua>(rlua::Value<'lua>);

/// Relies on `rlua::Lua::new`: a new, independent Lua state with the standard
/// libraries except `debug`.
#[verifier::external_body]
pub(crate) fn new_lua() -> (r: rlua::Lua) {
    rlua::Lua::new()
}

/// Relies on `rlua::Lua::context`, which calls its closure once and returns
/// what it returns: here, the outcome of `sanitize`.
#[verifier::external_body]
pub(crate) fn sanitize_state(lua: &rlua::Lua) -> (r: Result<Sanitized, Errors>)
    ensures
        r is Ok ==> r->Ok_0.cleared() == dangerous_globals_spec(),
        r is Err ==> r->Err_0 is InitializationError,
{
    lua.context(|ctx| sanitize(ctx))
}

/// Relies on `rlua::Lua::context`, which calls its closure once and returns
/// what it returns: here, the outcome of `run_command`.
#[verifier::external_body]
pub(crate) fn run_in_state(
    lua: &rlua::Lua,
    chunk_name: &str,
    source: &str,
    args: Vec<String>,
    channel: &Channel,
    invoker: &Invoker,
) -> (r: Result<String, Errors>)
    ensures
        r is Ok ==> exists|v: ScriptValue| outcome_view(r) == stringify_spec(v),
        r is Err ==> !(r->Err_0 is InitializationError),
{
    lua.context(|ctx| run_command(ctx, chunk_name, source, args, channel, invoker))
}

/// Relies on `rlua::Context::globals`: the table of the state's globals.
#[verifier::external_body]
pub(crate) fn globals<'lua>(ctx: rlua::Context<'lua>) -> (r: rlua::Table<'lua>) {
    ctx.globals()
}

/// Relies on `rlua::Table::set`, setting `key` to nil.
#[verifier::external_body]
pub(crate) fn clear_field<'lua>(t: &rlua::Table<'lua>, key: &str) -> (r: Result<(), rlua::Error>) {
    t.set(key, rlua::Value::Nil)
}

/// Relies on `rlua::Table::get`: the value under `key`, nil when absent.
#[verifier::external_body]
pub(crate) fn read_field<'lua>(t: &rlua::Table<'lua>, key: &str) -> (r: Result<
    rlua::Value<'lua>,
    rlua::Error,
>) {
    t.get::<_, rlua::Value>(key)
}

/// Relies on the variants of `rlua::Value`: tells the kind of a value and
/// copies out its plain contents.
#[verifier::external_body]
pub(crate) fn script_value<'lua>(v: &rlua::Value<'lua>) -> (r: ScriptValue) {
    match v {
        rlua::Value::Nil => ScriptValue::Nil,
        rlua::Value::Boolean(b) => ScriptValue::Boolean(*b),
        rlua::Value::Integer(i) => ScriptValue::Integer(*i),
        rlua::Value::Number(n) => ScriptValue::Number(n.to_bits()),
        rlua::Value::String(s) => ScriptValue::Str(s.as_bytes().to_vec()),
        rlua::Value::Table(_) => ScriptValue::Table,
        rlua::Value::Function(_) => ScriptValue::Function,
        rlua::Value::Thread(_) => ScriptValue::Thread,
        rlua::Value::LightUserData(_) | rlua::Value::UserData(_) => ScriptValue::UserData,
        rlua::Value::Error(_) => ScriptValue::Error,
    }
}

/// Relies on the variant `rlua::Value::Table`: the table, when the value is one.
#[verifier::external_body]
pub(crate) fn into_table<'lua>(v: rlua::Value<'lua>) -> (r: Option<rlua::Table<'lua>>) {
    match v {
        rlua::Value::Table(t) => Some(t),
        _ => None,
    }
}

/// Relies on the variant `rlua::Value::Function`: the function, when the value is one.
#[verifier::external_body]
pub(crate) fn into_function<'lua>(v: rlua::Value<'lua>) -> (r: Option<rlua::Function<'lua>>) {
    match v {
        rlua::Value::Function(f) => Some(f),
        _ => None,
    }
}

/// Relies on `Display` for `rlua::Error`: the error's message.
#[verifier::external_body]
pub(crate) fn error_text(e: &rlua::Error) -> (r: String) {
    e.to_string()
}

/// Relies on `rlua::Context::load` with `Chunk::set_name` and `Chunk::eval`:
/// compiles `source` under `chunk_name` and runs it, giving its first result.
#[verifier::external_body]
pub(crate) fn eval_chunk<'lua>(ctx: rlua::Context<'lua>, source: &str, chunk_name: &str) -> (r:
    Result<rlua::Value<'lua>, rlua::Error>) {
    ctx.load(source).set_name(chunk_name)?.eval::<rlua::Value>()
}

/// Relies on `rlua::Function::call`: calls `f` with one argument, the sequence
/// table of `args`, and gives its first result.
#[verifier::external_body]
pub(crate) fn call_function<'lua>(f: &rlua::Function<'lua>, args: Vec<String>) -> (r: Result<
    rlua::Value<'lua>,
    rlua::Error,
>) {
    f.call::<_, rlua::Value>(args)
}

} // verus!
