use vstd::prelude::*;

use crate::error::{outcome_view, ErrorView, Errors};
use crate::host::{Channel, Invoker};
use crate::lua::{call_function, error_text, eval_chunk, into_function, into_table, read_field, script_value};
use crate::sandbox::expose_host;
use crate::value::{kind_name, kind_name_spec, stringify_value, stringify_spec, ScriptValue};

verus! {

/// An outcome without a value, seen through the view of its error.
pub open spec fn unit_view(r: Result<(), Errors>) -> Result<(), ErrorView> {
    match r {
        Ok(()) => Ok(()),
        Err(e) => Err(e@),
    }
}

/// What running a command's registry chunk means: an engine error is a Lua
/// error with its message; a table is the command; anything else is no command.
pub open spec fn resolve_spec(loaded: Result<ScriptValue, String>) -> Result<(), ErrorView> {
    match loaded {
        Err(m) => Err(ErrorView::Lua(m@)),
        Ok(ScriptValue::Table) => Ok(()),
        Ok(_) => Err(ErrorView::CommandNotFound),
    }
}

/// Judges what a command's registry chunk gave (see [`resolve_spec`]).
pub fn resolve_command(loaded: &Result<ScriptValue, String>) -> (r: Result<(), Errors>)
    ensures
        unit_view(r) == resolve_spec(*loaded),
{
    match loaded {
        Err(m) => Err(Errors::LuaError(m.clone())),
        Ok(ScriptValue::Table) => Ok(()),
        Ok(_) => Err(Errors::CommandNotFound),
    }
}

/// The message of the error for an `execute` field of kind `field`, which
/// cannot be called.
pub open spec fn not_callable_message(field: ScriptValue) -> Seq<char> {
    "attempt to call a "@ + kind_name_spec(field) + " value (field 'execute')"@
}

/// What the field `execute` of a command must be: a function; anything else,
/// nil included, is a Lua error.
pub open spec fn entry_point_spec(field: ScriptValue) -> Result<(), ErrorView> {
    match field {
        ScriptValue::Function => Ok(()),
        _ => Err(ErrorView::Lua(not_callable_message(field))),
    }
}

/// Judges the field `execute` of a command (see [`entry_point_spec`]).
pub fn entry_point(field: &ScriptValue) -> (r: Result<(), Errors>)
    ensures
        unit_view(r) == entry_point_spec(*field),
{
    match field {
        ScriptValue::Function => Ok(()),
        _ => {
            let mut message = "attempt to call a ".to_string();
            message.append(kind_name(field));
            message.append(" value (field 'execute')");
            Err(Errors::LuaError(message))
        },
    }
}

/// What the call of `execute` means to the host: its value as text, or the
/// error it raised as a Lua error with its message.
pub open spec fn translate_spec(outcome: Result<ScriptValue, String>) -> Result<Seq<char>, ErrorView> {
    match outcome {
        Ok(v) => stringify_spec(v),
        Err(m) => Err(ErrorView::Lua(m@)),
    }
}

/// Turns the outcome of the call of `execute` into the request's result.
pub fn translate_outcome(outcome: &Result<ScriptValue, String>) -> (r: Result<String, Errors>)
    ensures
        outcome_view(r) == translate_spec(*outcome),
{
    match outcome {
        Ok(v) => stringify_value(v),
        Err(m) => Err(Errors::LuaError(m.clone())),
    }
}

/// A field `execute` that is missing or not a function ends the request in a
/// Lua error, never in success or in another error.
pub proof fn lemma_non_callable_entry_is_lua_error(field: ScriptValue)
    requires
        !(field is Function),
    ensures
        entry_point_spec(field) is Err,
        entry_point_spec(field)->Err_0 is Lua,
        entry_point_spec(ScriptValue::Nil)->Err_0 == ErrorView::Lua(
            not_callable_message(ScriptValue::Nil),
        ),
{
}

/// A registry chunk that gives nil, or anything but a table, names no command.
pub proof fn lemma_non_table_is_not_found(v: ScriptValue)
    requires
        !(v is Table),
    ensures
        resolve_spec(Ok(v)) == Err::<(), ErrorView>(ErrorView::CommandNotFound),
{
}

/// Runs a registered command in a sanitized state: runs its registry chunk,
/// takes the table it gives, binds the host objects, calls its `execute` with
/// `args` and translates the outcome. A success is always the text of the
/// value the command returned.
pub fn run_command<'lua>(
    ctx: rlua::Context<'lua>,
    chunk_name: &str,
    source: &str,
    args: Vec<String>,
    channel: &Channel,
    invoker: &Invoker,
) -> (r: Result<String, Errors>)
    ensures
        r is Ok ==> exists|v: ScriptValue| outcome_view(r) == stringify_spec(v),
        r is Err ==> !(r->Err_0 is InitializationError),
{
    let value = match eval_chunk(ctx, source, chunk_name) {
        Ok(v) => v,
        Err(e) => {
            return Err(Errors::LuaError(error_text(&e)));
        },
    };
    match resolve_command(&Ok(script_value(&value))) {
        Ok(()) => {},
        Err(e) => {
            return Err(e);
        },
    }
    let table = match into_table(value) {
        Some(t) => t,
        None => {
            return Err(Errors::CommandNotFound);
        },
    };
    match expose_host(ctx, channel, invoker) {
        Ok(()) => {},
        Err(e) => {
            return Err(e);
        },
    }
    let field = match read_field(&table, "execute") {
        Ok(v) => v,
        Err(e) => {
            return Err(Errors::LuaError(error_text(&e)));
        },
    };
    match entry_point(&script_value(&field)) {
        Ok(()) => {},
        Err(e) => {
            return Err(e);
        },
    }
    let function = match into_function(field) {
        Some(f) => f,
        None => {
            return Err(Errors::LuaError("attempt to call a non-function value (field 'execute')".to_string()));
        },
    };
    let outcome = match call_function(&function, args) {
        Ok(v) => Ok(script_value(&v)),
        Err(e) => Err(error_text(&e)),
    };
    let r = translate_outcome(&outcome);
    proof {
        if r is Ok {
            assert(outcome_view(r) == stringify_spec(outcome->Ok_0));
        }
    }
    r
}

} // verus!
