use vstd::prelude::*;

use crate::error::{ErrorView, Errors};
use crate::host::{Channel, Invoker};
use crate::lua::{call_function, clear_field, error_text, eval_chunk, globals, into_function, read_field, script_value};
use crate::value::ScriptValue;

verus! {

/// The globals removed from every new state before any command runs: file and
/// process access, module loading, loading code from text or files, the debug
/// library, control of the collector, and raw writes that bypass metatables.
pub open spec fn dangerous_globals_spec() -> Seq<Seq<char>> {
    seq![
        "io"@,
        "os"@,
        "package"@,
        "require"@,
        "dofile"@,
        "loadfile"@,
        "load"@,
        "debug"@,
        "collectgarbage"@,
        "rawset"@,
    ]
}

/// How many globals are removed.
pub const DANGEROUS_GLOBAL_COUNT: usize = 10;

/// The `i`-th global that is removed.
pub fn dangerous_global(i: usize) -> (r: &'static str)
    requires
        i < DANGEROUS_GLOBAL_COUNT,
    ensures
        r@ == dangerous_globals_spec()[i as int],
{
    if i == 0 {
        "io"
    } else if i == 1 {
        "os"
    } else if i == 2 {
        "package"
    } else if i == 3 {
        "require"
    } else if i == 4 {
        "dofile"
    } else if i == 5 {
        "loadfile"
    } else if i == 6 {
        "load"
    } else if i == 7 {
        "debug"
    } else if i == 8 {
        "collectgarbage"
    } else {
        "rawset"
    }
}

/// The message of the error for a global that is still there after removal.
pub open spec fn still_present_message(name: Seq<char>) -> Seq<char> {
    "global still present after sanitizing: "@ + name
}

/// Judges what reading `name` back gave after it was removed: only nil passes.
pub fn removal_check(name: &str, observed: &ScriptValue) -> (r: Result<(), Errors>)
    ensures
        r is Ok <==> *observed is Nil,
        r is Err ==> r->Err_0@ == ErrorView::Initialization(still_present_message(name@)),
{
    match observed {
        ScriptValue::Nil => Ok(()),
        _ => {
            let mut message = "global still present after sanitizing: ".to_string();
            message.append(name);
            Err(Errors::InitializationError(message))
        },
    }
}

/// Evidence that a state was sanitized: only [`sanitize`] makes one, after it
/// has removed every dangerous global and read each back as nil.
pub struct Sanitized {
    cleared: Ghost<Seq<Seq<char>>>,
}

impl Sanitized {
    /// The globals that were removed and then read back as nil, in order.
    pub closed spec fn cleared(self) -> Seq<Seq<char>> {
        self.cleared@
    }
}

/// Removes each dangerous global from a new state, then reads it back and
/// fails unless it reads as nil.
pub fn sanitize<'lua>(ctx: rlua::Context<'lua>) -> (r: Result<Sanitized, Errors>)
    ensures
        r is Ok ==> r->Ok_0.cleared() == dangerous_globals_spec(),
        r is Err ==> r->Err_0 is InitializationError,
{
    let table = globals(ctx);
    let mut i: usize = 0;
    let ghost mut cleared: Seq<Seq<char>> = Seq::empty();
    while i < DANGEROUS_GLOBAL_COUNT
        invariant
            i <= DANGEROUS_GLOBAL_COUNT,
            cleared == dangerous_globals_spec().take(i as int),
        decreases DANGEROUS_GLOBAL_COUNT - i,
    {
        let name = dangerous_global(i);
        match clear_field(&table, name) {
            Ok(()) => {},
            Err(e) => {
                return Err(Errors::InitializationError(error_text(&e)));
            },
        }
        match read_field(&table, name) {
            Ok(v) => {
                let observed = script_value(&v);
                match removal_check(name, &observed) {
                    Ok(()) => {
                        proof {
                            cleared = cleared.push(name@);
                            assert(cleared =~= dangerous_globals_spec().take(i + 1));
                        }
                    },
                    Err(e) => {
                        return Err(e);
                    },
                }
            },
            Err(e) => {
                return Err(Errors::InitializationError(error_text(&e)));
            },
        }
        i = i + 1;
    }
    proof {
        assert(cleared =~= dangerous_globals_spec());
    }
    Ok(Sanitized { cleared: Ghost(cleared) })
}

/// A chunk that returns a function binding a read-only view of a host object:
/// called with the table `{global name, id, name}`, it sets that global to an
/// empty table whose reads go to the fields `id` and `name` and whose writes
/// raise an error, with its metatable locked.
pub const READ_ONLY_PROXY: &'static str = "return function(fields)
    local global_name = fields[1]
    local values = { id = fields[2], name = fields[3] }
    _ENV[global_name] = setmetatable({}, {
        __index = values,
        __newindex = function(_, key)
            error(\"attempt to modify read-only field '\" .. tostring(key) .. \"' of \" .. global_name, 2)
        end,
        __metatable = \"read-only\",
    })
end";

/// What the proxy function is called with: the global's name, then the
/// fields `id` and `name`.
pub fn proxy_arguments(global_name: &str, id: &String, name: &String) -> (r: Vec<String>)
    ensures
        r@.len() == 3,
        r@[0]@ == global_name@,
        r@[1]@ == id@,
        r@[2]@ == name@,
{
    vec![global_name.to_string(), id.clone(), name.clone()]
}

/// Binds a read-only view of the fields `id` and `name` under `global_name`.
pub fn expose<'lua>(ctx: rlua::Context<'lua>, global_name: &str, id: &String, name: &String) -> (r:
    Result<(), Errors>)
    ensures
        r is Err ==> r->Err_0 is LuaError,
{
    let binder = match eval_chunk(ctx, READ_ONLY_PROXY, "read-only proxy") {
        Ok(v) => v,
        Err(e) => {
            return Err(Errors::LuaError(error_text(&e)));
        },
    };
    let f = match into_function(binder) {
        Some(f) => f,
        None => {
            return Err(Errors::LuaError("read-only proxy chunk gave no function".to_string()));
        },
    };
    let fields = proxy_arguments(global_name, id, name);
    match call_function(&f, fields) {
        Ok(_) => Ok(()),
        Err(e) => Err(Errors::LuaError(error_text(&e))),
    }
}

/// Binds the request's channel as `Channel` and its invoker as `Invoker`.
pub fn expose_host<'lua>(ctx: rlua::Context<'lua>, channel: &Channel, invoker: &Invoker) -> (r:
    Result<(), Errors>)
    ensures
        r is Err ==> r->Err_0 is LuaError,
{
    match expose(ctx, "Channel", &channel.id, &channel.name) {
        Ok(()) => expose(ctx, "Invoker", &invoker.id, &invoker.name),
        Err(e) => Err(e),
    }
}

} // verus!
