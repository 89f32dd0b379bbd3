use vstd::prelude::*;

use crate::error::{outcome_view, Errors};
use crate::value::{stringify_spec, ScriptValue};
use crate::host::{Channel, Invoker};
use crate::lua::{new_lua, run_in_state, sanitize_state};
use crate::registry::Registry;
use crate::sandbox::{dangerous_globals_spec, Sanitized};

verus! {

/// The state of one request: a sanitized Lua state of its own, the request's
/// channel and invoker, and the registry its command is looked up in.
pub struct State {
    pub lua: rlua::Lua,
    pub channel: Channel,
    pub invoker: Invoker,
    pub registry: Registry,
    pub sandbox: Sanitized,
}

/// The arguments as owned strings, in order and unchanged.
pub fn owned_arguments(args: &Vec<&str>) -> (r: Vec<String>)
    ensures
        r@.len() == args@.len(),
        forall|j: int| 0 <= j < args@.len() ==> #[trigger] r@[j]@ == args@[j]@,
{
    let mut owned: Vec<String> = Vec::new();
    let mut i: usize = 0;
    while i < args.len()
        invariant
            i <= args@.len(),
            owned@.len() == i,
            forall|j: int| 0 <= j < i ==> #[trigger] owned@[j]@ == args@[j]@,
        decreases args@.len() - i,
    {
        owned.push(args[i].to_string());
        i = i + 1;
    }
    owned
}

impl State {
    /// A request state with an empty registry.
    pub fn new(channel: Channel, invoker: Invoker) -> (r: Result<State, Errors>)
        ensures
            r is Ok ==> r->Ok_0.sandbox.cleared() == dangerous_globals_spec(),
            r is Ok ==> r->Ok_0.registry.wf() && r->Ok_0.registry@ == Map::<
                Seq<char>,
                Seq<char>,
            >::empty() && r->Ok_0.channel == channel && r->Ok_0.invoker == invoker,
            r is Err ==> r->Err_0 is InitializationError,
    {
        State::with_registry(channel, invoker, Registry::new())
    }

    /// A request state that looks commands up in `registry`. The new Lua state
    /// has its dangerous globals removed before anything else runs in it.
    pub fn with_registry(channel: Channel, invoker: Invoker, registry: Registry) -> (r: Result<
        State,
        Errors,
    >)
        requires
            registry.wf(),
        ensures
            r is Ok ==> r->Ok_0.sandbox.cleared() == dangerous_globals_spec(),
            r is Ok ==> r->Ok_0.registry.wf() && r->Ok_0.registry@ == registry@ && r->Ok_0.channel
                == channel && r->Ok_0.invoker == invoker,
            r is Err ==> r->Err_0 is InitializationError,
    {
        let lua = new_lua();
        match sanitize_state(&lua) {
            Ok(sandbox) => Ok(State { lua, channel, invoker, registry, sandbox }),
            Err(e) => Err(e),
        }
    }

    /// Runs the command `command` with `args`. A name the registry does not
    /// hold is `CommandNotFound`, without touching the Lua state; a success is
    /// the text of the value the command returned.
    pub fn execute(self, command: &str, args: Vec<&str>) -> (r: Result<String, Errors>)
        requires
            self.registry.wf(),
        ensures
            !self.registry@.contains_key(command@) ==> r == Err::<String, Errors>(
                Errors::CommandNotFound,
            ),
            r is Ok ==> exists|v: ScriptValue| outcome_view(r) == stringify_spec(v),
            r is Err ==> !(r->Err_0 is InitializationError),
    {
        let source = match self.registry.lookup(command) {
            Some(s) => s,
            None => {
                return Err(Errors::CommandNotFound);
            },
        };
        let owned = owned_arguments(&args);
        run_in_state(&self.lua, command, source, owned, &self.channel, &self.invoker)
    }
}

} // verus!
