use lua_state::error::Errors;
use lua_state::host::{Channel, Invoker};
use lua_state::registry::Registry;
use lua_state::state::State;

fn host() -> (Channel, Invoker) {
    (
        Channel { id: "c-1".to_string(), name: "general".to_string() },
        Invoker { id: "u-7".to_string(), name: "ada".to_string() },
    )
}

fn run(entries: &[(&str, &str)], command: &str, args: Vec<&str>) -> Result<String, Errors> {
    let mut registry = Registry::new();
    for (name, source) in entries {
        registry.insert(name, source);
    }
    let (channel, invoker) = host();
    let state = State::with_registry(channel, invoker, registry).expect("sandbox");
    state.execute(command, args)
}

fn lua_message(r: Result<String, Errors>) -> String {
    match r {
        Err(Errors::LuaError(m)) => m,
        other => panic!("expected a Lua error, got {:?}", other),
    }
}

#[test]
fn ping_returns_pong() {
    let r = run(&[("ping", "return { execute = function() return \"pong\" end }")], "ping", vec![]);
    assert_eq!(r, Ok("pong".to_string()));
}

#[test]
fn echo_returns_first_argument() {
    let r = run(&[("echo", "return { execute = function(args) return args[1] end }")], "echo", vec!["hi"]);
    assert_eq!(r, Ok("hi".to_string()));
}

#[test]
fn unknown_command_is_not_found() {
    assert_eq!(run(&[], "nope", vec![]), Err(Errors::CommandNotFound));
    let r = run(&[("ping", "return { execute = function() return \"pong\" end }")], "nope", vec![]);
    assert_eq!(r, Err(Errors::CommandNotFound));
}

#[test]
fn fresh_state_has_empty_registry() {
    let (channel, invoker) = host();
    let state = State::new(channel.clone(), invoker.clone()).expect("sandbox");
    assert_eq!(state.channel, channel);
    assert_eq!(state.invoker, invoker);
    assert_eq!(state.execute("ping", vec![]), Err(Errors::CommandNotFound));
}

#[test]
fn entry_that_is_not_a_table_is_not_found() {
    assert_eq!(run(&[("n", "return nil")], "n", vec![]), Err(Errors::CommandNotFound));
    assert_eq!(run(&[("k", "return 42")], "k", vec![]), Err(Errors::CommandNotFound));
}

#[test]
fn raised_error_carries_its_message() {
    let r = run(&[("bad", "return { execute = function() error(\"bad args\") end }")], "bad", vec![]);
    assert!(lua_message(r).contains("bad args"));
}

#[test]
fn missing_execute_is_lua_error() {
    let m = lua_message(run(&[("empty", "return {}")], "empty", vec![]));
    assert_eq!(m, "attempt to call a nil value (field 'execute')");
}

#[test]
fn non_callable_execute_is_lua_error() {
    let m = lua_message(run(&[("five", "return { execute = 5 }")], "five", vec![]));
    assert_eq!(m, "attempt to call a number value (field 'execute')");
}

#[test]
fn malformed_entry_is_lua_error() {
    let m = lua_message(run(&[("broken", "return {")], "broken", vec![]));
    assert!(m.contains("syntax error"));
}

#[test]
fn host_objects_are_readable() {
    let source = "return { execute = function() return Channel.name .. \"/\" .. Channel.id .. \"/\" .. Invoker.name .. \"/\" .. Invoker.id end }";
    assert_eq!(run(&[("who", source)], "who", vec![]), Ok("general/c-1/ada/u-7".to_string()));
}

#[test]
fn host_objects_reject_writes() {
    let source = "return { execute = function() Channel.name = \"other\" end }";
    let m = lua_message(run(&[("w", source)], "w", vec![]));
    assert!(m.contains("read-only"));
    let source = "return { execute = function() pcall(function() Invoker.id = \"x\" end) return Invoker.id end }";
    assert_eq!(run(&[("w2", source)], "w2", vec![]), Ok("u-7".to_string()));
}

#[test]
fn dangerous_globals_are_absent() {
    let source = "return { execute = function() return io == nil and os == nil and package == nil and require == nil and dofile == nil and loadfile == nil and load == nil and debug == nil and collectgarbage == nil and rawset == nil end }";
    assert_eq!(run(&[("probe", source)], "probe", vec![]), Ok("true".to_string()));
}

#[test]
fn results_of_each_kind_become_text() {
    let entries = [
        ("int", "return { execute = function() return -42 end }"),
        ("float", "return { execute = function() return 1.5 end }"),
        ("yes", "return { execute = function() return true end }"),
        ("no", "return { execute = function() return false end }"),
        ("none", "return { execute = function() end }"),
        ("table", "return { execute = function() return {} end }"),
    ];
    assert_eq!(run(&entries, "int", vec![]), Ok("-42".to_string()));
    assert_eq!(run(&entries, "float", vec![]), Ok("1.5".to_string()));
    assert_eq!(run(&entries, "yes", vec![]), Ok("true".to_string()));
    assert_eq!(run(&entries, "no", vec![]), Ok("false".to_string()));
    assert_eq!(run(&entries, "none", vec![]), Ok("".to_string()));
    assert_eq!(lua_message(run(&entries, "table", vec![])), "unsupported return type: table");
}

#[test]
fn arguments_arrive_in_order() {
    let source = "return { execute = function(args) return #args .. \":\" .. table.concat(args, \",\") end }";
    assert_eq!(run(&[("cat", source)], "cat", vec!["a", "b", "c"]), Ok("3:a,b,c".to_string()));
}

#[test]
fn name_is_not_spliced_into_code() {
    let source = "return { execute = function() return \"ok\" end }";
    let r = run(&[("ok", source)], "\") os.exit() (\"", vec![]);
    assert_eq!(r, Err(Errors::CommandNotFound));
}

#[test]
fn host_objects_reject_raw_writes() {
    let source = "return { execute = function() pcall(function() rawset(Channel, \"id\", \"x\") end) return Channel.id end }";
    assert_eq!(run(&[("raw", source)], "raw", vec![]), Ok("c-1".to_string()));
}

#[test]
fn fixed_results_on_fresh_states() {
    let entries = [
        ("t", "return { execute = function() return true end }"),
        ("f", "return { execute = function() return false end }"),
        ("s", "return { execute = function() return \"hi\" end }"),
        ("n", "return { execute = function() return nil end }"),
    ];
    assert_eq!(run(&entries, "t", vec![]), Ok("true".to_string()));
    assert_eq!(run(&entries, "f", vec![]), Ok("false".to_string()));
    assert_eq!(run(&entries, "s", vec![]), Ok("hi".to_string()));
    assert_eq!(run(&entries, "n", vec![]), Ok("".to_string()));
    assert_eq!(run(&entries, "s", vec![]), run(&entries, "s", vec![]));
}
