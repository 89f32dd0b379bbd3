use lua_state::command::{entry_point, resolve_command, translate_outcome};
use lua_state::error::Errors;
use lua_state::registry::Registry;
use lua_state::state::owned_arguments;
use lua_state::sandbox::{dangerous_global, proxy_arguments, removal_check, DANGEROUS_GLOBAL_COUNT};
use lua_state::value::{integer_text, kind_name, push_decimal, stringify_value, ScriptValue};

#[test]
fn stringify_fixed_values() {
    assert_eq!(stringify_value(&ScriptValue::Boolean(true)), Ok("true".to_string()));
    assert_eq!(stringify_value(&ScriptValue::Boolean(false)), Ok("false".to_string()));
    assert_eq!(stringify_value(&ScriptValue::Str(b"hi".to_vec())), Ok("hi".to_string()));
    assert_eq!(stringify_value(&ScriptValue::Nil), Ok("".to_string()));
}

#[test]
fn stringify_is_deterministic() {
    let v = ScriptValue::Integer(12345);
    assert_eq!(stringify_value(&v), stringify_value(&v.clone()));
    assert_eq!(stringify_value(&v), Ok("12345".to_string()));
}

#[test]
fn stringify_numbers() {
    assert_eq!(stringify_value(&ScriptValue::Integer(0)), Ok("0".to_string()));
    assert_eq!(stringify_value(&ScriptValue::Integer(-7)), Ok("-7".to_string()));
    assert_eq!(stringify_value(&ScriptValue::Integer(i64::MAX)), Ok("9223372036854775807".to_string()));
    assert_eq!(stringify_value(&ScriptValue::Integer(i64::MIN)), Ok("-9223372036854775808".to_string()));
    assert_eq!(stringify_value(&ScriptValue::Number(1.5f64.to_bits())), Ok("1.5".to_string()));
    assert_eq!(stringify_value(&ScriptValue::Number(1e21f64.to_bits())), Ok("1000000000000000000000".to_string()));
}

#[test]
fn stringify_strings() {
    assert_eq!(stringify_value(&ScriptValue::Str("héllo".as_bytes().to_vec())), Ok("héllo".to_string()));
    assert_eq!(
        stringify_value(&ScriptValue::Str(vec![0xff, 0xfe])),
        Err(Errors::LuaError("returned string is not valid UTF-8".to_string()))
    );
}

#[test]
fn stringify_rejects_kinds_without_text() {
    assert_eq!(stringify_value(&ScriptValue::Table), Err(Errors::LuaError("unsupported return type: table".to_string())));
    assert_eq!(stringify_value(&ScriptValue::Function), Err(Errors::LuaError("unsupported return type: function".to_string())));
    assert_eq!(stringify_value(&ScriptValue::Thread), Err(Errors::LuaError("unsupported return type: thread".to_string())));
    assert_eq!(stringify_value(&ScriptValue::UserData), Err(Errors::LuaError("unsupported return type: userdata".to_string())));
    assert_eq!(stringify_value(&ScriptValue::Error), Err(Errors::LuaError("unsupported return type: error".to_string())));
}

#[test]
fn proxy_arguments_in_order() {
    let r = proxy_arguments("Channel", &"c-1".to_string(), &"general".to_string());
    assert_eq!(r, vec!["Channel".to_string(), "c-1".to_string(), "general".to_string()]);
}

#[test]
fn owned_arguments_keep_order() {
    assert_eq!(owned_arguments(&vec!["a", "b"]), vec!["a".to_string(), "b".to_string()]);
    assert!(owned_arguments(&vec![]).is_empty());
}

#[test]
fn decimal_text() {
    let mut s = "n=".to_string();
    push_decimal(&mut s, 1907);
    assert_eq!(s, "n=1907");
    assert_eq!(integer_text(-10), "-10");
    assert_eq!(kind_name(&ScriptValue::Integer(1)), "number");
}

#[test]
fn resolve_outcomes() {
    assert_eq!(resolve_command(&Ok(ScriptValue::Table)), Ok(()));
    assert_eq!(resolve_command(&Ok(ScriptValue::Nil)), Err(Errors::CommandNotFound));
    assert_eq!(resolve_command(&Ok(ScriptValue::Str(b"ping".to_vec()))), Err(Errors::CommandNotFound));
    assert_eq!(
        resolve_command(&Err("boom".to_string())),
        Err(Errors::LuaError("boom".to_string()))
    );
}

#[test]
fn entry_point_outcomes() {
    assert_eq!(entry_point(&ScriptValue::Function), Ok(()));
    assert_eq!(
        entry_point(&ScriptValue::Nil),
        Err(Errors::LuaError("attempt to call a nil value (field 'execute')".to_string()))
    );
    assert_eq!(
        entry_point(&ScriptValue::Table),
        Err(Errors::LuaError("attempt to call a table value (field 'execute')".to_string()))
    );
}

#[test]
fn translate_outcomes() {
    assert_eq!(translate_outcome(&Ok(ScriptValue::Str(b"pong".to_vec()))), Ok("pong".to_string()));
    assert_eq!(
        translate_outcome(&Err("bad args".to_string())),
        Err(Errors::LuaError("bad args".to_string()))
    );
    assert_eq!(
        translate_outcome(&Ok(ScriptValue::Table)),
        Err(Errors::LuaError("unsupported return type: table".to_string()))
    );
}

#[test]
fn sanitize_list_and_check() {
    let names: Vec<&str> = (0..DANGEROUS_GLOBAL_COUNT).map(dangerous_global).collect();
    assert_eq!(names, vec!["io", "os", "package", "require", "dofile", "loadfile", "load", "debug", "collectgarbage", "rawset"]);
    assert_eq!(removal_check("io", &ScriptValue::Nil), Ok(()));
    assert_eq!(
        removal_check("io", &ScriptValue::Table),
        Err(Errors::InitializationError("global still present after sanitizing: io".to_string()))
    );
}

#[test]
fn registry_insert_and_lookup() {
    let mut r = Registry::new();
    assert_eq!(r.lookup("a"), None);
    r.insert("a", "one");
    r.insert("b", "two");
    r.insert("a", "three");
    assert_eq!(r.lookup("a"), Some("three"));
    assert_eq!(r.lookup("b"), Some("two"));
    assert_eq!(r.lookup("c"), None);
}
