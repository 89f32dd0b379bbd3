use vstd::prelude::*;

use crate::error::{outcome_view, ErrorView, Errors};

verus! {

/// A Lua value as it crosses into the host. Strings are kept as the bytes Lua
/// holds; a float is kept as its IEEE-754 bit pattern.
#[derive(Debug, Clone, PartialEq, Eq)]
pub enum ScriptValue {
    Nil,
    Boolean(bool),
    Integer(i64),
    Number(u64),
    Str(Vec<u8>),
    Table,
    Function,
    Thread,
    UserData,
    Error,
}

/// The name Lua's `type` gives to values of this kind.
pub open spec fn kind_name_spec(v: ScriptValue) -> Seq<char> {
    match v {
        ScriptValue::Nil => "nil"@,
        ScriptValue::Boolean(_) => "boolean"@,
        ScriptValue::Integer(_) => "number"@,
        ScriptValue::Number(_) => "number"@,
        ScriptValue::Str(_) => "string"@,
        ScriptValue::Table => "table"@,
        ScriptValue::Function => "function"@,
        ScriptValue::Thread => "thread"@,
        ScriptValue::UserData => "userdata"@,
        ScriptValue::Error => "error"@,
    }
}

/// The name Lua's `type` gives to values of this kind.
pub fn kind_name(v: &ScriptValue) -> (r: &'static str)
    ensures
        r@ == kind_name_spec(*v),
{
    match v {
        ScriptValue::Nil => "nil",
        ScriptValue::Boolean(_) => "boolean",
        ScriptValue::Integer(_) => "number",
        ScriptValue::Number(_) => "number",
        ScriptValue::Str(_) => "string",
        ScriptValue::Table => "table",
        ScriptValue::Function => "function",
        ScriptValue::Thread => "thread",
        ScriptValue::UserData => "userdata",
        ScriptValue::Error => "error",
    }
}

/// The decimal digit `d`, for `d` in `0..10`.
pub open spec fn digit_char(d: int) -> char {
    seq!['0', '1', '2', '3', '4', '5', '6', '7', '8', '9'][d]
}

/// The decimal digits of `n`, most significant first, without leading zeros.
pub open spec fn nat_decimal(n: nat) -> Seq<char>
    decreases n,
{
    if n < 10 {
        seq![digit_char(n as int)]
    } else {
        nat_decimal(n / 10).push(digit_char((n % 10) as int))
    }
}

/// The decimal text of `i`, with a leading `-` when it is negative.
pub open spec fn int_decimal(i: int) -> Seq<char> {
    if i < 0 {
        seq!['-'] + nat_decimal((-i) as nat)
    } else {
        nat_decimal(i as nat)
    }
}

/// The text that Rust's `Display` gives to the float whose bits are `bits`.
pub uninterp spec fn float_decimal(bits: u64) -> Seq<char>;

/// What `String::from_utf8` makes of `bytes`: their text, or nothing when
/// they are not UTF-8.
pub uninterp spec fn utf8_decoded(bytes: Seq<u8>) -> Option<Seq<char>>;

/// Relies on `Display` for `f64` (Lua's float type, `rlua::Number`): a
/// deterministic text, never in exponent notation, that depends on the bits alone.
#[verifier::external_body]
fn float_text(bits: u64) -> (r: String)
    ensures
        r@ == float_decimal(bits),
{
    rlua::Number::from_bits(bits).to_string()
}

/// Relies on `String::from_utf8`: the bytes' text when they are UTF-8; ASCII
/// bytes always are, one character per byte.
#[verifier::external_body]
fn utf8_text(bytes: &Vec<u8>) -> (r: Option<String>)
    ensures
        match r {
            Some(s) => utf8_decoded(bytes@) == Some(s@),
            None => utf8_decoded(bytes@) is None,
        },
        all_ascii(bytes@) ==> r is Some && r->0@ == ascii_text(bytes@),
{
    String::from_utf8(bytes.clone()).ok()
}

/// Whether every byte is ASCII.
pub open spec fn all_ascii(bytes: Seq<u8>) -> bool {
    forall|i: int| 0 <= i < bytes.len() ==> #[trigger] bytes[i] < 128
}

/// The text of ASCII bytes: one character per byte.
pub open spec fn ascii_text(bytes: Seq<u8>) -> Seq<char> {
    bytes.map_values(|b: u8| b as char)
}

/// The message of the error for a string result that is not UTF-8.
pub open spec fn invalid_utf8_message() -> Seq<char> {
    "returned string is not valid UTF-8"@
}

/// The message of the error for a result of kind `v`, which has no text.
pub open spec fn unsupported_message(v: ScriptValue) -> Seq<char> {
    "unsupported return type: "@ + kind_name_spec(v)
}

/// The host text of a value that a command returned: nil is the empty text,
/// booleans `true` and `false`, integers their decimal text, floats their
/// `Display` text, strings their UTF-8 text (ASCII bytes unchanged, one
/// character each); every other kind is an error.
pub open spec fn stringify_spec(v: ScriptValue) -> Result<Seq<char>, ErrorView> {
    match v {
        ScriptValue::Nil => Ok(Seq::empty()),
        ScriptValue::Boolean(b) => Ok(if b { "true"@ } else { "false"@ }),
        ScriptValue::Integer(i) => Ok(int_decimal(i as int)),
        ScriptValue::Number(bits) => Ok(float_decimal(bits)),
        ScriptValue::Str(bytes) => if all_ascii(bytes@) {
            Ok(ascii_text(bytes@))
        } else {
            match utf8_decoded(bytes@) {
                Some(s) => Ok(s),
                None => Err(ErrorView::Lua(invalid_utf8_message())),
            }
        },
        _ => Err(ErrorView::Lua(unsupported_message(v))),
    }
}

/// The text of the decimal digit `d`.
fn digit_text(d: u64) -> (r: &'static str)
    requires
        d < 10,
    ensures
        r@ == seq![digit_char(d as int)],
{
    proof {
        reveal_strlit("0");
        reveal_strlit("1");
        reveal_strlit("2");
        reveal_strlit("3");
        reveal_strlit("4");
        reveal_strlit("5");
        reveal_strlit("6");
        reveal_strlit("7");
        reveal_strlit("8");
        reveal_strlit("9");
    }
    if d == 0 {
        "0"
    } else if d == 1 {
        "1"
    } else if d == 2 {
        "2"
    } else if d == 3 {
        "3"
    } else if d == 4 {
        "4"
    } else if d == 5 {
        "5"
    } else if d == 6 {
        "6"
    } else if d == 7 {
        "7"
    } else if d == 8 {
        "8"
    } else {
        "9"
    }
}

/// Appends the decimal digits of `n` to `out`.
pub fn push_decimal(out: &mut String, n: u64)
    ensures
        final(out)@ == old(out)@ + nat_decimal(n as nat),
    decreases n,
{
    if n >= 10 {
        push_decimal(out, n / 10);
    }
    out.append(digit_text(n % 10));
    proof {
        if n >= 10 {
            assert(old(out)@ + nat_decimal(n as nat) =~= old(out)@ + nat_decimal((n / 10) as nat)
                + seq![digit_char((n % 10) as int)]);
        }
    }
}

/// The decimal text of `i`.
pub fn integer_text(i: i64) -> (r: String)
    ensures
        r@ == int_decimal(i as int),
{
    let mut out = String::new();
    if i < 0 {
        out.append("-");
        proof { reveal_strlit("-"); }
        let magnitude: u64 = (-(i as i128)) as u64;
        push_decimal(&mut out, magnitude);
    } else {
        push_decimal(&mut out, i as u64);
    }
    proof {
        assert(out@ =~= int_decimal(i as int));
    }
    out
}

/// Turns a value that a command returned into host text (see [`stringify_spec`]).
pub fn stringify_value(v: &ScriptValue) -> (r: Result<String, Errors>)
    ensures
        outcome_view(r) == stringify_spec(*v),
{
    match v {
        ScriptValue::Nil => Ok(String::new()),
        ScriptValue::Boolean(b) => Ok(if *b { "true".to_string() } else { "false".to_string() }),
        ScriptValue::Integer(i) => Ok(integer_text(*i)),
        ScriptValue::Number(bits) => Ok(float_text(*bits)),
        ScriptValue::Str(bytes) => match utf8_text(bytes) {
            Some(s) => Ok(s),
            None => Err(Errors::LuaError("returned string is not valid UTF-8".to_string())),
        },
        _ => {
            let mut message = "unsupported return type: ".to_string();
            message.append(kind_name(v));
            Err(Errors::LuaError(message))
        },
    }
}

/// Stringifying is a function of the value alone: equal values give equal
/// outcomes, and the plain kinds give their fixed texts.
pub proof fn lemma_stringify_is_pure(a: ScriptValue, b: ScriptValue)
    requires
        a == b,
    ensures
        stringify_spec(a) == stringify_spec(b),
        stringify_spec(ScriptValue::Nil) == Ok::<Seq<char>, ErrorView>(Seq::empty()),
        stringify_spec(ScriptValue::Boolean(true)) == Ok::<Seq<char>, ErrorView>("true"@),
        stringify_spec(ScriptValue::Boolean(false)) == Ok::<Seq<char>, ErrorView>("false"@),
{
}

} // verus!
