use shallot_strings::parse_token;
use shallot_strings::set_environment;
use shallot_strings::split;
use shallot_strings::upper;
use shallot_strings::Atom;
use shallot_strings::BuiltinFunction;
use shallot_strings::Environment;
use shallot_strings::LispString;
use shallot_strings::List;
use shallot_strings::NativeOp;
use shallot_strings::Number;
use shallot_strings::Symbol;
use shallot_strings::Token;
use shallot_strings::Value;
use shallot_strings::VariantOf;

fn tok(text: &str) -> Token {
    Token::new(String::from(text))
}

fn string_value(text: &str) -> Value {
    LispString(String::from(text)).widen()
}

#[test]
fn round_trip_string() {
    let v = string_value("pear");
    let back = LispString::narrow(&v);
    assert_eq!(back, Some(&LispString(String::from("pear"))));
}

#[test]
fn round_trip_number() {
    let v = Number(-31).widen();
    assert_eq!(Number::narrow(&v), Some(&Number(-31)));
}

#[test]
fn round_trip_symbol() {
    let v = Symbol(String::from("plus")).widen();
    assert_eq!(Symbol::narrow(&v), Some(&Symbol(String::from("plus"))));
}

#[test]
fn round_trip_list() {
    let v = List(vec![Number(1).widen(), Number(2).widen()]).widen();
    let back = List::narrow(&v).expect("a list must narrow to a list");
    assert_eq!(back.0.len(), 2);
    assert_eq!(back.0[0], Number(1).widen());
}

#[test]
fn round_trip_builtin() {
    let b = BuiltinFunction::new(String::from("split"), NativeOp::Split);
    let v = b.widen();
    let back = BuiltinFunction::narrow(&v).expect("a builtin must narrow back");
    assert_eq!(back.name, String::from("split"));
    assert_eq!(back.op, NativeOp::Split);
}

#[test]
fn narrow_of_other_kind_is_none() {
    let n = Number(4).widen();
    assert_eq!(LispString::narrow(&n), None);
    let s = string_value("4");
    assert_eq!(Number::narrow(&s), None);
    assert_eq!(Symbol::narrow(&s), None);
    assert_eq!(List::narrow(&s), None);
    assert_eq!(BuiltinFunction::narrow(&s), None);
}

#[test]
fn dispatch_falls_back_to_symbol() {
    let v = parse_token(&tok("banana"));
    assert_eq!(v, Value::Symbol(Symbol(String::from("banana"))));
}

#[test]
fn dispatch_empty_token_is_symbol() {
    assert_eq!(parse_token(&tok("")), Value::Symbol(Symbol(String::from(""))));
}

#[test]
fn dispatch_quoted_string_never_becomes_symbol() {
    let v = parse_token(&tok("\"a b\""));
    assert_eq!(v, Value::Str(LispString(String::from("a b"))));
}

#[test]
fn dispatch_empty_quoted_string() {
    assert_eq!(parse_token(&tok("\"\"")), Value::Str(LispString(String::from(""))));
}

#[test]
fn dispatch_lone_quote_is_symbol() {
    assert_eq!(parse_token(&tok("\"")), Value::Symbol(Symbol(String::from("\""))));
}

#[test]
fn dispatch_parses_numbers() {
    assert_eq!(parse_token(&tok("42")), Value::Number(Number(42)));
    assert_eq!(parse_token(&tok("-7")), Value::Number(Number(-7)));
    assert_eq!(parse_token(&tok("0")), Value::Number(Number(0)));
    assert_eq!(parse_token(&tok("-0")), Value::Number(Number(0)));
}

#[test]
fn dispatch_number_bounds() {
    assert_eq!(
        parse_token(&tok("9223372036854775807")),
        Value::Number(Number(i64::MAX))
    );
    assert_eq!(
        parse_token(&tok("-9223372036854775808")),
        Value::Number(Number(i64::MIN))
    );
    assert_eq!(
        parse_token(&tok("9223372036854775808")),
        Value::Symbol(Symbol(String::from("9223372036854775808")))
    );
    assert_eq!(
        parse_token(&tok("-9223372036854775809")),
        Value::Symbol(Symbol(String::from("-9223372036854775809")))
    );
}

#[test]
fn dispatch_near_numbers_are_symbols() {
    assert_eq!(parse_token(&tok("-")), Value::Symbol(Symbol(String::from("-"))));
    assert_eq!(parse_token(&tok("12x3")), Value::Symbol(Symbol(String::from("12x3"))));
    assert_eq!(parse_token(&tok("1-2")), Value::Symbol(Symbol(String::from("1-2"))));
    assert_eq!(parse_token(&tok("--1")), Value::Symbol(Symbol(String::from("--1"))));
}

#[test]
fn parse_trial_is_deterministic() {
    let t = tok("\"twice\"");
    assert_eq!(
        LispString::parse_from_token(&t),
        LispString::parse_from_token(&t)
    );
    let u = tok("not a number");
    assert_eq!(Number::parse_from_token(&u), None);
    assert_eq!(Number::parse_from_token(&u), None);
}

#[test]
fn split_of_empty_string_is_empty_list() {
    let mut env = Environment::new();
    let r = split(&[string_value("")], &mut env);
    assert_eq!(r, Ok(Value::List(List(vec![]))));
}

#[test]
fn split_of_all_whitespace_is_empty_list() {
    let mut env = Environment::new();
    let r = split(&[string_value(" \t\n  ")], &mut env);
    assert_eq!(r, Ok(Value::List(List(vec![]))));
}

#[test]
fn split_three_words() {
    let mut env = Environment::new();
    let r = split(&[string_value("a b  c")], &mut env);
    let expected = Value::List(List(vec![
        string_value("a"),
        string_value("b"),
        string_value("c"),
    ]));
    assert_eq!(r, Ok(expected));
}

#[test]
fn split_keeps_word_order_and_drops_edges() {
    let mut env = Environment::new();
    let r = split(&[string_value("  one two\tthree ")], &mut env);
    let expected = Value::List(List(vec![
        string_value("one"),
        string_value("two"),
        string_value("three"),
    ]));
    assert_eq!(r, Ok(expected));
}

#[test]
fn split_with_no_arguments_is_an_arity_failure() {
    let mut env = Environment::new();
    let r = split(&[], &mut env);
    let e = r.expect_err("zero arguments must fail");
    assert_eq!(e.message().as_str(), "Split needs a single argument");
}

#[test]
fn split_with_two_arguments_is_an_arity_failure() {
    let mut env = Environment::new();
    let r = split(&[string_value("a"), string_value("b")], &mut env);
    let e = r.expect_err("two arguments must fail");
    assert_eq!(e.message().as_str(), "Split needs a single argument");
}

#[test]
fn split_of_a_number_is_a_type_mismatch() {
    let mut env = Environment::new();
    let r = split(&[Number(9).widen()], &mut env);
    let e = r.expect_err("a number argument must fail");
    assert_eq!(e.message().as_str(), "Argument to split must be a string");
}

#[test]
fn upper_mixed_case() {
    let r = upper(&LispString(String::from("MixedCase")));
    assert_eq!(r, Ok(LispString(String::from("MIXEDCASE"))));
}

#[test]
fn upper_builtin_type_mismatch_names_string() {
    let b = BuiltinFunction::new(String::from("upper"), NativeOp::Upper);
    let mut env = Environment::new();
    let r = b.call(&[Number(5).widen()], &mut env);
    let e = r.expect_err("a number argument must fail");
    assert_eq!(e.message().as_str(), "Argument to upper must be a string");
}

#[test]
fn upper_builtin_arity_failure() {
    let b = BuiltinFunction::new(String::from("upper"), NativeOp::Upper);
    let mut env = Environment::new();
    let none = b.call(&[], &mut env);
    let e = none.expect_err("zero arguments must fail");
    assert_eq!(e.message().as_str(), "Upper needs a single argument");
    let two = b.call(&[string_value("a"), string_value("b")], &mut env);
    let e2 = two.expect_err("two arguments must fail");
    assert_eq!(e2.message().as_str(), "Upper needs a single argument");
}

#[test]
fn upper_through_adapter_matches_native_call() {
    let b = BuiltinFunction::new(String::from("upper"), NativeOp::Upper);
    let mut env = Environment::new();
    let r = b.call(&[string_value("MixedCase")], &mut env);
    assert_eq!(r, Ok(string_value("MIXEDCASE")));
}

#[test]
fn split_through_adapter_matches_raw_call() {
    let b = BuiltinFunction::new(String::from("split"), NativeOp::Split);
    let mut env = Environment::new();
    let through_adapter = b.call(&[string_value("x  y")], &mut env);
    let raw = split(&[string_value("x  y")], &mut env);
    assert_eq!(through_adapter, raw);
}

#[test]
fn both_shapes_give_identical_error_values() {
    let split_fn = BuiltinFunction::new(String::from("split"), NativeOp::Split);
    let mut env = Environment::new();
    let through_adapter = split_fn.call(&[], &mut env).expect_err("arity");
    let raw = split(&[], &mut env).expect_err("arity");
    assert_eq!(through_adapter, raw);
}

#[test]
fn upper_is_idempotent_on_samples() {
    for sample in ["MixedCase", "", "already UPPER", "straße", "tschüß"] {
        let once = upper(&LispString(String::from(sample))).unwrap();
        let twice = upper(&once).unwrap();
        assert_eq!(twice, once);
    }
}

#[test]
fn string_renders_quoted_in_italic_red() {
    let v = string_value("hi");
    assert_eq!(v.render().as_str(), "\x1b[3;31m\"hi\"\x1b[0m");
}

#[test]
fn number_rendering() {
    assert_eq!(Value::Number(Number(0)).render().as_str(), "0");
    assert_eq!(Value::Number(Number(1905)).render().as_str(), "1905");
    assert_eq!(Value::Number(Number(-42)).render().as_str(), "-42");
    assert_eq!(
        Value::Number(Number(i64::MIN)).render().as_str(),
        "-9223372036854775808"
    );
}

#[test]
fn symbol_and_builtin_render_as_their_names() {
    assert_eq!(parse_token(&tok("lambda")).render().as_str(), "lambda");
    let b = BuiltinFunction::new(String::from("upper"), NativeOp::Upper);
    assert_eq!(b.widen().render().as_str(), "upper");
}

#[test]
fn list_rendering() {
    let empty = Value::List(List(vec![]));
    assert_eq!(empty.render().as_str(), "()");
    let mixed = Value::List(List(vec![
        Number(1).widen(),
        Symbol(String::from("x")).widen(),
        Value::List(List(vec![Number(2).widen()])),
    ]));
    assert_eq!(mixed.render().as_str(), "(1 x (2))");
}

#[test]
fn variant_names() {
    assert_eq!(LispString::sized_name(), "string");
    assert_eq!(Number::sized_name(), "number");
    assert_eq!(Symbol::sized_name(), "symbol");
    assert_eq!(List::sized_name(), "list");
    assert_eq!(BuiltinFunction::sized_name(), "builtin");
    assert_eq!(string_value("x").name(), "string");
    assert_eq!(Number(3).widen().name(), "number");
}

#[test]
fn set_environment_registers_both_builtins() {
    let mut env = Environment::new();
    set_environment(&mut env);
    let split_entry = env.lookup(&String::from("split")).expect("split must be bound");
    let split_fn = BuiltinFunction::narrow(split_entry).expect("split must be a builtin");
    assert_eq!(split_fn.op, NativeOp::Split);
    assert_eq!(split_fn.name, String::from("split"));
    let upper_entry = env.lookup(&String::from("upper")).expect("upper must be bound");
    let upper_fn = BuiltinFunction::narrow(upper_entry).expect("upper must be a builtin");
    assert_eq!(upper_fn.op, NativeOp::Upper);
    assert_eq!(env.lookup(&String::from("missing")), None);
}

#[test]
fn later_bindings_shadow_earlier_ones() {
    let mut env = Environment::new();
    env.define(String::from("x"), Number(1).widen());
    env.define(String::from("x"), Number(2).widen());
    assert_eq!(env.lookup(&String::from("x")), Some(&Number(2).widen()));
}

#[test]
fn registered_builtins_are_callable_from_the_environment() {
    let mut env = Environment::new();
    set_environment(&mut env);
    let b = {
        let entry = env.lookup(&String::from("upper")).expect("upper must be bound");
        BuiltinFunction::narrow(entry).expect("upper must be a builtin").clone()
    };
    let r = b.call(&[string_value("abc")], &mut env);
    assert_eq!(r, Ok(string_value("ABC")));
}
