//! The JSON parser and printer.

use octoapp::json::{parse, to_text, JsonValue};

#[test]
fn parses_scalars() {
    assert_eq!(parse("null").unwrap(), JsonValue::Null);
    assert_eq!(parse("true").unwrap(), JsonValue::Bool(true));
    assert_eq!(parse("false").unwrap(), JsonValue::Bool(false));
    assert_eq!(parse("42").unwrap(), JsonValue::Int(42));
    assert_eq!(parse("-7").unwrap(), JsonValue::Int(-7));
    assert_eq!(parse("0").unwrap(), JsonValue::Int(0));
    assert_eq!(
        parse("\"hello\"").unwrap(),
        JsonValue::Str(String::from("hello"))
    );
}

#[test]
fn parses_structures_with_whitespace() {
    let doc = parse(" { \"a\" : [ 1 , 2 ] , \"b\" : { } } ").unwrap();
    let expected = JsonValue::Obj(vec![
        (
            String::from("a"),
            JsonValue::Arr(vec![JsonValue::Int(1), JsonValue::Int(2)]),
        ),
        (String::from("b"), JsonValue::Obj(vec![])),
    ]);
    assert_eq!(doc, expected);
}

#[test]
fn parses_escapes() {
    let doc = parse("\"a\\\"b\\\\c\\nd\\te\"").unwrap();
    assert_eq!(doc, JsonValue::Str(String::from("a\"b\\c\nd\te")));
}

#[test]
fn rejects_malformed_documents() {
    assert!(parse("").is_err());
    assert!(parse("{").is_err());
    assert!(parse("[1,]").is_err());
    assert!(parse("{\"a\" 1}").is_err());
    assert!(parse("tru").is_err());
    assert!(parse("1 2").is_err());
    assert!(parse("\"unterminated").is_err());
}

#[test]
fn non_integer_numbers_keep_their_text() {
    assert_eq!(parse("1.5").unwrap(), JsonValue::Num(String::from("1.5")));
    assert_eq!(parse("1e3").unwrap(), JsonValue::Num(String::from("1e3")));
    assert_eq!(
        parse("-2.5E+10").unwrap(),
        JsonValue::Num(String::from("-2.5E+10"))
    );
    // magnitudes beyond i64 keep their digits too
    assert_eq!(
        parse("9223372036854775808").unwrap(),
        JsonValue::Num(String::from("9223372036854775808"))
    );
    assert_eq!(
        parse("-9223372036854775809").unwrap(),
        JsonValue::Num(String::from("-9223372036854775809"))
    );
    // and they reprint verbatim
    assert_eq!(to_text(&parse("{\"score\":5.3}").unwrap()), "{\"score\":5.3}");
}

#[test]
fn malformed_numbers_are_rejected() {
    assert!(parse("1.").is_err());
    assert!(parse("1e").is_err());
    assert!(parse("1e+").is_err());
    assert!(parse(".5").is_err());
    assert!(parse("-").is_err());
}

#[test]
fn unicode_escapes_decode() {
    assert_eq!(parse("\"\\u0041\"").unwrap(), JsonValue::Str(String::from("A")));
    assert_eq!(
        parse("\"caf\\u00e9\"").unwrap(),
        JsonValue::Str(String::from("caf\u{e9}"))
    );
    assert_eq!(
        parse("\"\\u2764\"").unwrap(),
        JsonValue::Str(String::from("\u{2764}"))
    );
    // a surrogate names no scalar value
    assert!(parse("\"\\ud83d\\ude00\"").is_err());
    assert!(parse("\"\\u12g4\"").is_err());
    assert!(parse("\"\\u12\"").is_err());
}

#[test]
fn control_characters_round_trip_escaped() {
    let v = JsonValue::Str(String::from("a\u{1}b\u{1f}c"));
    let text = to_text(&v);
    assert_eq!(text, "\"a\\u0001b\\u001fc\"");
    assert_eq!(parse(&text).unwrap(), v);
}

#[test]
fn accepts_the_extremes_of_i64() {
    assert_eq!(
        parse("9223372036854775807").unwrap(),
        JsonValue::Int(i64::MAX)
    );
    assert_eq!(
        parse("-9223372036854775808").unwrap(),
        JsonValue::Int(i64::MIN)
    );
}

#[test]
fn printing_then_parsing_returns_the_value() {
    let value = JsonValue::Obj(vec![
        (String::from("name"), JsonValue::Str(String::from("a\"b\\c"))),
        (String::from("count"), JsonValue::Int(-3)),
        (
            String::from("tags"),
            JsonValue::Arr(vec![
                JsonValue::Bool(true),
                JsonValue::Null,
                JsonValue::Str(String::from("x")),
            ]),
        ),
    ]);
    let text = to_text(&value);
    assert_eq!(parse(&text).unwrap(), value);
}

#[test]
fn printing_is_canonical() {
    let value = parse("{ \"a\" : 1 ,\n \"b\" : [ true ] }").unwrap();
    assert_eq!(to_text(&value), "{\"a\":1,\"b\":[true]}");
}

#[test]
fn member_lookup_takes_the_first_binding() {
    let doc = parse("{\"k\":1,\"k\":2,\"other\":3}").unwrap();
    assert_eq!(doc.member("k"), Some(&JsonValue::Int(1)));
    assert_eq!(doc.member("other"), Some(&JsonValue::Int(3)));
    assert_eq!(doc.member("absent"), None);
    assert!(doc.has_member("k"));
    assert!(!doc.has_member("absent"));
}

#[test]
fn deep_copy_preserves_shape() {
    let doc = parse("{\"a\":[1,{\"b\":null}],\"c\":\"s\"}").unwrap();
    assert_eq!(doc.deep_copy(), doc);
}
