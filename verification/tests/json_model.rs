use sovtoken::json::{render_json, JsonVal};
use sovtoken::parse::parse_json_text;

fn reparse_render(text: &str) -> String {
    let v = parse_json_text(text).expect("document expected");
    render_json(&v)
}

#[test]
fn canonical_documents_round_trip_through_the_parser() {
    let samples = [
        "null",
        "true",
        "false",
        "0",
        "18446744073709551615",
        "\"\"",
        "\"pay:sov:abc\"",
        "[]",
        "{}",
        "[1,2,3]",
        "{\"a\":1,\"b\":[{\"c\":\"d\"}]}",
        "{\"operation\":{\"type\":\"10000\"}}",
    ];
    for s in samples {
        assert_eq!(reparse_render(s), s);
    }
}

#[test]
fn whitespace_between_tokens_is_accepted() {
    assert_eq!(reparse_render(" { \"a\" : [ 1 , 2 ] } "), "{\"a\":[1,2]}");
    assert_eq!(reparse_render("{ }"), "{}");
}

#[test]
fn string_escapes_round_trip() {
    let v = parse_json_text("\"a\\\"b\\\\c\"").expect("document expected");
    match &v {
        JsonVal::Str(s) => assert_eq!(s, "a\"b\\c"),
        _ => panic!("string expected"),
    }
    assert_eq!(render_json(&v), "\"a\\\"b\\\\c\"");
}

#[test]
fn control_character_escapes_round_trip() {
    let v = parse_json_text("\"a\\nb\\tc\\rd\\be\\ff\"").expect("document expected");
    match &v {
        JsonVal::Str(s) => assert_eq!(s, "a\nb\tc\rd\u{8}e\u{c}f"),
        _ => panic!("string expected"),
    }
    assert_eq!(render_json(&v), "\"a\\nb\\tc\\rd\\be\\ff\"");
}

#[test]
fn solidus_escape_is_read_and_rendered_plain() {
    let v = parse_json_text("\"a\\/b\"").expect("document expected");
    match &v {
        JsonVal::Str(s) => assert_eq!(s, "a/b"),
        _ => panic!("string expected"),
    }
    assert_eq!(render_json(&v), "\"a/b\"");
}

#[test]
fn raw_control_characters_and_hex_escapes_are_rejected() {
    assert!(parse_json_text("\"a\nb\"").is_none());
    assert!(parse_json_text("\"a\\u0041\"").is_none());
}

#[test]
fn malformed_documents_are_rejected() {
    for s in [
        "",
        "{",
        "[1,]",
        "{\"a\":}",
        "{\"a\" 1}",
        "{\"a\":1,}",
        "tru",
        "\"unterminated",
        "-1",
        "1.5",
        "18446744073709551616",
        "{\"a\":1}garbage",
        "\"bad\\escape\"",
    ] {
        assert!(parse_json_text(s).is_none(), "accepted: {}", s);
    }
}

#[test]
fn rendering_matches_serde_reading() {
    let mut pairs: Vec<(String, JsonVal)> = Vec::new();
    pairs.push((String::from("amount"), JsonVal::Num(10)));
    pairs.push((String::from("who"), JsonVal::Str(String::from("a\"b"))));
    pairs.push((String::from("flags"), JsonVal::Arr(vec![
        JsonVal::Bool(true),
        JsonVal::Null,
    ])));
    let text = render_json(&JsonVal::Obj(pairs));
    let v: serde_json::Value = serde_json::from_str(&text).unwrap();
    assert_eq!(v["amount"], serde_json::Value::from(10u64));
    assert_eq!(v["who"], serde_json::Value::from("a\"b"));
    assert_eq!(v["flags"][0], serde_json::Value::from(true));
    assert!(v["flags"][1].is_null());
}
