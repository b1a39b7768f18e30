use remote_relay::json::{find, parse, same_text, Json};

fn text(s: &str) -> String {
    s.to_string()
}

#[test]
fn parse_reads_a_string() {
    assert_eq!(parse("\"LeftClick\""), Ok(Json::String(text("LeftClick"))));
}

#[test]
fn parse_reads_scalars() {
    assert_eq!(parse("null"), Ok(Json::Null));
    assert_eq!(parse("true"), Ok(Json::Bool(true)));
    assert_eq!(parse("false"), Ok(Json::Bool(false)));
    assert_eq!(parse(" 17 "), Ok(Json::Number(Some(17))));
    assert_eq!(parse("-3"), Ok(Json::Number(Some(-3))));
}

#[test]
fn parse_keeps_only_integers_that_fit() {
    assert_eq!(parse("9223372036854775807"), Ok(Json::Number(Some(i64::MAX))));
    assert_eq!(parse("-9223372036854775808"), Ok(Json::Number(Some(i64::MIN))));
    assert_eq!(parse("9223372036854775808"), Ok(Json::Number(None)));
    assert_eq!(parse("1.5"), Ok(Json::Number(None)));
    assert_eq!(parse("1.0"), Ok(Json::Number(None)));
    assert_eq!(parse("1e2"), Ok(Json::Number(None)));
    assert_eq!(parse("-0"), Ok(Json::Number(None)));
}

#[test]
fn parse_reads_nested_values() {
    let expected = Json::Object(vec![(
        text("Scroll"),
        Json::Object(vec![
            (text("x"), Json::Number(Some(5))),
            (text("y"), Json::Number(Some(-3))),
        ]),
    )]);
    assert_eq!(parse("{\"Scroll\":{\"x\":5,\"y\":-3}}"), Ok(expected));
    let list = Json::Array(vec![Json::Null, Json::Array(vec![]), Json::String(text("a"))]);
    assert_eq!(parse("[null, [], \"a\"]"), Ok(list));
}

#[test]
fn parse_hands_members_out_in_key_order() {
    let expected = Json::Object(vec![
        (text("a"), Json::Number(Some(2))),
        (text("b"), Json::Number(Some(1))),
    ]);
    assert_eq!(parse("{\"b\":1,\"a\":2}"), Ok(expected));
}

#[test]
fn parse_keeps_the_last_of_a_repeated_key() {
    let expected = Json::Object(vec![(text("a"), Json::Number(Some(2)))]);
    assert_eq!(parse("{\"a\":1,\"a\":2}"), Ok(expected));
}

#[test]
fn parse_unescapes_strings() {
    assert_eq!(parse("\"a\\\"b\\n\\u00e9\""), Ok(Json::String(text("a\"b\n\u{e9}"))));
}

#[test]
fn parse_reports_the_parser_message() {
    for bad in ["", "{", "{\"a\":}", "LeftClick", "\"open", "[1,]", "{} {}", "nul"] {
        let expected = serde_json::from_str::<serde_json::Value>(bad).unwrap_err().to_string();
        assert!(!expected.is_empty());
        assert_eq!(parse(bad), Err(expected));
    }
}

#[test]
fn parse_message_is_the_one_of_the_parser() {
    assert_eq!(parse("{"), Err(text("EOF while parsing an object at line 1 column 1")));
}

#[test]
fn same_text_compares_characters() {
    assert!(same_text("", ""));
    assert!(same_text("Return", "Return"));
    assert!(!same_text("Return", "return"));
    assert!(!same_text("Return", "Return "));
    assert!(!same_text("a", ""));
}

#[test]
fn find_returns_the_first_place_of_a_key() {
    let members = vec![
        (text("x"), Json::Number(Some(1))),
        (text("y"), Json::Number(Some(2))),
        (text("x"), Json::Number(Some(3))),
    ];
    assert_eq!(find(&members, "x"), Some(0));
    assert_eq!(find(&members, "y"), Some(1));
    assert_eq!(find(&members, "z"), None);
    assert_eq!(find(&Vec::new(), "x"), None);
}
