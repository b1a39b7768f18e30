use remote_relay::action::Response;
use remote_relay::codec::{encode_response, frame_listing, join, quote_all};

fn names(items: &[&str]) -> Vec<String> {
    items.iter().map(|s| s.to_string()).collect()
}

#[test]
fn encode_response_lists_the_names_in_order() {
    let response = Response::Capabilities { apps: names(&["Firefox", "Files", "Terminal"]) };
    assert_eq!(
        encode_response(&response),
        "{\"Capabilities\":{\"apps\":[\"Firefox\",\"Files\",\"Terminal\"]}}"
    );
}

#[test]
fn encode_response_writes_an_empty_list() {
    let response = Response::Capabilities { apps: Vec::new() };
    assert_eq!(encode_response(&response), "{\"Capabilities\":{\"apps\":[]}}");
}

#[test]
fn encode_response_writes_a_single_name_without_comma() {
    let response = Response::Capabilities { apps: names(&["Firefox"]) };
    assert_eq!(encode_response(&response), "{\"Capabilities\":{\"apps\":[\"Firefox\"]}}");
}

#[test]
fn encode_response_keeps_repeated_names() {
    let response = Response::Capabilities { apps: names(&["a", "a", "b", "a"]) };
    assert_eq!(
        encode_response(&response),
        "{\"Capabilities\":{\"apps\":[\"a\",\"a\",\"b\",\"a\"]}}"
    );
}

#[test]
fn encode_response_escapes_names() {
    let response = Response::Capabilities { apps: names(&["say \"hi\"", "a,b", "back\\slash"]) };
    assert_eq!(
        encode_response(&response),
        "{\"Capabilities\":{\"apps\":[\"say \\\"hi\\\"\",\"a,b\",\"back\\\\slash\"]}}"
    );
}

#[test]
fn encode_response_is_what_a_json_reader_expects() {
    let apps = names(&["Firefox", "caf\u{e9}", "tab\there", ""]);
    let encoded = encode_response(&Response::Capabilities { apps: apps.clone() });
    let value: serde_json::Value = serde_json::from_str(&encoded).unwrap();
    let listed = value.get("Capabilities").and_then(|c| c.get("apps")).and_then(|a| a.as_array());
    let listed: Vec<String> =
        listed.unwrap().iter().map(|v| v.as_str().unwrap().to_string()).collect();
    assert_eq!(listed, apps);
    assert_eq!(value.as_object().unwrap().len(), 1);
    assert_eq!(value.get("Capabilities").unwrap().as_object().unwrap().len(), 1);
}

fn literal(name: &str) -> String {
    let encoded = encode_response(&Response::Capabilities { apps: names(&[name]) });
    let inner = encoded.strip_prefix("{\"Capabilities\":{\"apps\":[").unwrap();
    inner.strip_suffix("]}}").unwrap().to_string()
}

#[test]
fn names_are_written_as_string_literals() {
    assert_eq!(literal("firefox"), "\"firefox\"");
    assert_eq!(literal(""), "\"\"");
    assert_eq!(literal("a\"b"), "\"a\\\"b\"");
    assert_eq!(literal("a\\b"), "\"a\\\\b\"");
    assert_eq!(literal("line\nbreak\ttab"), "\"line\\nbreak\\ttab\"");
    assert_eq!(literal("\u{1}"), "\"\\u0001\"");
    assert_eq!(literal("caf\u{e9} \u{1F600}"), "\"caf\u{e9} \u{1F600}\"");
}

#[test]
fn written_names_parse_back() {
    for name in ["", "plain", "a\"b", "\\", "\n\r\t", "caf\u{e9}", "\u{0}\u{1f}"] {
        let parsed = remote_relay::json::parse(&literal(name));
        assert_eq!(parsed, Ok(remote_relay::json::Json::String(name.to_string())));
    }
}

#[test]
fn join_puts_commas_between_items() {
    assert_eq!(join(&Vec::new()), "");
    assert_eq!(join(&names(&["a"])), "a");
    assert_eq!(join(&names(&["a", "b"])), "a,b");
    assert_eq!(join(&names(&["a", "", "c"])), "a,,c");
    assert_eq!(join(&names(&["", ""])), ",");
}

#[test]
fn frame_listing_wraps_the_literals() {
    assert_eq!(frame_listing(&Vec::new()), "{\"Capabilities\":{\"apps\":[]}}");
    assert_eq!(
        frame_listing(&names(&["\"a\"", "\"b\""])),
        "{\"Capabilities\":{\"apps\":[\"a\",\"b\"]}}"
    );
}

#[test]
fn quote_all_quotes_each_item() {
    assert_eq!(quote_all(&Vec::new()), Vec::<String>::new());
    assert_eq!(
        quote_all(&names(&["a", "b\"c", ""])),
        names(&["\"a\"", "\"b\\\"c\"", "\"\""])
    );
}
