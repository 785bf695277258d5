use yewchat::json::{parse, quote, Json};

#[test]
fn parse_reads_a_string() {
    match parse("\"hi\"") {
        Some(Json::Text(s)) => assert_eq!(s, "hi"),
        other => panic!("expected a string, got {:?}", other),
    }
}

#[test]
fn parse_reads_the_plain_values() {
    assert!(matches!(parse("null"), Some(Json::Null)));
    assert!(matches!(parse("true"), Some(Json::Bool(true))));
    assert!(matches!(parse("false"), Some(Json::Bool(false))));
    assert!(matches!(parse("12"), Some(Json::Number)));
    assert!(matches!(parse("-1.5e3"), Some(Json::Number)));
}

#[test]
fn parse_reads_an_array_in_order() {
    match parse("[\"a\", null, [\"b\"]]") {
        Some(Json::Array(items)) => {
            assert_eq!(items.len(), 3);
            assert!(matches!(&items[0], Json::Text(s) if s == "a"));
            assert!(matches!(&items[1], Json::Null));
            match &items[2] {
                Json::Array(inner) => {
                    assert_eq!(inner.len(), 1);
                    assert!(matches!(&inner[0], Json::Text(s) if s == "b"));
                }
                other => panic!("expected an array, got {:?}", other),
            }
        }
        other => panic!("expected an array, got {:?}", other),
    }
}

#[test]
fn parse_reads_an_object() {
    let doc = parse("{ \"b\": \"x\", \"a\": {\"c\": 1} }").expect("a document");
    match &doc {
        Json::Object(entries) => assert_eq!(entries.len(), 2),
        other => panic!("expected an object, got {:?}", other),
    }
    assert!(matches!(doc.field("b"), Some(Json::Text(s)) if s == "x"));
    let inner = doc.field("a").expect("member a");
    assert!(matches!(inner.field("c"), Some(Json::Number)));
    assert!(doc.field("c").is_none());
    assert!(doc.field("").is_none());
}

#[test]
fn parse_unescapes_strings() {
    match parse("\"a\\\"b\\n\\u00e9\\ud83d\\ude00\"") {
        Some(Json::Text(s)) => assert_eq!(s, "a\"b\n\u{e9}\u{1F600}"),
        other => panic!("expected a string, got {:?}", other),
    }
}

#[test]
fn parse_refuses_truncated_text() {
    assert!(parse("{\"a\":").is_none());
    assert!(parse("").is_none());
    assert!(parse("[1,").is_none());
    assert!(parse("\"open").is_none());
}

#[test]
fn parse_refuses_trailing_text() {
    assert!(parse("{} x").is_none());
    assert!(parse("nul").is_none());
    assert!(parse("{'a': 1}").is_none());
}

#[test]
fn parse_accepts_surrounding_white_space() {
    assert!(matches!(parse("  \n{}\t "), Some(Json::Object(entries)) if entries.is_empty()));
}

#[test]
fn field_of_what_is_no_object_is_nothing() {
    assert!(parse("[1]").unwrap().field("0").is_none());
    assert!(parse("\"a\"").unwrap().field("a").is_none());
    assert!(Json::Null.field("a").is_none());
}

#[test]
fn field_takes_the_first_entry_of_a_key() {
    let doc = Json::Object(vec![
        yewchat::json::Member { key: "k".to_string(), value: Json::Bool(true) },
        yewchat::json::Member { key: "k".to_string(), value: Json::Null },
    ]);
    assert!(matches!(doc.field("k"), Some(Json::Bool(true))));
}

#[test]
fn a_repeated_key_keeps_its_last_value() {
    let doc = parse("{\"k\": 1, \"k\": \"two\"}").expect("a document");
    assert!(matches!(doc.field("k"), Some(Json::Text(s)) if s == "two"));
}

#[test]
fn quote_puts_a_text_between_quotes() {
    assert_eq!(quote("hello"), "\"hello\"");
    assert_eq!(quote(""), "\"\"");
}

#[test]
fn quote_escapes_what_json_asks_for() {
    assert_eq!(quote("a\"b"), "\"a\\\"b\"");
    assert_eq!(quote("a\\b"), "\"a\\\\b\"");
    assert_eq!(quote("line\nbreak\ttab\r"), "\"line\\nbreak\\ttab\\r\"");
    assert_eq!(quote("\u{1}"), "\"\\u0001\"");
    assert_eq!(quote("\u{1f}"), "\"\\u001f\"");
    assert_eq!(quote("\u{8}\u{c}"), "\"\\b\\f\"");
}

#[test]
fn quote_leaves_other_characters_as_they_are() {
    assert_eq!(quote("caf\u{e9} \u{1F600}/"), "\"caf\u{e9} \u{1F600}/\"");
    assert_eq!(quote("\u{7f}"), "\"\u{7f}\"");
}

#[test]
fn a_quoted_text_parses_back() {
    for text in ["", "hi", "a\"b\\c", "\n\t\r\u{0}\u{1f}", "\u{1F600}\u{e9}", "{\"from\":\"a\"}"] {
        match parse(&quote(text)) {
            Some(Json::Text(s)) => assert_eq!(s, text),
            other => panic!("expected a string, got {:?}", other),
        }
    }
}
