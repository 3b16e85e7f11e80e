use print_bridge::json::JsonValue;
use print_bridge::text::parse_json;

fn parsed(text: &str) -> JsonValue {
    match parse_json(text) {
        Ok(doc) => doc,
        Err(e) => panic!("{} did not parse: {}", text, e),
    }
}

#[test]
fn parse_json_reads_null() {
    assert_eq!(parsed("null"), JsonValue::Null);
}

#[test]
fn parse_json_reads_booleans() {
    assert_eq!(parsed("true"), JsonValue::Bool(true));
    assert_eq!(parsed("false"), JsonValue::Bool(false));
}

#[test]
fn parse_json_reads_an_integer() {
    assert_eq!(parsed("42"), JsonValue::Integer(42));
    assert_eq!(parsed("-7"), JsonValue::Integer(-7));
}

#[test]
fn parse_json_reads_the_ends_of_the_integer_range() {
    assert_eq!(parsed("9223372036854775807"), JsonValue::Integer(i64::MAX));
    assert_eq!(parsed("-9223372036854775808"), JsonValue::Integer(i64::MIN));
}

#[test]
fn parse_json_keeps_other_numbers_as_number() {
    assert_eq!(parsed("1.5"), JsonValue::Number);
    assert_eq!(parsed("256.0"), JsonValue::Number);
    assert_eq!(parsed("9223372036854775808"), JsonValue::Number);
    assert_eq!(parsed("1e3"), JsonValue::Number);
}

#[test]
fn parse_json_reads_a_text() {
    assert_eq!(parsed("\"camera busy\""), JsonValue::Text("camera busy".to_string()));
    assert_eq!(parsed("\"\""), JsonValue::Text(String::new()));
    assert_eq!(parsed("\"\\u6253\\u5370\""), JsonValue::Text("打印".to_string()));
}

#[test]
fn parse_json_reads_an_array_in_order() {
    assert_eq!(
        parsed("[1, \"two\", null, [3]]"),
        JsonValue::Array(vec![
            JsonValue::Integer(1),
            JsonValue::Text("two".to_string()),
            JsonValue::Null,
            JsonValue::Array(vec![JsonValue::Integer(3)]),
        ])
    );
    assert_eq!(parsed("[]"), JsonValue::Array(vec![]));
}

#[test]
fn parse_json_reads_an_object() {
    assert_eq!(
        parsed("{\"path\": \"/a/b.jpg\"}"),
        JsonValue::Object(vec![("path".to_string(), JsonValue::Text("/a/b.jpg".to_string()))])
    );
    assert_eq!(parsed("{}"), JsonValue::Object(vec![]));
}

#[test]
fn parse_json_reads_every_member_of_an_object() {
    let doc = parsed("{\"b\": 2, \"a\": {\"c\": [true]}, \"d\": null}");
    match &doc {
        JsonValue::Object(members) => assert_eq!(members.len(), 3),
        other => panic!("no object: {:?}", other),
    }
    assert_eq!(doc.get("b"), Some(&JsonValue::Integer(2)));
    assert_eq!(
        doc.get("a"),
        Some(&JsonValue::Object(vec![(
            "c".to_string(),
            JsonValue::Array(vec![JsonValue::Bool(true)])
        )]))
    );
    assert_eq!(doc.get("d"), Some(&JsonValue::Null));
    assert_eq!(doc.get("e"), None);
}

#[test]
fn parse_json_keeps_the_last_of_two_members_with_one_key() {
    let doc = parsed("{\"a\": 1, \"a\": 2}");
    assert_eq!(doc, JsonValue::Object(vec![("a".to_string(), JsonValue::Integer(2))]));
}

#[test]
fn parse_json_fails_on_truncated_text() {
    assert_eq!(
        parse_json("{\"path\": "),
        Err("JSON解析失败: EOF while parsing a value at line 1 column 9".to_string())
    );
}

#[test]
fn parse_json_fails_on_empty_text() {
    assert_eq!(
        parse_json(""),
        Err("JSON解析失败: EOF while parsing a value at line 1 column 0".to_string())
    );
}

#[test]
fn parse_json_fails_on_text_after_the_document() {
    assert_eq!(
        parse_json("[] x"),
        Err("JSON解析失败: trailing characters at line 1 column 4".to_string())
    );
}

#[test]
fn parse_json_reports_what_the_parser_reports() {
    let texts = ["{", "[1,", "{\"a\" 1}", "nul", "\"open", "[1 2]", "01"];
    for text in texts {
        let expected = match serde_json::from_str::<serde_json::Value>(text) {
            Ok(v) => panic!("{} parsed: {:?}", text, v),
            Err(e) => format!("JSON解析失败: {}", e),
        };
        assert_eq!(parse_json(text), Err(expected));
    }
}

fn same_document(ours: &JsonValue, theirs: &serde_json::Value) -> bool {
    match (ours, theirs) {
        (JsonValue::Null, serde_json::Value::Null) => true,
        (JsonValue::Bool(a), serde_json::Value::Bool(b)) => a == b,
        (JsonValue::Integer(a), serde_json::Value::Number(n)) => n.as_i64() == Some(*a),
        (JsonValue::Number, serde_json::Value::Number(n)) => n.as_i64().is_none(),
        (JsonValue::Text(a), serde_json::Value::String(b)) => a == b,
        (JsonValue::Array(a), serde_json::Value::Array(b)) => {
            a.len() == b.len() && a.iter().zip(b.iter()).all(|(x, y)| same_document(x, y))
        }
        (JsonValue::Object(a), serde_json::Value::Object(b)) => {
            a.len() == b.len()
                && a.iter().zip(b.iter()).all(|((k, x), (l, y))| k == l && same_document(x, y))
        }
        _ => false,
    }
}

#[test]
fn parse_json_agrees_with_the_parser_at_every_level() {
    let texts = [
        "null",
        "[[[[[[1]]]]], {\"a\": {\"b\": {\"c\": [null, true, -3, 2.5, \"x\"]}}}]",
        "{\"z\": 1, \"a\": [], \"m\": {}, \"b\": \"\", \"k\": 18446744073709551615, \"z\": 7}",
        "[{\"device_name\": \"d\", \"vendor_id\": 1208}, 5, {\"路径\": \"打印\"}]",
        "  [ 1 , 2 ]  ",
        "\"a\\n\\\"b\\\"\"",
        "-0",
        "1e400",
    ];
    for text in texts {
        match (parse_json(text), serde_json::from_str::<serde_json::Value>(text)) {
            (Ok(ours), Ok(theirs)) => {
                assert!(same_document(&ours, &theirs), "{}: {:?} and {:?}", text, ours, theirs)
            }
            (Err(ours), Err(theirs)) => assert_eq!(ours, format!("JSON解析失败: {}", theirs)),
            (ours, theirs) => panic!("{}: {:?} and {:?}", text, ours, theirs),
        }
    }
}

#[test]
fn parse_json_fails_on_a_document_nested_too_deep() {
    let text = "[".repeat(200) + &"]".repeat(200);
    assert_eq!(
        parse_json(&text),
        Err("JSON解析失败: recursion limit exceeded at line 1 column 128".to_string())
    );
}

#[test]
fn parse_json_reads_a_document_nested_deep() {
    let text = "[".repeat(100) + &"]".repeat(100);
    let mut doc = parsed(&text);
    let mut depth = 0;
    while let JsonValue::Array(mut items) = doc {
        depth += 1;
        if items.is_empty() {
            break;
        }
        assert_eq!(items.len(), 1);
        doc = items.remove(0);
    }
    assert_eq!(depth, 100);
}
