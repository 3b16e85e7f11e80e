use print_bridge::json::JsonValue;

fn text(s: &str) -> JsonValue {
    JsonValue::Text(s.to_string())
}

fn object(members: Vec<(&str, JsonValue)>) -> JsonValue {
    JsonValue::Object(members.into_iter().map(|(k, v)| (k.to_string(), v)).collect())
}

#[test]
fn get_finds_a_member_by_its_key() {
    let doc = object(vec![("a", JsonValue::Integer(1)), ("b", text("x"))]);
    assert_eq!(doc.get("a"), Some(&JsonValue::Integer(1)));
    assert_eq!(doc.get("b"), Some(&text("x")));
}

#[test]
fn get_finds_nothing_under_a_missing_key() {
    let doc = object(vec![("a", JsonValue::Integer(1))]);
    assert_eq!(doc.get("c"), None);
    assert_eq!(doc.get(""), None);
    assert_eq!(doc.get("A"), None);
    assert_eq!(object(vec![]).get("a"), None);
}

#[test]
fn get_takes_the_first_of_two_members_with_one_key() {
    let doc = object(vec![("a", JsonValue::Integer(1)), ("a", JsonValue::Integer(2))]);
    assert_eq!(doc.get("a"), Some(&JsonValue::Integer(1)));
}

#[test]
fn get_finds_nothing_in_what_is_no_object() {
    assert_eq!(JsonValue::Null.get("a"), None);
    assert_eq!(text("a").get("a"), None);
    assert_eq!(JsonValue::Array(vec![object(vec![("a", JsonValue::Null)])]).get("a"), None);
}

#[test]
fn as_str_gives_the_text_only() {
    assert_eq!(text("hello").as_str(), Some("hello"));
    assert_eq!(text("").as_str(), Some(""));
    assert_eq!(JsonValue::Integer(1).as_str(), None);
    assert_eq!(JsonValue::Null.as_str(), None);
}

#[test]
fn as_i64_gives_the_integer_only() {
    assert_eq!(JsonValue::Integer(-5).as_i64(), Some(-5));
    assert_eq!(JsonValue::Number.as_i64(), None);
    assert_eq!(text("5").as_i64(), None);
    assert_eq!(JsonValue::Bool(true).as_i64(), None);
}

#[test]
fn as_bool_gives_the_boolean_only() {
    assert_eq!(JsonValue::Bool(true).as_bool(), Some(true));
    assert_eq!(JsonValue::Bool(false).as_bool(), Some(false));
    assert_eq!(JsonValue::Integer(1).as_bool(), None);
    assert_eq!(text("true").as_bool(), None);
}

#[test]
fn objects_keeps_the_objects_of_an_array_in_order() {
    let first = object(vec![("n", JsonValue::Integer(1))]);
    let second = object(vec![]);
    let third = object(vec![("n", JsonValue::Integer(3))]);
    let doc = JsonValue::Array(vec![
        JsonValue::Null,
        object(vec![("n", JsonValue::Integer(1))]),
        text("x"),
        object(vec![]),
        JsonValue::Array(vec![object(vec![])]),
        object(vec![("n", JsonValue::Integer(3))]),
        JsonValue::Integer(4),
    ]);
    assert_eq!(doc.objects(), vec![&first, &second, &third]);
}

#[test]
fn objects_of_what_is_no_array_are_none() {
    assert!(object(vec![("a", object(vec![]))]).objects().is_empty());
    assert!(JsonValue::Null.objects().is_empty());
    assert!(JsonValue::Array(vec![]).objects().is_empty());
}
