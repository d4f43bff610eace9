use leap_mcp::json::{json_clone, lookup_field, Json};
use leap_mcp::text::i64_to_string;

fn s(text: &str) -> Json {
    Json::Str(text.to_string())
}

#[test]
fn lookup_finds_first_match_in_order() {
    let fields = vec![
        ("a".to_string(), s("one")),
        ("b".to_string(), s("two")),
        ("a".to_string(), s("three")),
    ];
    assert_eq!(lookup_field(&fields, "a"), Some(&s("one")));
    assert_eq!(lookup_field(&fields, "b"), Some(&s("two")));
    assert_eq!(lookup_field(&fields, "c"), None);
}

#[test]
fn clone_copies_nested_values() {
    let value = Json::Obj(vec![
        ("xs".to_string(), Json::Arr(vec![Json::Null, Json::Bool(true), Json::Num("7".to_string())])),
        ("s".to_string(), s("text")),
    ]);
    assert_eq!(json_clone(&value), value);
}

#[test]
fn decimal_rendering() {
    assert_eq!(i64_to_string(0), "0");
    assert_eq!(i64_to_string(7), "7");
    assert_eq!(i64_to_string(-1), "-1");
    assert_eq!(i64_to_string(-32700), "-32700");
    assert_eq!(i64_to_string(i64::MAX), "9223372036854775807");
    assert_eq!(i64_to_string(i64::MIN), "-9223372036854775808");
}
